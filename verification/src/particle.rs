//! Explosions: the stages that describe them, the builder that collects
//! the stages, and the running effect.

pub mod circle;
pub mod stage;

pub use circle::CircleParticle;
pub use stage::{
    ExplosionStage, ParticleDraws, EDIT_MAX_COUNT, EDIT_MAX_LENGTH, EDIT_MAX_TIME, EDIT_MIN_COUNT,
    TWO_PI,
};

use circle::{forward, total_time};
use stage::lemma_batch_within_ranges;

use crate::alive::IsAlive;
use crate::drawable::{Drawable, Graphic};
use crate::fixed::{cosine, plus, sine, times};
use crate::timers::AliveTimer;
use crate::updateable::Updateable;
use crate::{CenterPt, Size};
use vstd::prelude::*;

verus! {

/// What a world is made of: it shows, it changes with time, and it ends.
pub trait Particle: Drawable + Updateable + IsAlive {
}

/// What changes with time and ends.
pub trait AliveUpdatable: Updateable + IsAlive {
}

impl AliveUpdatable for AliveTimer {
}

impl AliveUpdatable for CircleParticle {
}

impl AliveUpdatable for Explosion {
}

impl Particle for CircleParticle {
}

impl Particle for Explosion {
}

/// The number of particles in all `batches` together.
pub open spec fn batch_total(batches: Seq<Seq<CircleParticle>>) -> nat
    decreases batches.len(),
{
    if batches.len() == 0 {
        0
    } else {
        batch_total(batches.drop_last()) + batches.last().len()
    }
}

/// Batches laid end to end hold as many particles as the batches do
/// together.
pub proof fn lemma_flatten_total(batches: Seq<Seq<CircleParticle>>)
    ensures
        batches.flatten().len() == batch_total(batches),
    decreases batches.len(),
{
    if batches.len() == 0 {
        assert(batches.flatten() =~= Seq::<CircleParticle>::empty());
    } else {
        let front = batches.drop_last();
        lemma_flatten_total(front);
        front.lemma_flatten_push(batches.last());
        assert(front.push(batches.last()) =~= batches);
    }
}

/// Why a stage was not accepted.
#[derive(Debug, Clone, Copy, PartialEq, Eq, Structural)]
pub enum InvalidStageError {
    /// The longest lifetime of the stage's particles is zero.
    ZeroStageTime,
}

/// The recipe of an explosion: its stages, in the order in which they were
/// added.
#[derive(Debug)]
pub struct ExplosionBuilder {
    stages: Vec<ExplosionStage>,
}

/// A running explosion: the particles that are left of it.
#[derive(Debug)]
pub struct Explosion {
    circles: Vec<CircleParticle>,
}

impl View for ExplosionBuilder {
    type V = Seq<ExplosionStage>;

    closed spec fn view(&self) -> Seq<ExplosionStage> {
        self.stages@
    }
}

impl View for Explosion {
    type V = Seq<CircleParticle>;

    closed spec fn view(&self) -> Seq<CircleParticle> {
        self.circles@
    }
}

impl Clone for ExplosionBuilder {
    fn clone(&self) -> (b: Self)
        ensures
            b@ == self@,
    {
        let stages = self.stages.clone();
        assert(stages@ =~= self.stages@);
        Self { stages }
    }
}

impl Clone for Explosion {
    fn clone(&self) -> (e: Self)
        ensures
            e@ == self@,
    {
        let circles = self.circles.clone();
        assert(circles@ =~= self.circles@);
        Self { circles }
    }
}

impl Default for ExplosionBuilder {
    /// A builder without stages.
    fn default() -> (b: Self)
        ensures
            b@ == Seq::<ExplosionStage>::empty(),
    {
        Self { stages: Vec::new() }
    }
}

impl Default for Explosion {
    /// An explosion without particles.
    fn default() -> (e: Self)
        ensures
            e@ == Seq::<CircleParticle>::empty(),
    {
        Self { circles: Vec::new() }
    }
}

/// The largest span among `stages`, and 0 where there is none.
pub open spec fn longest_span(stages: Seq<ExplosionStage>) -> i32
    decreases stages.len(),
{
    if stages.len() == 0 {
        0
    } else {
        let rest = longest_span(stages.drop_last());
        let last = stages.last().span();
        if last > rest {
            last
        } else {
            rest
        }
    }
}

/// The longest span is not negative, no stage's span exceeds it, and it is
/// 0 or the span of one of the stages.
pub proof fn lemma_longest_span(stages: Seq<ExplosionStage>)
    ensures
        longest_span(stages) >= 0,
        forall|i: int| 0 <= i < stages.len() ==> longest_span(stages) >= (#[trigger] stages[i]).span(),
        longest_span(stages) == 0 || exists|i: int|
            0 <= i < stages.len() && longest_span(stages) == (#[trigger] stages[i]).span(),
    decreases stages.len(),
{
    if stages.len() > 0 {
        let front = stages.drop_last();
        lemma_longest_span(front);
        assert forall|i: int| 0 <= i < stages.len() implies longest_span(stages) >= (
        #[trigger] stages[i]).span() by {
            if i < front.len() {
                assert(stages[i] == front[i]);
            }
        }
        if longest_span(stages) != 0 {
            if longest_span(stages) == stages.last().span() {
                assert(stages[stages.len() - 1] == stages.last());
            } else {
                let i = choose|i: int|
                    0 <= i < front.len() && longest_span(front) == (#[trigger] front[i]).span();
                assert(stages[i] == front[i]);
            }
        }
    }
}

impl ExplosionBuilder {
    /// Every stage can generate particles.
    pub open spec fn valid(self) -> bool {
        forall|i: int| 0 <= i < self@.len() ==> (#[trigger] self@[i]).valid()
    }

    /// Whether `particles` is what the stages yield when they generate the
    /// `batches`, one each and in order.
    pub open spec fn built_from(
        self,
        center: CenterPt,
        batches: Seq<Seq<CircleParticle>>,
        particles: Seq<CircleParticle>,
    ) -> bool {
        &&& batches.len() == self@.len()
        &&& forall|i: int|
            0 <= i < batches.len() ==> self@[i].may_generate(center, #[trigger] batches[i])
        &&& particles == batches.flatten()
    }

    /// Whether `particles` is a possible outcome of building at `center`.
    pub open spec fn may_build(self, center: CenterPt, particles: Seq<CircleParticle>) -> bool {
        exists|batches: Seq<Seq<CircleParticle>>| #[trigger]
            self.built_from(center, batches, particles)
    }

    /// The stages, in order.
    pub fn stages(&self) -> (r: &Vec<ExplosionStage>)
        ensures
            r@ == self@,
    {
        &self.stages
    }

    pub fn is_valid(&self) -> (r: bool)
        ensures
            r == self.valid(),
    {
        let n: usize = self.stages.len();
        let mut i: usize = 0;
        while i < n
            invariant
                i <= n,
                n == self.stages@.len(),
                forall|j: int| 0 <= j < i ==> (#[trigger] self.stages@[j]).valid(),
            decreases n - i,
        {
            if !self.stages[i].is_valid() {
                assert(!self@[i as int].valid());
                return false;
            }
            i += 1;
        }
        true
    }

    /// Replaces the stages.
    pub fn with_stages(self, stages: Vec<ExplosionStage>) -> (b: Self)
        ensures
            b@ == stages@,
    {
        let mut b = self;
        b.stages = stages;
        b
    }

    /// Adds a stage at the end, unless its longest lifetime is zero.
    pub fn with_circle_stage(self, stage: ExplosionStage) -> (r: Result<Self, InvalidStageError>)
        ensures
            stage.stage_time.max == 0 ==> r == Err::<Self, InvalidStageError>(
                InvalidStageError::ZeroStageTime,
            ),
            stage.stage_time.max != 0 ==> r is Ok && r->Ok_0@ == self@.push(stage),
    {
        if stage.stage_time.max == 0 {
            return Err(InvalidStageError::ZeroStageTime);
        }
        let mut b = self;
        b.stages.push(stage);
        Ok(b)
    }

    /// Adds a stage at the end as the editor does: a copy of the last
    /// stage, or the standard stage where there is none yet.
    pub fn add_stage(&mut self)
        ensures
            final(self)@ == old(self)@.push(
                if old(self)@.len() > 0 {
                    old(self)@.last()
                } else {
                    ExplosionStage::standard()
                },
            ),
    {
        let n: usize = self.stages.len();
        let stage = if n > 0 {
            self.stages[n - 1]
        } else {
            ExplosionStage::default()
        };
        self.stages.push(stage);
    }

    /// Takes out the stage at `index`; the later stages move up.
    pub fn remove_stage(&mut self, index: usize)
        requires
            index < old(self)@.len(),
        ensures
            final(self)@ == old(self)@.remove(index as int),
    {
        self.stages.remove(index);
    }

    /// Replaces the stage at `index`.
    pub fn set_stage(&mut self, index: usize, stage: ExplosionStage)
        requires
            index < old(self)@.len(),
        ensures
            final(self)@ == old(self)@.update(index as int, stage),
    {
        self.stages[index] = stage;
    }

    /// Builds the explosion at `center`: every stage generates its
    /// particles, and the explosion holds them all, stage after stage.
    /// Without stages there is no explosion.
    pub fn build(self, center: CenterPt) -> (r: Option<Explosion>)
        requires
            self.valid(),
        ensures
            r is None <==> self@.len() == 0,
            r matches Some(e) ==> self.may_build(center, e@),
    {
        if self.stages.len() == 0 {
            return None;
        }
        let n: usize = self.stages.len();
        let mut circles: Vec<CircleParticle> = Vec::new();
        let ghost mut batches: Seq<Seq<CircleParticle>> = Seq::empty();
        let mut i: usize = 0;
        while i < n
            invariant
                i <= n,
                n == self.stages@.len(),
                self.valid(),
                batches.len() == i,
                forall|j: int|
                    0 <= j < i ==> self.stages@[j].may_generate(center, #[trigger] batches[j]),
                circles@ == batches.flatten(),
            decreases n - i,
        {
            assert(self@[i as int].valid());
            let mut batch = self.stages[i].generate_circle_particles(center);
            proof {
                batches.lemma_flatten_push(batch@);
                batches = batches.push(batch@);
            }
            circles.append(&mut batch);
            i += 1;
        }
        let explosion = Explosion { circles };
        assert(self.built_from(center, batches, explosion@));
        Some(explosion)
    }

    /// The gizmos of all stages around `center`, in stage order.
    pub open spec fn gizmos(self, center: CenterPt) -> Seq<Graphic> {
        self@.map_values(|s: ExplosionStage| s.gizmos(s.gizmo_center(center))).flatten()
    }

    /// Lists the shapes that show every stage's ranges, each stage around
    /// its own centre.
    pub fn draw_gizmos_at(&self, center: CenterPt) -> (shapes: Vec<Graphic>)
        ensures
            shapes@ == self.gizmos(center),
    {
        let n: usize = self.stages.len();
        let mut shapes: Vec<Graphic> = Vec::new();
        let ghost each = |s: ExplosionStage| s.gizmos(s.gizmo_center(center));
        let mut i: usize = 0;
        while i < n
            invariant
                i <= n,
                n == self.stages@.len(),
                each == |s: ExplosionStage| s.gizmos(s.gizmo_center(center)),
                shapes@ == self.stages@.take(i as int).map_values(each).flatten(),
            decreases n - i,
        {
            let es = &self.stages[i];
            let dist: i32 = es.dist.avg();
            let angle: i32 = es.angle.avg();
            let offset = Size::new(times(cosine(angle), dist), times(sine(angle), dist));
            let mut own = es.draw_gizmos_at(center + offset);
            proof {
                let front = self.stages@.take(i as int).map_values(each);
                front.lemma_flatten_push(own@);
                assert(self.stages@.take(i + 1).map_values(each) =~= front.push(own@));
            }
            shapes.append(&mut own);
            i += 1;
        }
        assert(self.stages@.take(n as int) =~= self.stages@);
        shapes
    }

    /// The time after which every particle of every stage is gone: the
    /// longest span of a stage, and 0 without stages.
    pub fn max_loop_time(&self) -> (time: i32)
        ensures
            time == longest_span(self@),
            time >= 0,
            forall|i: int| 0 <= i < self@.len() ==> time >= (#[trigger] self@[i]).span(),
            time == 0 || exists|i: int|
                0 <= i < self@.len() && time == (#[trigger] self@[i]).span(),
    {
        let n: usize = self.stages.len();
        let mut time: i32 = 0;
        let mut i: usize = 0;
        while i < n
            invariant
                i <= n,
                n == self.stages@.len(),
                time == longest_span(self.stages@.take(i as int)),
            decreases n - i,
        {
            let ex = &self.stages[i];
            let span: i32 = plus(ex.delay.max, ex.stage_time.max);
            proof {
                assert(self.stages@.take(i + 1).drop_last() =~= self.stages@.take(i as int));
            }
            if span > time {
                time = span;
            }
            i += 1;
        }
        proof {
            assert(self.stages@.take(n as int) =~= self.stages@);
            lemma_longest_span(self@);
        }
        time
    }
}

/// A built explosion holds as many particles as its stages sampled: the
/// sum over the stages of a sample of each stage's count range.
pub proof fn lemma_built_count(
    builder: ExplosionBuilder,
    center: CenterPt,
    batches: Seq<Seq<CircleParticle>>,
    particles: Seq<CircleParticle>,
)
    requires
        builder.valid(),
        builder.built_from(center, batches, particles),
    ensures
        particles.len() == batch_total(batches),
        forall|i: int|
            0 <= i < batches.len() ==> builder@[i].samples_count((#[trigger] batches[i]).len()),
{
    lemma_flatten_total(batches);
}

/// The keeper of the particles that are alive.
pub open spec fn alive_ones(particles: Seq<CircleParticle>) -> Seq<CircleParticle> {
    particles.filter(|p: CircleParticle| p.alive())
}

/// Every particle after one step of `delta_time`.
pub open spec fn all_updated(particles: Seq<CircleParticle>, delta_time: i32) -> Seq<
    CircleParticle,
> {
    particles.map_values(|p: CircleParticle| p.updated(delta_time))
}

proof fn lemma_all_alive_kept(particles: Seq<CircleParticle>)
    requires
        forall|i: int| 0 <= i < particles.len() ==> (#[trigger] particles[i]).alive(),
    ensures
        alive_ones(particles) == particles,
    decreases particles.len(),
{
    reveal(Seq::filter);
    if particles.len() > 0 {
        lemma_all_alive_kept(particles.drop_last());
        assert(particles.drop_last().push(particles.last()) =~= particles);
    }
}

impl Explosion {
    /// A builder without stages, to start an explosion from.
    pub fn begin() -> (b: ExplosionBuilder)
        ensures
            b@ == Seq::<ExplosionStage>::empty(),
    {
        ExplosionBuilder::default()
    }

    /// Whether `after` is this explosion one step of `delta_time` later:
    /// every particle is updated, and those that are then no longer alive
    /// are dropped.
    pub open spec fn steps_to(self, delta_time: i32, after: Self) -> bool {
        after@ == alive_ones(all_updated(self@, delta_time))
    }

    /// An explosion is alive while one of its particles is.
    pub open spec fn any_alive(self) -> bool {
        exists|i: int| 0 <= i < self@.len() && (#[trigger] self@[i]).alive()
    }

    /// The particles that are left, in the order of their generation.
    pub fn particles(&self) -> (r: &Vec<CircleParticle>)
        ensures
            r@ == self@,
    {
        &self.circles
    }
}

/// The discs of the particles that are visible, in order.
pub open spec fn visible_discs(particles: Seq<CircleParticle>) -> Seq<Graphic> {
    particles.filter(|p: CircleParticle| p.visible()).map_values(|p: CircleParticle| p.disc())
}

impl Drawable for Explosion {
    /// An explosion shows every particle that is visible.
    open spec fn shapes(&self) -> Seq<Graphic> {
        visible_discs(self@)
    }

    fn draw(&self) -> (r: Vec<Graphic>)
        ensures
            r@ == visible_discs(self@),
    {
        let n: usize = self.circles.len();
        let mut shapes: Vec<Graphic> = Vec::new();
        let mut i: usize = 0;
        while i < n
            invariant
                i <= n,
                n == self.circles@.len(),
                shapes@ == visible_discs(self.circles@.take(i as int)),
            decreases n - i,
        {
            let mut own = self.circles[i].draw();
            proof {
                let c = self.circles@[i as int];
                let front = self.circles@.take(i as int);
                front.lemma_filter_push(c, |p: CircleParticle| p.visible());
                assert(front.push(c) =~= self.circles@.take(i + 1));
                let kept = front.filter(|p: CircleParticle| p.visible());
                assert(visible_discs(self.circles@.take(i + 1)) =~= visible_discs(front) + own@);
            }
            shapes.append(&mut own);
            i += 1;
        }
        assert(self.circles@.take(n as int) =~= self.circles@);
        shapes
    }
}

impl IsAlive for Explosion {
    open spec fn alive(&self) -> bool {
        self.any_alive()
    }

    fn is_alive(&self) -> (r: bool)
        ensures
            r == self.any_alive(),
    {
        let n: usize = self.circles.len();
        let mut i: usize = 0;
        while i < n
            invariant
                i <= n,
                n == self.circles@.len(),
                forall|j: int| 0 <= j < i ==> !(#[trigger] self.circles@[j]).alive(),
            decreases n - i,
        {
            if self.circles[i].is_alive() {
                assert(self@[i as int].alive());
                return true;
            }
            i += 1;
        }
        false
    }
}

impl Updateable for Explosion {
    open spec fn advances_to(&self, delta_time: i32, after: &Self) -> bool {
        self.steps_to(delta_time, *after)
    }

    fn update(&mut self, delta_time: i32)
        ensures
            final(self)@ == alive_ones(all_updated(old(self)@, delta_time)),
    {
        self.circles.update(delta_time);
        assert(self.circles@ =~= all_updated(old(self).circles@, delta_time));
        let n: usize = self.circles.len();
        let mut any_dead: bool = false;
        let mut i: usize = 0;
        while i < n && !any_dead
            invariant
                i <= n,
                n == self.circles@.len(),
                !any_dead ==> forall|j: int| 0 <= j < i ==> (#[trigger] self.circles@[j]).alive(),
            decreases n - i,
        {
            if !self.circles[i].is_alive() {
                any_dead = true;
            }
            i += 1;
        }
        if any_dead {
            let mut kept: Vec<CircleParticle> = Vec::new();
            let mut k: usize = 0;
            while k < n
                invariant
                    k <= n,
                    n == self.circles@.len(),
                    kept@ == alive_ones(self.circles@.take(k as int)),
                decreases n - k,
            {
                let c = self.circles[k];
                proof {
                    self.circles@.take(k as int).lemma_filter_push(
                        c,
                        |p: CircleParticle| p.alive(),
                    );
                    assert(self.circles@.take(k as int).push(c) =~= self.circles@.take(k + 1));
                }
                if c.is_alive() {
                    kept.push(c);
                }
                k += 1;
            }
            assert(self.circles@.take(n as int) =~= self.circles@);
            self.circles = kept;
        } else {
            proof {
                lemma_all_alive_kept(self.circles@);
            }
        }
    }
}

/// What is left of `particles` after a run of steps, taken in order.
pub open spec fn survivors(particles: Seq<CircleParticle>, steps: Seq<i32>) -> Seq<CircleParticle>
    decreases steps.len(),
{
    if steps.len() == 0 {
        particles
    } else {
        alive_ones(all_updated(survivors(particles, steps.drop_last()), steps.last()))
    }
}

/// Every survivor is one of the particles, after the same steps.
pub proof fn lemma_survivors_origin(particles: Seq<CircleParticle>, steps: Seq<i32>, j: int)
    requires
        0 <= j < survivors(particles, steps).len(),
    ensures
        exists|i: int|
            0 <= i < particles.len() && survivors(particles, steps)[j] == (
            #[trigger] particles[i]).after_steps(steps),
        steps.len() > 0 ==> survivors(particles, steps)[j].alive(),
    decreases steps.len(),
{
    if steps.len() == 0 {
        assert(survivors(particles, steps)[j] == particles[j].after_steps(steps));
    } else {
        let before = survivors(particles, steps.drop_last());
        let stepped = all_updated(before, steps.last());
        let pred = |p: CircleParticle| p.alive();
        stepped.lemma_filter_pred(pred, j);
        assert(stepped.filter(pred).contains(stepped.filter(pred)[j]));
        stepped.lemma_filter_contains_rev(pred, stepped.filter(pred)[j]);
        let k = choose|k: int| 0 <= k < stepped.len() && stepped[k] == stepped.filter(pred)[j];
        lemma_survivors_origin(particles, steps.drop_last(), k);
        let i = choose|i: int|
            0 <= i < particles.len() && before[k] == (#[trigger] particles[i]).after_steps(
                steps.drop_last(),
            );
        assert(survivors(particles, steps)[j] == particles[i].after_steps(steps));
    }
}

/// Once forward steps have taken as long as the delay and the time to live
/// of every particle, none that is left is alive; and after one step or
/// more, none is left.
pub proof fn lemma_explosion_spent(particles: Seq<CircleParticle>, steps: Seq<i32>, bound: int)
    requires
        forward(steps),
        total_time(steps) >= bound,
        forall|i: int|
            0 <= i < particles.len() ==> (#[trigger] particles[i]).delay
                + particles[i].alive_timer.ttl <= bound,
    ensures
        forall|j: int|
            0 <= j < survivors(particles, steps).len() ==> !(#[trigger] survivors(
                particles,
                steps,
            )[j]).alive(),
        steps.len() > 0 ==> survivors(particles, steps).len() == 0,
{
    let left = survivors(particles, steps);
    assert forall|j: int| 0 <= j < left.len() implies !(#[trigger] left[j]).alive() by {
        lemma_survivors_origin(particles, steps, j);
        let i = choose|i: int|
            0 <= i < particles.len() && left[j] == (#[trigger] particles[i]).after_steps(steps);
        circle::lemma_particle_spent(particles[i], steps);
    }
    if steps.len() > 0 && left.len() > 0 {
        lemma_survivors_origin(particles, steps, 0);
        assert(!left[0].alive());
    }
}

/// Every particle of the batches laid end to end comes from one of them.
proof fn lemma_flatten_origin(batches: Seq<Seq<CircleParticle>>, j: int)
    requires
        0 <= j < batches.flatten().len(),
    ensures
        exists|i: int, k: int|
            0 <= i < batches.len() && 0 <= k < batches[i].len() && batches.flatten()[j]
                == #[trigger] batches[i][k],
    decreases batches.len(),
{
    if batches.len() == 0 {
        assert(batches.flatten() =~= Seq::<CircleParticle>::empty());
    } else {
        let front = batches.drop_last();
        front.lemma_flatten_push(batches.last());
        assert(front.push(batches.last()) =~= batches);
        let head = front.flatten();
        if j < head.len() {
            lemma_flatten_origin(front, j);
            let (i, k) = choose|i: int, k: int|
                0 <= i < front.len() && 0 <= k < front[i].len() && head[j] == #[trigger] front[i][k];
            assert(batches[i][k] == front[i][k]);
            assert(batches.flatten()[j] == batches[i][k]);
        } else {
            let i = batches.len() - 1;
            let k = j - head.len();
            assert(batches.flatten()[j] == batches[i][k]);
        }
    }
}

/// The promise of [`ExplosionBuilder::max_loop_time`]: once forward steps
/// have taken that long, nothing is left of an explosion that was built
/// from the recipe. It is stated for recipes in which no stage's longest
/// delay and longest lifetime add up to more than a scalar can hold.
pub proof fn lemma_built_spent(
    builder: ExplosionBuilder,
    center: CenterPt,
    particles: Seq<CircleParticle>,
    steps: Seq<i32>,
)
    requires
        builder.valid(),
        builder.may_build(center, particles),
        forall|i: int|
            0 <= i < builder@.len() ==> (#[trigger] builder@[i]).delay.max
                + builder@[i].stage_time.max <= i32::MAX,
        forward(steps),
        steps.len() > 0,
        total_time(steps) >= longest_span(builder@),
    ensures
        survivors(particles, steps).len() == 0,
{
    let batches = choose|batches: Seq<Seq<CircleParticle>>| #[trigger]
        builder.built_from(center, batches, particles);
    let bound = longest_span(builder@) as int;
    lemma_longest_span(builder@);
    assert forall|j: int| 0 <= j < particles.len() implies (#[trigger] particles[j]).delay
        + particles[j].alive_timer.ttl <= bound by {
        lemma_flatten_origin(batches, j);
        let (i, k) = choose|i: int, k: int|
            0 <= i < batches.len() && 0 <= k < batches[i].len() && batches.flatten()[j]
                == #[trigger] batches[i][k];
        assert(builder@[i].valid());
        assert(builder@[i].may_generate(center, batches[i]));
        lemma_batch_within_ranges(builder@[i], center, batches[i]);
        assert(bound >= builder@[i].span());
    }
    lemma_explosion_spent(particles, steps, bound);
}

/// An explosion that is no longer alive is empty after its next step, and so
/// never alive again.
pub proof fn lemma_exhausted_stays_exhausted(before: Explosion, delta_time: i32, after: Explosion)
    requires
        !before.any_alive(),
        before.steps_to(delta_time, after),
    ensures
        after@.len() == 0,
        !after.any_alive(),
{
    let stepped = all_updated(before@, delta_time);
    assert forall|i: int| 0 <= i < stepped.len() implies !(#[trigger] stepped[i]).alive() by {
        assert(!before@[i].alive());
        circle::lemma_dead_particle_stays_dead(before@[i], delta_time);
    }
    stepped.lemma_all_neg_filter_empty(|p: CircleParticle| p.alive());
}

/// After a step, every particle that is left is alive: the explosion is
/// alive exactly when it is not empty.
pub proof fn lemma_alive_iff_nonempty(before: Explosion, delta_time: i32, after: Explosion)
    requires
        before.steps_to(delta_time, after),
    ensures
        forall|i: int| 0 <= i < after@.len() ==> (#[trigger] after@[i]).alive(),
        after.any_alive() <==> after@.len() > 0,
{
    let stepped = all_updated(before@, delta_time);
    let pred = |p: CircleParticle| p.alive();
    assert forall|i: int| 0 <= i < after@.len() implies (#[trigger] after@[i]).alive() by {
        stepped.lemma_filter_pred(pred, i);
    }
    if after@.len() > 0 {
        assert(after@[0].alive());
    }
}

} // verus!
