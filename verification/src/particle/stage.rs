//! The spawn rule of one stage of an explosion.

use crate::color::GameColor;
use crate::drawable::{Graphic, Line, Ring};
use crate::fixed::{cosine, minus, plus, sine, times, ONE};
use crate::minmax::MinMax;
use crate::particle::circle::CircleParticle;
use crate::random::random_u64;
use crate::timers::AliveTimer;
use crate::{Accel, CenterPt, Size, Velocity};
use vstd::prelude::*;

verus! {

/// Two pi, to three decimals: the widest spawn angle.
pub const TWO_PI: i32 = 6283;

/// The largest distance and the largest radius that the editor offers.
pub const EDIT_MAX_LENGTH: i32 = 200_000;

/// The longest delay and the longest lifetime that the editor offers, in
/// seconds.
pub const EDIT_MAX_TIME: i32 = 20_000;

/// The smallest number of particles that the editor offers.
pub const EDIT_MIN_COUNT: u8 = 1;

/// The largest number of particles that the editor offers.
pub const EDIT_MAX_COUNT: u8 = 10;

/// The five draws that shape one particle, in the order in which a stage
/// makes them.
#[derive(Debug, Clone, Copy)]
pub struct ParticleDraws {
    pub ttl: u64,
    pub delay: u64,
    pub angle: u64,
    pub dist: u64,
    pub radius: u64,
}

/// One spawn rule of an explosion: how many particles, where around the
/// origin, how large, how long delayed and how long lived.
#[derive(Debug, Clone, Copy)]
pub struct ExplosionStage {
    /// Added to the outward velocity of every particle.
    pub velocity: Velocity,
    /// How long a particle lives once it is active.
    pub stage_time: MinMax<i32>,
    pub circles_per_stage: MinMax<u8>,
    /// The angle from the origin at which a particle spawns, in radians.
    pub angle: MinMax<i32>,
    /// The distance from the origin at which a particle spawns.
    pub dist: MinMax<i32>,
    /// The radius of a particle.
    pub radius: MinMax<i32>,
    /// How long a particle waits before it becomes active.
    pub delay: MinMax<i32>,
    pub color: GameColor,
}

impl Default for ExplosionStage {
    fn default() -> (s: Self)
        ensures
            s == Self::standard(),
            s.valid(),
    {
        Self {
            velocity: Velocity::new(0, 0),
            stage_time: MinMax::new(1000, 5000),
            circles_per_stage: MinMax::new(1, 1),
            angle: MinMax::new(0, TWO_PI),
            dist: MinMax::new(0, 0),
            radius: MinMax::new(1000, 3000),
            delay: MinMax::new(0, 500),
            color: GameColor::yellow(),
        }
    }
}

impl ExplosionStage {
    /// The stage that a new recipe starts from: one yellow particle at the
    /// origin, in any direction, of radius 1 to 3, delayed by up to half a
    /// second, that lives for 1 to 5 seconds.
    pub open spec fn standard() -> ExplosionStage {
        ExplosionStage {
            velocity: Velocity(0, 0),
            stage_time: MinMax { min: 1000, max: 5000 },
            circles_per_stage: MinMax { min: 1, max: 1 },
            angle: MinMax { min: 0, max: TWO_PI },
            dist: MinMax { min: 0, max: 0 },
            radius: MinMax { min: 1000, max: 3000 },
            delay: MinMax { min: 0, max: 500 },
            color: GameColor::yellow(),
        }
    }

    /// A stage can generate particles when its longest lifetime is not zero
    /// and none of its ranges is reversed.
    pub open spec fn valid(self) -> bool {
        &&& self.stage_time.max != 0
        &&& self.stage_time.ordered()
        &&& self.circles_per_stage.ordered_int()
        &&& self.angle.ordered()
        &&& self.dist.ordered()
        &&& self.radius.ordered()
        &&& self.delay.ordered()
    }

    /// The longest time that a particle of this stage can take from
    /// generation to its end: the longest delay plus the longest lifetime.
    pub open spec fn span(self) -> i32 {
        plus(self.delay.max, self.stage_time.max)
    }

    /// The offset from the origin at which a particle spawns for a given
    /// angle and distance: `(cos angle, sin angle) * dist`.
    pub open spec fn offset_at(angle: i32, dist: i32) -> (i32, i32) {
        (times(cosine(angle), dist), times(sine(angle), dist))
    }

    /// The particle that the stage makes of five draws: each draw samples
    /// one range; the particle spawns at the origin plus the offset, and the
    /// same offset is added to the stage's velocity, so that it flies
    /// outward.
    pub open spec fn spawned(self, center: CenterPt, draws: ParticleDraws) -> CircleParticle {
        let offset = Self::offset_at(self.angle.pick(draws.angle), self.dist.pick(draws.dist));
        CircleParticle {
            center: CenterPt(plus(center.0, offset.0), plus(center.1, offset.1)),
            radius: self.radius.pick(draws.radius),
            color: self.color,
            velocity: Velocity(plus(self.velocity.0, offset.0), plus(self.velocity.1, offset.1)),
            accel: Accel(crate::fixed::ONE, crate::fixed::ONE),
            delay: self.delay.pick(draws.delay),
            alive_timer: AliveTimer { ttl: self.stage_time.pick(draws.ttl) },
        }
    }

    /// Whether some five draws make the stage spawn `p`.
    pub open spec fn spawns(self, center: CenterPt, p: CircleParticle) -> bool {
        exists|draws: ParticleDraws| p == #[trigger] self.spawned(center, draws)
    }

    /// Whether `batch` is a possible outcome of generating particles: its
    /// length is a sample of the count range, and each particle is one that
    /// the stage spawns.
    pub open spec fn may_generate(self, center: CenterPt, batch: Seq<CircleParticle>) -> bool {
        &&& self.samples_count(batch.len())
        &&& forall|i: int| 0 <= i < batch.len() ==> self.spawns(center, #[trigger] batch[i])
    }

    /// Whether `p` lies at `center` plus the offset for `angle` and `dist`,
    /// and flies outward by that offset on top of the stage's velocity.
    pub open spec fn places(self, center: CenterPt, p: CircleParticle, angle: i32, dist: i32) -> bool {
        let offset = Self::offset_at(angle, dist);
        &&& p.center == CenterPt(plus(center.0, offset.0), plus(center.1, offset.1))
        &&& p.velocity == Velocity(
            plus(self.velocity.0, offset.0),
            plus(self.velocity.1, offset.1),
        )
    }

    /// Whether `n` is a sample of the count range.
    pub open spec fn samples_count(self, n: nat) -> bool {
        exists|draw: u64| n == #[trigger] self.circles_per_stage.pick_int(draw)
    }

    /// The width of the band that shows the radius range: the width of the
    /// range, and at least one unit.
    pub open spec fn radius_band(self) -> i32 {
        let width = minus(self.radius.max, self.radius.min);
        if width > ONE {
            width
        } else {
            ONE
        }
    }

    /// The point at distance `radius.max` from `center` in the direction of
    /// `angle`.
    pub open spec fn arc_end(self, center: CenterPt, angle: i32) -> CenterPt {
        let offset = Self::offset_at(angle, self.radius.max);
        CenterPt(plus(center.0, offset.0), plus(center.1, offset.1))
    }

    /// The shapes that show the stage's ranges around `center`: a ring at
    /// the smallest and one at the largest spawn distance; a band that
    /// covers the radius range; and a wedge for the angle range, made of
    /// the two bounding rays and the chord that joins their ends.
    pub open spec fn gizmos(self, center: CenterPt) -> Seq<Graphic> {
        let band = self.radius_band();
        let from = self.arc_end(center, self.angle.min);
        let to = self.arc_end(center, self.angle.max);
        seq![
            Graphic::Ring(
                Ring { center, radius: self.dist.min, thickness: ONE, color: GameColor::orange() },
            ),
            Graphic::Ring(
                Ring { center, radius: self.dist.max, thickness: ONE, color: GameColor::orange() },
            ),
            Graphic::Ring(
                Ring {
                    center,
                    radius: minus(self.radius.max, (band / 2) as i32),
                    thickness: band,
                    color: GameColor::blue(),
                },
            ),
            Graphic::Line(
                Line { x1: center.0, y1: center.1, x2: from.0, y2: from.1, color: GameColor::green() },
            ),
            Graphic::Line(
                Line { x1: center.0, y1: center.1, x2: to.0, y2: to.1, color: GameColor::green() },
            ),
            Graphic::Line(
                Line { x1: from.0, y1: from.1, x2: to.0, y2: to.1, color: GameColor::green() },
            ),
        ]
    }

    /// Where the builder shows this stage's gizmos: `center` moved by the
    /// middle distance in the direction of the middle angle, so that the
    /// gizmos of several stages do not cover each other.
    pub open spec fn gizmo_center(self, center: CenterPt) -> CenterPt {
        let offset = Self::offset_at(self.angle.midpoint(), self.dist.midpoint());
        center.offset(Size(offset.0, offset.1))
    }

    /// Lists the shapes that show the stage's ranges around `center`.
    pub fn draw_gizmos_at(&self, center: CenterPt) -> (shapes: Vec<Graphic>)
        ensures
            shapes@ == self.gizmos(center),
    {
        let r: i32 = self.radius.max;
        let (cx, cy) = center.get();
        let x1: i32 = plus(cx, times(cosine(self.angle.min), r));
        let y1: i32 = plus(cy, times(sine(self.angle.min), r));
        let x2: i32 = plus(cx, times(cosine(self.angle.max), r));
        let y2: i32 = plus(cy, times(sine(self.angle.max), r));
        let width: i32 = minus(r, self.radius.min);
        let r_range: i32 = if width > ONE {
            width
        } else {
            ONE
        };
        let mut shapes: Vec<Graphic> = Vec::new();
        shapes.push(Graphic::ring(center, self.dist.min, ONE, GameColor::orange()));
        shapes.push(Graphic::ring(center, self.dist.max, ONE, GameColor::orange()));
        shapes.push(Graphic::ring(center, minus(r, r_range / 2), r_range, GameColor::blue()));
        shapes.push(Graphic::line(cx, cy, x1, y1, GameColor::green()));
        shapes.push(Graphic::line(cx, cy, x2, y2, GameColor::green()));
        shapes.push(Graphic::line(x1, y1, x2, y2, GameColor::green()));
        assert(shapes@ =~= self.gizmos(center));
        shapes
    }

    pub fn is_valid(&self) -> (r: bool)
        ensures
            r == self.valid(),
    {
        self.stage_time.max != 0 && self.stage_time.min <= self.stage_time.max
            && self.circles_per_stage.min <= self.circles_per_stage.max && self.angle.min
            <= self.angle.max && self.dist.min <= self.dist.max && self.radius.min
            <= self.radius.max && self.delay.min <= self.delay.max
    }

    pub fn with_velocity(self, v: Velocity) -> (s: Self)
        ensures
            s == (ExplosionStage { velocity: v, ..self }),
    {
        let mut s = self;
        s.velocity = v;
        s
    }

    /// Sets the range of the spawn angle.
    pub fn with_angle(self, min: i32, max: i32) -> (s: Self)
        ensures
            s == (ExplosionStage { angle: MinMax { min, max }, ..self }),
    {
        let mut s = self;
        s.angle = MinMax::new(min, max);
        s
    }

    /// Sets the range of the spawn distance.
    pub fn with_dist(self, min: i32, max: i32) -> (s: Self)
        ensures
            s == (ExplosionStage { dist: MinMax { min, max }, ..self }),
    {
        let mut s = self;
        s.dist = MinMax::new(min, max);
        s
    }

    /// Sets the range of the particle radius.
    pub fn with_radius(self, min: i32, max: i32) -> (s: Self)
        ensures
            s == (ExplosionStage { radius: MinMax { min, max }, ..self }),
    {
        let mut s = self;
        s.radius = MinMax::new(min, max);
        s
    }

    /// Sets the range of the activation delay.
    pub fn with_delay(self, min: i32, max: i32) -> (s: Self)
        ensures
            s == (ExplosionStage { delay: MinMax { min, max }, ..self }),
    {
        let mut s = self;
        s.delay = MinMax::new(min, max);
        s
    }

    /// Sets the range of the number of particles.
    pub fn with_count(self, min: u8, max: u8) -> (s: Self)
        ensures
            s == (ExplosionStage { circles_per_stage: MinMax { min, max }, ..self }),
    {
        let mut s = self;
        s.circles_per_stage = MinMax::new(min, max);
        s
    }

    /// Sets the range of the particle lifetime.
    pub fn with_age(self, min: i32, max: i32) -> (s: Self)
        ensures
            s == (ExplosionStage { stage_time: MinMax { min, max }, ..self }),
    {
        let mut s = self;
        s.stage_time = MinMax::new(min, max);
        s
    }

    pub fn with_color(self, color: GameColor) -> (s: Self)
        ensures
            s == (ExplosionStage { color, ..self }),
    {
        let mut s = self;
        s.color = color;
        s
    }

    /// The particle for five given draws.
    pub fn particle_with(&self, center: CenterPt, draws: ParticleDraws) -> (p: CircleParticle)
        requires
            self.valid(),
        ensures
            p == self.spawned(center, draws),
    {
        let t: i32 = self.stage_time.rand_with(draws.ttl);
        let d: i32 = self.delay.rand_with(draws.delay);
        let (cx, cy) = center.get();
        let (vx, vy) = self.velocity.get();
        let angle: i32 = self.angle.rand_with(draws.angle);
        let r: i32 = self.dist.rand_with(draws.dist);
        let ox: i32 = times(cosine(angle), r);
        let oy: i32 = times(sine(angle), r);
        CircleParticle::new(
            CenterPt::new(plus(cx, ox), plus(cy, oy)),
            self.radius.rand_with(draws.radius),
            self.color,
        ).with_ttl(t).with_delay(d).with_velocity(Velocity::new(plus(vx, ox), plus(vy, oy)))
    }

    /// Generates the stage's particles around `center`: first the count is
    /// sampled, then each particle is made of five fresh draws.
    pub fn generate_circle_particles(&self, center: CenterPt) -> (circles: Vec<CircleParticle>)
        requires
            self.valid(),
        ensures
            self.may_generate(center, circles@),
            self.circles_per_stage.min <= circles@.len() <= self.circles_per_stage.max,
            self.circles_per_stage.min == self.circles_per_stage.max ==> circles@.len()
                == self.circles_per_stage.min,
    {
        let desired_circles: u8 = self.circles_per_stage.rand_int();
        let mut circles: Vec<CircleParticle> = Vec::new();
        let mut i: u8 = 0;
        while i < desired_circles
            invariant
                self.valid(),
                i <= desired_circles,
                circles@.len() == i,
                forall|j: int| 0 <= j < circles@.len() ==> self.spawns(center, #[trigger] circles@[j]),
            decreases desired_circles - i,
        {
            let draws = ParticleDraws {
                ttl: random_u64(),
                delay: random_u64(),
                angle: random_u64(),
                dist: random_u64(),
                radius: random_u64(),
            };
            let cp = self.particle_with(center, draws);
            circles.push(cp);
            i += 1;
        }
        circles
    }
}

/// Every particle of a batch was sampled from the stage's ranges: its
/// radius, delay and lifetime lie in them, it lies at the offset for an
/// angle and a distance of the stage's ranges, its colour is the stage's,
/// and it starts with the identity acceleration.
pub proof fn lemma_batch_within_ranges(
    stage: ExplosionStage,
    center: CenterPt,
    batch: Seq<CircleParticle>,
)
    requires
        stage.valid(),
        stage.may_generate(center, batch),
    ensures
        stage.circles_per_stage.min <= batch.len() <= stage.circles_per_stage.max,
        stage.circles_per_stage.min < stage.circles_per_stage.max ==> batch.len()
            < stage.circles_per_stage.max,
        stage.circles_per_stage.min == stage.circles_per_stage.max ==> batch.len()
            == stage.circles_per_stage.min,
        forall|i: int|
            0 <= i < batch.len() ==> {
                let p = #[trigger] batch[i];
                &&& stage.radius.min <= p.radius <= stage.radius.max
                &&& stage.delay.min <= p.delay <= stage.delay.max
                &&& stage.stage_time.min <= p.alive_timer.ttl <= stage.stage_time.max
                &&& p.color == stage.color
                &&& p.accel == Accel(ONE, ONE)
                &&& exists|angle: i32, dist: i32|
                    stage.angle.min <= angle <= stage.angle.max && stage.dist.min <= dist
                        <= stage.dist.max && #[trigger] stage.places(center, p, angle, dist)
            },
{
    assert forall|i: int| 0 <= i < batch.len() implies {
        let p = #[trigger] batch[i];
        &&& stage.radius.min <= p.radius <= stage.radius.max
        &&& stage.delay.min <= p.delay <= stage.delay.max
        &&& stage.stage_time.min <= p.alive_timer.ttl <= stage.stage_time.max
        &&& p.color == stage.color
        &&& p.accel == Accel(ONE, ONE)
        &&& exists|angle: i32, dist: i32|
            stage.angle.min <= angle <= stage.angle.max && stage.dist.min <= dist
                <= stage.dist.max && #[trigger] stage.places(center, p, angle, dist)
    } by {
        assert(stage.spawns(center, batch[i]));
        let draws = choose|draws: ParticleDraws|
            batch[i] == #[trigger] stage.spawned(center, draws);
        crate::minmax::lemma_scalar_within(stage.radius, draws.radius);
        crate::minmax::lemma_scalar_within(stage.delay, draws.delay);
        crate::minmax::lemma_scalar_within(stage.stage_time, draws.ttl);
        crate::minmax::lemma_scalar_within(stage.angle, draws.angle);
        crate::minmax::lemma_scalar_within(stage.dist, draws.dist);
        assert(stage.places(
            center,
            batch[i],
            stage.angle.pick(draws.angle),
            stage.dist.pick(draws.dist),
        ));
    }
}

/// No offset reaches further along either axis than the distance it was
/// made for.
pub proof fn lemma_offset_within_distance(angle: i32, dist: i32)
    requires
        dist >= 0,
    ensures
        -dist <= ExplosionStage::offset_at(angle, dist).0 <= dist,
        -dist <= ExplosionStage::offset_at(angle, dist).1 <= dist,
{
    crate::fixed::lemma_wave_bounds(angle as int);
    crate::fixed::lemma_wave_bounds(angle + crate::fixed::QUARTER_TURN);
    crate::fixed::lemma_times_shrinks(cosine(angle), dist);
    crate::fixed::lemma_times_shrinks(sine(angle), dist);
}

/// A stage whose count range is the single count 0 generates nothing.
pub proof fn lemma_zero_count_generates_nothing(
    stage: ExplosionStage,
    center: CenterPt,
    batch: Seq<CircleParticle>,
)
    requires
        stage.valid(),
        stage.circles_per_stage.min == 0,
        stage.circles_per_stage.max == 0,
        stage.may_generate(center, batch),
    ensures
        batch.len() == 0,
{
}

/// Where distance and angle are single values, chance has no say in where a
/// particle spawns: all spawn at the origin plus the one offset. For the
/// angle 0 that offset is the distance along the first axis.
pub proof fn lemma_fixed_offset(stage: ExplosionStage, center: CenterPt, batch: Seq<CircleParticle>)
    requires
        stage.valid(),
        stage.dist.min == stage.dist.max,
        stage.angle.min == stage.angle.max,
        stage.may_generate(center, batch),
    ensures
        forall|i: int|
            0 <= i < batch.len() ==> (#[trigger] batch[i]).center == CenterPt(
                plus(center.0, ExplosionStage::offset_at(stage.angle.min, stage.dist.min).0),
                plus(center.1, ExplosionStage::offset_at(stage.angle.min, stage.dist.min).1),
            ),
        stage.angle.min == 0 ==> forall|i: int|
            0 <= i < batch.len() ==> (#[trigger] batch[i]).center == CenterPt(
                plus(center.0, stage.dist.min),
                center.1,
            ),
{
    assert forall|i: int| 0 <= i < batch.len() implies (#[trigger] batch[i]).center == CenterPt(
        plus(center.0, ExplosionStage::offset_at(stage.angle.min, stage.dist.min).0),
        plus(center.1, ExplosionStage::offset_at(stage.angle.min, stage.dist.min).1),
    ) by {
        assert(stage.spawns(center, batch[i]));
    }
    if stage.angle.min == 0 {
        crate::fixed::lemma_cardinal_directions();
        crate::fixed::lemma_times_one(stage.dist.min);
    }
}

} // verus!
