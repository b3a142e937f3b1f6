//! The timed disc that explosions are made of.

use crate::alive::IsAlive;
use crate::color::GameColor;
use crate::drawable::{Circle, Drawable, Graphic, HasCenter, HasVelocity};
use crate::timers::AliveTimer;
use crate::updateable::Updateable;
use crate::{Accel, CenterPt, Velocity};
use vstd::prelude::*;

verus! {

/// The time to live of a particle that was given none, in seconds: such a
/// particle still decays.
pub const DEFAULT_TTL: i32 = 5000;

/// A disc that waits for `delay` seconds, then moves and is drawn until its
/// timer runs out.
#[derive(Debug, Clone, Copy, PartialEq, Eq, Structural)]
pub struct CircleParticle {
    pub center: CenterPt,
    pub radius: i32,
    pub color: GameColor,
    pub velocity: Velocity,
    pub accel: Accel,
    /// Seconds left before the particle becomes active.
    pub delay: i32,
    /// Counts down once the particle is active.
    pub alive_timer: AliveTimer,
}

impl CircleParticle {
    /// A particle at rest that is active at once and lives for
    /// [`DEFAULT_TTL`].
    pub fn new(center: CenterPt, radius: i32, color: GameColor) -> (p: Self)
        ensures
            p == (CircleParticle {
                center,
                radius,
                color,
                velocity: Velocity(0, 0),
                accel: Accel(crate::fixed::ONE, crate::fixed::ONE),
                delay: 0,
                alive_timer: AliveTimer { ttl: DEFAULT_TTL },
            }),
    {
        Self {
            center,
            radius,
            color,
            velocity: Velocity::new(0, 0),
            accel: Accel::default(),
            delay: 0,
            alive_timer: AliveTimer::new(DEFAULT_TTL),
        }
    }

    pub fn with_velocity(self, v: Velocity) -> (p: Self)
        ensures
            p == (CircleParticle { velocity: v, ..self }),
    {
        let mut p = self;
        p.velocity = v;
        p
    }

    pub fn with_accel(self, v: Accel) -> (p: Self)
        ensures
            p == (CircleParticle { accel: v, ..self }),
    {
        let mut p = self;
        p.accel = v;
        p
    }

    pub fn with_delay(self, v: i32) -> (p: Self)
        ensures
            p == (CircleParticle { delay: v, ..self }),
    {
        let mut p = self;
        p.delay = v;
        p
    }

    pub fn with_ttl(self, v: i32) -> (p: Self)
        ensures
            p == (CircleParticle { alive_timer: AliveTimer { ttl: v }, ..self }),
    {
        let mut p = self;
        p.alive_timer = AliveTimer::new(v);
        p
    }

    /// Whether the particle is to be drawn: it is active and has time left.
    pub open spec fn visible(self) -> bool {
        self.alive_timer.ttl > 0 && self.delay <= 0
    }

    /// The disc that shows the particle.
    pub open spec fn disc(self) -> Graphic {
        Graphic::Circle(Circle { center: self.center, radius: self.radius, color: self.color })
    }

    /// The particle after `delta_time` seconds. While it waits, only the
    /// delay counts down, and what is left of the step when the delay ends
    /// is not carried over into motion. Once active, the timer counts down
    /// and the particle moves by velocity times acceleration times the
    /// step. A finished particle stays as it is.
    pub open spec fn updated(self, delta_time: i32) -> Self {
        if self.delay > 0 {
            CircleParticle { delay: crate::fixed::minus(self.delay, delta_time), ..self }
        } else if self.alive_timer.ttl > 0 {
            CircleParticle {
                alive_timer: self.alive_timer.updated(delta_time),
                center: self.center.moved(self.velocity.under(self.accel).scaled(delta_time)),
                ..self
            }
        } else {
            self
        }
    }

    pub fn is_visible(&self) -> (r: bool)
        ensures
            r == self.visible(),
    {
        self.alive_timer.ttl > 0 && self.delay <= 0
    }
}

impl Drawable for CircleParticle {
    /// A particle shows as its disc, and not at all unless it is visible.
    open spec fn shapes(&self) -> Seq<Graphic> {
        if self.visible() {
            seq![self.disc()]
        } else {
            Seq::empty()
        }
    }

    fn draw(&self) -> (r: Vec<Graphic>)
        ensures
            self.visible() ==> r@ == seq![self.disc()],
            !self.visible() ==> r@ == Seq::<Graphic>::empty(),
    {
        let mut shapes: Vec<Graphic> = Vec::new();
        if self.is_visible() {
            shapes.push(Graphic::circle(self.center, self.radius, self.color));
        }
        assert(shapes@ =~= self.shapes());
        shapes
    }
}

impl HasCenter for CircleParticle {
    open spec fn center_of(&self) -> CenterPt {
        self.center
    }

    fn center(&self) -> (c: CenterPt)
        ensures
            c == self.center,
    {
        self.center
    }
}

impl HasVelocity for CircleParticle {
    open spec fn velocity_of(&self) -> Velocity {
        self.velocity
    }

    fn velocity(&self) -> (v: Velocity)
        ensures
            v == self.velocity,
    {
        self.velocity
    }
}

impl IsAlive for CircleParticle {
    /// A particle is alive while it has time left and its delay has not
    /// been overshot.
    open spec fn alive(&self) -> bool {
        self.delay >= 0 && self.alive_timer.ttl > 0
    }

    fn is_alive(&self) -> (r: bool)
        ensures
            r == (self.delay >= 0 && self.alive_timer.ttl > 0),
    {
        self.delay >= 0 && self.alive_timer.ttl > 0
    }
}

impl Updateable for CircleParticle {
    open spec fn advances_to(&self, delta_time: i32, after: &Self) -> bool {
        *after == self.updated(delta_time)
    }

    fn update(&mut self, delta_time: i32)
        ensures
            *final(self) == old(self).updated(delta_time),
    {
        if self.delay > 0 {
            self.delay = crate::fixed::minus(self.delay, delta_time);
        } else if self.alive_timer.is_alive() {
            self.alive_timer.update(delta_time);
            let vel = self.velocity * self.accel * delta_time;
            self.center = self.center + vel;
        }
    }
}

/// The time that a run of steps takes.
pub open spec fn total_time(steps: Seq<i32>) -> int
    decreases steps.len(),
{
    if steps.len() == 0 {
        0
    } else {
        total_time(steps.drop_last()) + steps.last()
    }
}

/// Whether time only moves forward: no step is negative.
pub open spec fn forward(steps: Seq<i32>) -> bool {
    forall|i: int| 0 <= i < steps.len() ==> #[trigger] steps[i] >= 0
}

impl CircleParticle {
    /// The particle after a run of steps, taken in order.
    pub open spec fn after_steps(self, steps: Seq<i32>) -> CircleParticle
        decreases steps.len(),
    {
        if steps.len() == 0 {
            self
        } else {
            self.after_steps(steps.drop_last()).updated(steps.last())
        }
    }
}

/// A particle that is not alive never comes back, whatever the step.
pub proof fn lemma_dead_particle_stays_dead(p: CircleParticle, delta_time: i32)
    requires
        !p.alive(),
    ensures
        !p.updated(delta_time).alive(),
{
}

/// A particle whose delay is exactly one step long does not move during that
/// step; it moves during the next one.
pub proof fn lemma_no_motion_while_delayed(p: CircleParticle, delta_time: i32)
    requires
        p.delay > 0,
    ensures
        p.updated(delta_time).center == p.center,
        p.updated(delta_time).alive_timer == p.alive_timer,
        p.delay == delta_time && p.alive() ==> p.updated(delta_time).visible(),
{
}

/// Where a live particle stands after a run of forward steps: it has ended;
/// or it still waits, and the steps have come off its delay; or its delay
/// ended exactly, and what the steps took beyond the delay has come off its
/// time to live.
proof fn lemma_after_steps(p: CircleParticle, steps: Seq<i32>)
    requires
        forward(steps),
        p.alive(),
    ensures
        total_time(steps) >= 0,
        ({
            let q = p.after_steps(steps);
            let spent = total_time(steps);
            ||| !q.alive()
            ||| q.delay > 0 && q.delay == p.delay - spent && q.alive_timer == p.alive_timer
            ||| q.delay == 0 && spent >= p.delay && q.alive_timer.ttl == p.alive_timer.ttl - (spent
                - p.delay)
        }),
    decreases steps.len(),
{
    if steps.len() > 0 {
        let front = steps.drop_last();
        assert forall|i: int| 0 <= i < front.len() implies #[trigger] front[i] >= 0 by {
            assert(front[i] == steps[i]);
        }
        lemma_after_steps(p, front);
        assert(steps.last() == steps[steps.len() - 1]);
        let before = p.after_steps(front);
        if !before.alive() {
            lemma_dead_particle_stays_dead(before, steps.last());
        }
    }
}

/// A particle has ended once forward steps have taken as long as its delay
/// and its time to live together.
pub proof fn lemma_particle_spent(p: CircleParticle, steps: Seq<i32>)
    requires
        forward(steps),
        total_time(steps) >= p.delay + p.alive_timer.ttl,
    ensures
        !p.after_steps(steps).alive(),
{
    if p.alive() {
        lemma_after_steps(p, steps);
    } else {
        lemma_dead_after_steps(p, steps);
    }
}

/// A particle that is not alive is not alive after any run of steps.
pub proof fn lemma_dead_after_steps(p: CircleParticle, steps: Seq<i32>)
    requires
        !p.alive(),
    ensures
        !p.after_steps(steps).alive(),
    decreases steps.len(),
{
    if steps.len() > 0 {
        lemma_dead_after_steps(p, steps.drop_last());
        lemma_dead_particle_stays_dead(p.after_steps(steps.drop_last()), steps.last());
    }
}

} // verus!
