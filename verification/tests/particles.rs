use cowshmup::alive::IsAlive;
use cowshmup::color::GameColor;
use cowshmup::drawable::{Circle, Drawable, Graphic, HasCenter, HasVelocity};
use cowshmup::particle::circle::DEFAULT_TTL;
use cowshmup::particle::{AliveUpdatable, CircleParticle, Particle};
use cowshmup::timers::AliveTimer;
use cowshmup::updateable::{EmptyUpdatable, Updateable};
use cowshmup::{Accel, CenterPt, Velocity};

fn red() -> GameColor {
    GameColor::new(1000, 0, 0, 1000)
}

#[test]
fn new_particle_is_at_rest_active_and_decays() {
    let p = CircleParticle::new(CenterPt(100, 200), 3000, red());
    assert_eq!(p.center, CenterPt(100, 200));
    assert_eq!(p.radius, 3000);
    assert_eq!(p.color, red());
    assert_eq!(p.velocity, Velocity(0, 0));
    assert_eq!(p.accel, Accel(1000, 1000));
    assert_eq!(p.delay, 0);
    assert_eq!(p.alive_timer.ttl, 5000);
    assert_eq!(DEFAULT_TTL, 5000);
    assert!(p.is_alive());
    assert!(p.is_visible());
}

#[test]
fn setters_change_one_field_each() {
    let base = CircleParticle::new(CenterPt(0, 0), 1000, red());
    let p = base.with_velocity(Velocity(1, 2));
    assert_eq!(p, CircleParticle { velocity: Velocity(1, 2), ..base });
    let p = base.with_accel(Accel(3, 4));
    assert_eq!(p, CircleParticle { accel: Accel(3, 4), ..base });
    let p = base.with_delay(250);
    assert_eq!(p, CircleParticle { delay: 250, ..base });
    let p = base.with_ttl(750);
    assert_eq!(p, CircleParticle { alive_timer: AliveTimer { ttl: 750 }, ..base });
}

#[test]
fn particle_lives_until_its_time_is_used_up() {
    let mut p = CircleParticle::new(CenterPt(0, 0), 1000, red()).with_ttl(1000);
    p.update(500);
    assert_eq!(p.alive_timer.ttl, 500);
    assert!(p.is_alive());
    p.update(600);
    assert_eq!(p.alive_timer.ttl, -100);
    assert!(!p.is_alive());
    assert!(!p.is_visible());
}

#[test]
fn particle_moves_by_velocity_times_acceleration_times_step() {
    let mut p = CircleParticle::new(CenterPt(10_000, 20_000), 1000, red())
        .with_velocity(Velocity(4000, -2000))
        .with_accel(Accel(500, 2000));
    p.update(250);
    // (4 * 0.5 * 0.25, -2 * 2 * 0.25) = (0.5, -1)
    assert_eq!(p.center, CenterPt(10_500, 19_000));
    assert_eq!(p.alive_timer.ttl, 4750);
    assert_eq!(p.velocity, Velocity(4000, -2000));
}

#[test]
fn delayed_particle_waits_without_moving() {
    let mut p = CircleParticle::new(CenterPt(0, 0), 1000, red())
        .with_velocity(Velocity(1000, 1000))
        .with_ttl(2000)
        .with_delay(300);
    assert!(p.is_alive());
    assert!(!p.is_visible());
    p.update(100);
    assert_eq!(p.delay, 200);
    assert_eq!(p.center, CenterPt(0, 0));
    assert_eq!(p.alive_timer.ttl, 2000);
    assert!(!p.is_visible());
}

#[test]
fn particle_delayed_by_one_step_moves_only_from_the_next_step() {
    let mut p = CircleParticle::new(CenterPt(0, 0), 1000, red())
        .with_velocity(Velocity(2000, 0))
        .with_ttl(2000)
        .with_delay(500);
    p.update(500);
    assert_eq!(p.delay, 0);
    assert_eq!(p.center, CenterPt(0, 0));
    assert_eq!(p.alive_timer.ttl, 2000);
    assert!(p.is_alive());
    assert!(p.is_visible());
    p.update(500);
    assert_eq!(p.center, CenterPt(1000, 0));
    assert_eq!(p.alive_timer.ttl, 1500);
}

#[test]
fn particle_whose_delay_is_overshot_is_not_alive() {
    let mut p = CircleParticle::new(CenterPt(0, 0), 1000, red()).with_delay(300);
    p.update(500);
    assert_eq!(p.delay, -200);
    assert!(!p.is_alive());
    assert!(p.is_visible());
}

#[test]
fn dead_particle_stays_dead() {
    let mut p = CircleParticle::new(CenterPt(5, 5), 1000, red())
        .with_velocity(Velocity(1000, 1000))
        .with_ttl(0);
    assert!(!p.is_alive());
    for dt in [0, 16, 1000, -1000, i32::MAX, i32::MIN] {
        p.update(dt);
        assert!(!p.is_alive());
        assert_eq!(p.center, CenterPt(5, 5));
    }
}

#[test]
fn particle_draws_its_disc_only_while_visible() {
    let p = CircleParticle::new(CenterPt(1, 2), 3000, red());
    assert_eq!(
        p.draw(),
        vec![Graphic::Circle(Circle { center: CenterPt(1, 2), radius: 3000, color: red() })]
    );
    assert!(p.with_delay(10).draw().is_empty());
    assert!(p.with_ttl(0).draw().is_empty());
}

#[test]
fn particle_reports_centre_and_velocity() {
    let p = CircleParticle::new(CenterPt(1, 2), 3000, red()).with_velocity(Velocity(7, 8));
    assert_eq!(p.center(), CenterPt(1, 2));
    assert_eq!(p.velocity(), Velocity(7, 8));
}

#[test]
fn timer_counts_down_while_alive() {
    let mut t = AliveTimer::new(1000);
    assert!(t.is_alive());
    t.update(400);
    assert_eq!(t.ttl, 600);
    t.update(600);
    assert_eq!(t.ttl, 0);
    assert!(!t.is_alive());
    t.update(600);
    assert_eq!(t.ttl, 0);
    let mut long = AliveTimer::new(i32::MAX);
    long.update(i32::MIN);
    assert_eq!(long.ttl, i32::MAX);
}

#[test]
fn list_updates_every_element() {
    let mut timers = vec![AliveTimer::new(1000), AliveTimer::new(0), AliveTimer::new(300)];
    timers.update(300);
    assert_eq!(timers, vec![AliveTimer::new(700), AliveTimer::new(0), AliveTimer::new(0)]);
    let mut none: Vec<AliveTimer> = Vec::new();
    none.update(300);
    assert!(none.is_empty());
}

#[test]
fn empty_updatable_ignores_time() {
    let mut e = EmptyUpdatable;
    e.update(1000);
}

fn drain<T: AliveUpdatable>(mut value: T, step: i32) -> u32 {
    let mut steps = 0;
    while value.is_alive() && steps < 1000 {
        value.update(step);
        steps += 1;
    }
    steps
}

#[test]
fn alive_updatables_run_down() {
    assert_eq!(drain(AliveTimer::new(1000), 300), 4);
    assert_eq!(drain(CircleParticle::new(CenterPt(0, 0), 1, red()), 1000), 5);
}

fn last_frame<T: Particle>(mut value: T, step: i32) -> usize {
    let mut shapes = 0;
    let mut steps = 0;
    while value.is_alive() && steps < 1000 {
        shapes = value.draw().len();
        value.update(step);
        steps += 1;
    }
    shapes
}

#[test]
fn particles_show_until_they_end() {
    assert_eq!(last_frame(CircleParticle::new(CenterPt(0, 0), 1000, red()).with_ttl(100), 30), 1);
    assert_eq!(last_frame(CircleParticle::new(CenterPt(0, 0), 1000, red()).with_ttl(0), 30), 0);
}
