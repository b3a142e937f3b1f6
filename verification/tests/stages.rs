use cowshmup::alive::IsAlive;
use cowshmup::color::GameColor;
use cowshmup::drawable::{Graphic, Line, Ring};
use cowshmup::minmax::MinMax;
use cowshmup::particle::{
    CircleParticle, Explosion, ExplosionBuilder, ExplosionStage, InvalidStageError,
    ParticleDraws, TWO_PI,
};
use cowshmup::timers::AliveTimer;
use cowshmup::{Accel, CenterPt, Velocity};

fn fixed_stage(count: u8) -> ExplosionStage {
    ExplosionStage::default()
        .with_count(count, count)
        .with_age(2000, 2000)
        .with_delay(0, 0)
        .with_dist(0, 0)
        .with_angle(0, 0)
        .with_radius(1000, 1000)
}

#[test]
fn default_stage() {
    let s = ExplosionStage::default();
    assert_eq!(s.velocity, Velocity(0, 0));
    assert_eq!((s.stage_time.min, s.stage_time.max), (1000, 5000));
    assert_eq!((s.circles_per_stage.min, s.circles_per_stage.max), (1, 1));
    assert_eq!((s.angle.min, s.angle.max), (0, 6283));
    assert_eq!(TWO_PI, 6283);
    assert_eq!((s.dist.min, s.dist.max), (0, 0));
    assert_eq!((s.radius.min, s.radius.max), (1000, 3000));
    assert_eq!((s.delay.min, s.delay.max), (0, 500));
    assert_eq!(s.color, GameColor::new(990, 980, 0, 1000));
    assert!(s.is_valid());
}

#[test]
fn stage_setters_replace_one_range_each() {
    let s = ExplosionStage::default()
        .with_velocity(Velocity(1, 2))
        .with_angle(3, 4)
        .with_dist(5, 6)
        .with_radius(7, 8)
        .with_delay(9, 10)
        .with_count(11, 12)
        .with_age(13, 14)
        .with_color(GameColor::new(15, 16, 17, 18));
    assert_eq!(s.velocity, Velocity(1, 2));
    assert_eq!((s.angle.min, s.angle.max), (3, 4));
    assert_eq!((s.dist.min, s.dist.max), (5, 6));
    assert_eq!((s.radius.min, s.radius.max), (7, 8));
    assert_eq!((s.delay.min, s.delay.max), (9, 10));
    assert_eq!((s.circles_per_stage.min, s.circles_per_stage.max), (11, 12));
    assert_eq!((s.stage_time.min, s.stage_time.max), (13, 14));
    assert_eq!(s.color, GameColor::new(15, 16, 17, 18));
}

#[test]
fn stage_validity() {
    assert!(fixed_stage(1).is_valid());
    assert!(!ExplosionStage::default().with_age(0, 0).is_valid());
    assert!(!ExplosionStage::default().with_age(-1000, 0).is_valid());
    assert!(!ExplosionStage::default().with_age(2000, 1000).is_valid());
    assert!(!ExplosionStage::default().with_count(2, 1).is_valid());
    assert!(!ExplosionStage::default().with_angle(2, 1).is_valid());
    assert!(!ExplosionStage::default().with_dist(2, 1).is_valid());
    assert!(!ExplosionStage::default().with_radius(2, 1).is_valid());
    assert!(!ExplosionStage::default().with_delay(2, 1).is_valid());
}

#[test]
fn particle_is_made_of_its_five_draws() {
    let stage = ExplosionStage::default()
        .with_velocity(Velocity(1000, -500))
        .with_age(1000, 3000)
        .with_angle(0, 6283)
        .with_dist(5000, 15_000)
        .with_radius(1000, 3000)
        .with_delay(0, 500);
    let draws = ParticleDraws { ttl: 250, delay: 1001, angle: 125, dist: 500, radius: 0 };
    let p = stage.particle_with(CenterPt(100_000, 100_000), draws);
    assert_eq!(
        p,
        CircleParticle {
            center: CenterPt(107_060, 107_050),
            radius: 1000,
            color: GameColor::new(990, 980, 0, 1000),
            velocity: Velocity(8060, 6550),
            accel: Accel(1000, 1000),
            delay: 0,
            alive_timer: AliveTimer { ttl: 1500 },
        }
    );
}

#[test]
fn zero_count_generates_nothing() {
    let stage = ExplosionStage::default().with_count(0, 0);
    for _ in 0..20 {
        assert!(stage.generate_circle_particles(CenterPt(100_000, 100_000)).is_empty());
    }
}

#[test]
fn fixed_distance_and_angle_spawn_at_one_point() {
    let stage = ExplosionStage::default()
        .with_count(8, 8)
        .with_dist(10_000, 10_000)
        .with_angle(0, 0);
    let particles = stage.generate_circle_particles(CenterPt(100_000, 50_000));
    assert_eq!(particles.len(), 8);
    for p in particles.iter() {
        assert_eq!(p.center, CenterPt(110_000, 50_000));
        assert_eq!(p.velocity, Velocity(10_000, 0));
    }
}

#[test]
fn generated_particles_are_sampled_from_the_ranges() {
    let stage = ExplosionStage::default()
        .with_count(3, 9)
        .with_age(1000, 3000)
        .with_dist(5000, 15_000)
        .with_radius(1000, 3000)
        .with_delay(0, 500)
        .with_color(GameColor::new(1, 2, 3, 4));
    for _ in 0..50 {
        let particles = stage.generate_circle_particles(CenterPt(0, 0));
        assert!(particles.len() >= 3 && particles.len() < 9);
        for p in particles.iter() {
            assert!((1000..=3000).contains(&p.alive_timer.ttl));
            assert!((0..=500).contains(&p.delay));
            assert!((1000..=3000).contains(&p.radius));
            assert_eq!(p.color, GameColor::new(1, 2, 3, 4));
            assert_eq!(p.accel, Accel(1000, 1000));
            let (x, y) = (p.center.0 as f64, p.center.1 as f64);
            let dist = (x * x + y * y).sqrt();
            assert!(dist > 4950.0 && dist < 15_050.0, "distance {dist}");
            assert_eq!(p.velocity, Velocity(p.center.0, p.center.1));
        }
    }
}

#[test]
fn empty_builder_builds_nothing() {
    assert!(Explosion::begin().build(CenterPt(0, 0)).is_none());
    assert!(ExplosionBuilder::default().build(CenterPt(0, 0)).is_none());
    assert!(Explosion::begin().stages().is_empty());
    assert!(Explosion::begin().is_valid());
}

#[test]
fn builder_counts_the_particles_of_all_stages() {
    let builder = Explosion::begin()
        .with_circle_stage(fixed_stage(5))
        .unwrap()
        .with_circle_stage(fixed_stage(0))
        .unwrap()
        .with_circle_stage(fixed_stage(3))
        .unwrap();
    assert!(builder.is_valid());
    let explosion = builder.build(CenterPt(0, 0)).unwrap();
    assert_eq!(explosion.particles().len(), 8);
}

#[test]
fn builder_keeps_the_stages_in_order() {
    let builder = Explosion::begin()
        .with_circle_stage(fixed_stage(1).with_dist(1000, 1000))
        .unwrap()
        .with_circle_stage(fixed_stage(2).with_dist(2000, 2000))
        .unwrap();
    let explosion = builder.build(CenterPt(0, 0)).unwrap();
    let centres: Vec<CenterPt> = explosion.particles().iter().map(|p| p.center).collect();
    assert_eq!(centres, vec![CenterPt(1000, 0), CenterPt(2000, 0), CenterPt(2000, 0)]);
}

#[test]
fn stage_with_zero_lifetime_is_rejected() {
    let r = Explosion::begin().with_circle_stage(ExplosionStage::default().with_age(0, 0));
    assert_eq!(r.err(), Some(InvalidStageError::ZeroStageTime));
    let r = Explosion::begin().with_circle_stage(ExplosionStage::default().with_age(-500, 0));
    assert_eq!(r.err(), Some(InvalidStageError::ZeroStageTime));
    let r = Explosion::begin().with_circle_stage(ExplosionStage::default().with_age(0, 1));
    assert_eq!(r.unwrap().stages().len(), 1);
}

#[test]
fn with_stages_replaces_the_stages() {
    let builder = Explosion::begin()
        .with_circle_stage(fixed_stage(1))
        .unwrap()
        .with_stages(vec![fixed_stage(2), fixed_stage(3), fixed_stage(4)]);
    let counts: Vec<u8> = builder.stages().iter().map(|s| s.circles_per_stage.min).collect();
    assert_eq!(counts, vec![2, 3, 4]);
    let unchecked = Explosion::begin().with_stages(vec![ExplosionStage::default().with_age(0, 0)]);
    assert!(!unchecked.is_valid());
}

#[test]
fn stages_can_be_added_replaced_and_removed() {
    let mut builder = Explosion::begin();
    builder.add_stage();
    assert_eq!(builder.stages().len(), 1);
    assert_eq!(builder.stages()[0].radius.max, 3000);
    builder.set_stage(0, fixed_stage(4));
    builder.add_stage();
    assert_eq!(builder.stages().len(), 2);
    assert_eq!(builder.stages()[1].circles_per_stage.max, 4);
    builder.set_stage(1, fixed_stage(6));
    builder.add_stage();
    builder.remove_stage(0);
    let counts: Vec<u8> = builder.stages().iter().map(|s| s.circles_per_stage.min).collect();
    assert_eq!(counts, vec![6, 6]);
}

#[test]
fn max_loop_time_is_the_longest_delay_plus_lifetime() {
    let builder = Explosion::begin()
        .with_circle_stage(ExplosionStage::default().with_delay(0, 2000).with_age(1000, 3000))
        .unwrap()
        .with_circle_stage(ExplosionStage::default().with_delay(0, 1000).with_age(0, 5000))
        .unwrap();
    assert_eq!(builder.max_loop_time(), 6000);
    assert_eq!(Explosion::begin().max_loop_time(), 0);
    let negative = Explosion::begin()
        .with_stages(vec![ExplosionStage::default().with_delay(-9000, -8000).with_age(1000, 2000)]);
    assert_eq!(negative.max_loop_time(), 0);
    let huge = Explosion::begin()
        .with_stages(vec![ExplosionStage::default().with_delay(0, i32::MAX).with_age(1, 5)]);
    assert_eq!(huge.max_loop_time(), i32::MAX);
}

#[test]
fn end_to_end() {
    let builder = Explosion::begin().with_circle_stage(fixed_stage(5)).unwrap();
    let mut explosion = builder.build(CenterPt(100_000, 100_000)).unwrap();
    assert_eq!(explosion.particles().len(), 5);
    for p in explosion.particles().iter() {
        assert_eq!(p.center, CenterPt(100_000, 100_000));
        assert_eq!(p.alive_timer.ttl, 2000);
        assert_eq!(p.delay, 0);
    }
    assert!(explosion.is_alive());
    cowshmup::updateable::Updateable::update(&mut explosion, 2100);
    assert!(!explosion.is_alive());
    assert!(explosion.particles().is_empty());
}

#[test]
fn stage_gizmos_show_the_ranges() {
    let orange = GameColor::new(1000, 630, 0, 1000);
    let blue = GameColor::new(0, 470, 950, 1000);
    let green = GameColor::new(0, 890, 190, 1000);
    let center = CenterPt(0, 0);
    let shapes = ExplosionStage::default().with_dist(4000, 9000).draw_gizmos_at(center);
    assert_eq!(
        shapes,
        vec![
            Graphic::Ring(Ring { center, radius: 4000, thickness: 1000, color: orange }),
            Graphic::Ring(Ring { center, radius: 9000, thickness: 1000, color: orange }),
            Graphic::Ring(Ring { center, radius: 2000, thickness: 2000, color: blue }),
            Graphic::Line(Line { x1: 0, y1: 0, x2: 3000, y2: 0, color: green }),
            Graphic::Line(Line { x1: 0, y1: 0, x2: 2997, y2: -3, color: green }),
            Graphic::Line(Line { x1: 3000, y1: 0, x2: 2997, y2: -3, color: green }),
        ]
    );
    let narrow = ExplosionStage::default().with_radius(2500, 3000).draw_gizmos_at(center);
    assert_eq!(
        narrow[2],
        Graphic::Ring(Ring { center, radius: 2500, thickness: 1000, color: blue })
    );
}

#[test]
fn builder_gizmos_are_centred_on_each_stage() {
    let near = ExplosionStage::default().with_angle(0, 0).with_dist(0, 20_000);
    let far = ExplosionStage::default().with_angle(1571, 1571).with_dist(30_000, 50_000);
    let builder = Explosion::begin().with_stages(vec![near, far]);
    let shapes = builder.draw_gizmos_at(CenterPt(100_000, 100_000));
    assert_eq!(shapes.len(), 12);
    let mut expected = near.draw_gizmos_at(CenterPt(110_000, 100_000));
    expected.extend(far.draw_gizmos_at(CenterPt(100_000, 140_000)));
    assert_eq!(shapes, expected);
    assert!(Explosion::begin().draw_gizmos_at(CenterPt(0, 0)).is_empty());
}

#[test]
fn count_range_is_kept_by_min_max() {
    let range: MinMax<u8> = ExplosionStage::default().with_count(2, 5).circles_per_stage;
    assert_eq!((range.min, range.max), (2, 5));
}

#[test]
fn same_seed_builds_the_same_explosion() {
    let builder = Explosion::begin().with_stages(vec![
        ExplosionStage::default().with_count(3, 9).with_dist(0, 50_000),
        ExplosionStage::default().with_count(1, 4).with_age(500, 2500),
    ]);
    for seed in [0u64, 1, 69420, u64::MAX] {
        macroquad::rand::srand(seed);
        let first = builder.clone().build(CenterPt(10, 20)).unwrap();
        macroquad::rand::srand(seed);
        let second = builder.clone().build(CenterPt(10, 20)).unwrap();
        assert_eq!(first.particles(), second.particles());
    }
    macroquad::rand::srand(1);
    let one = builder.clone().build(CenterPt(10, 20)).unwrap();
    macroquad::rand::srand(2);
    let other = builder.clone().build(CenterPt(10, 20)).unwrap();
    assert_ne!(one.particles(), other.particles());
}
