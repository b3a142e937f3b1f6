use cowshmup::minmax::MinMax;

#[test]
fn degenerate_scalar_range_samples_its_value() {
    let range = MinMax::new(2500, 2500);
    for draw in [0u64, 1, 17, u64::MAX] {
        assert_eq!(range.rand_with(draw), 2500);
    }
    for seed in [0u64, 1, 42, 69420, u64::MAX] {
        macroquad::rand::srand(seed);
        for _ in 0..20 {
            assert_eq!(range.rand(), 2500);
        }
    }
    assert_eq!(range.avg(), 2500);
}

#[test]
fn degenerate_count_range_samples_its_value() {
    let range: MinMax<u8> = MinMax::new(7, 7);
    for draw in [0u64, 1, 6, 7, 8, u64::MAX] {
        assert_eq!(range.rand_int_with(draw), 7);
    }
    for seed in [0u64, 1, 42, 69420, u64::MAX] {
        macroquad::rand::srand(seed);
        for _ in 0..20 {
            assert_eq!(range.rand_int(), 7);
        }
    }
}

#[test]
fn scalar_sample_is_min_plus_fraction_of_width() {
    let range = MinMax::new(-1000, 1000);
    assert_eq!(range.rand_with(0), -1000);
    assert_eq!(range.rand_with(5), -990);
    assert_eq!(range.rand_with(500), 0);
    assert_eq!(range.rand_with(1000), 1000);
    assert_eq!(range.rand_with(1001), -1000);
    assert_eq!(range.rand_with(2000), 998);
    // 2^64 - 1 leaves 15 when divided by 1001
    assert_eq!(range.rand_with(u64::MAX), -970);
    let narrow = MinMax::new(0, 500);
    assert_eq!(narrow.rand_with(501), 250);
    assert_eq!(narrow.rand_with(999), 499);
    assert_eq!(narrow.rand_with(1000), 500);
    let negative = MinMax::new(-3000, -1000);
    assert_eq!(negative.rand_with(250), -2500);
}

#[test]
fn scalar_sample_reaches_both_ends() {
    for (min, max) in [(0, 1), (-5, 5), (0, 6283), (i32::MIN + 1, 0), (0, i32::MAX), (-7, i32::MAX - 7)] {
        let range = MinMax::new(min, max);
        assert_eq!(range.rand_with(0), min);
        assert_eq!(range.rand_with(1000), max);
    }
}

#[test]
fn scalar_sample_handles_the_widest_range() {
    let range = MinMax::new(i32::MIN, i32::MAX);
    assert_eq!(range.rand_with(0), i32::MIN);
    assert_eq!(range.rand_with(500), -1_073_741_825);
    assert_eq!(range.rand_with(1000), -1);
    for draw in 0..3000u64 {
        let v = range.rand_with(draw);
        assert!(v <= -1);
    }
}

#[test]
fn random_scalar_samples_stay_inside_and_centre_on_the_midpoint() {
    let range = MinMax::new(0, 10_000);
    let draws = 10_000;
    let mut sum: i64 = 0;
    for _ in 0..draws {
        let v = range.rand();
        assert!((0..=10_000).contains(&v));
        sum += v as i64;
    }
    let mean = sum as f64 / draws as f64;
    let midpoint = range.avg() as f64;
    assert!((mean - midpoint).abs() < 300.0, "mean {mean} is far from {midpoint}");
}

#[test]
fn seeding_repeats_the_samples() {
    let range = MinMax::new(-1_000_000, 1_000_000);
    let counts: MinMax<u8> = MinMax::new(0, 200);
    macroquad::rand::srand(7);
    let first: Vec<i32> = (0..50).map(|_| range.rand()).collect();
    let first_counts: Vec<u8> = (0..50).map(|_| counts.rand_int()).collect();
    macroquad::rand::srand(7);
    let second: Vec<i32> = (0..50).map(|_| range.rand()).collect();
    let second_counts: Vec<u8> = (0..50).map(|_| counts.rand_int()).collect();
    assert_eq!(first, second);
    assert_eq!(first_counts, second_counts);
    macroquad::rand::srand(8);
    let third: Vec<i32> = (0..50).map(|_| range.rand()).collect();
    assert_ne!(first, third);
}

#[test]
fn random_samples_differ() {
    let range = MinMax::new(i32::MIN, i32::MAX);
    let first = range.rand();
    let mut seen_other = false;
    for _ in 0..64 {
        if range.rand() != first {
            seen_other = true;
        }
    }
    assert!(seen_other);
}

#[test]
fn count_sample_is_min_plus_draw_modulo_width() {
    let range: MinMax<u8> = MinMax::new(0, 10);
    assert_eq!(range.rand_int_with(25), 5);
    assert_eq!(range.rand_int_with(10), 0);
    assert_eq!(range.rand_int_with(9), 9);
    let shifted: MinMax<u8> = MinMax::new(3, 7);
    assert_eq!(shifted.rand_int_with(0), 3);
    assert_eq!(shifted.rand_int_with(3), 6);
    assert_eq!(shifted.rand_int_with(4), 3);
    let widest: MinMax<u8> = MinMax::new(0, 255);
    assert_eq!(widest.rand_int_with(254), 254);
    assert_eq!(widest.rand_int_with(255), 0);
}

#[test]
fn count_sample_never_reaches_max() {
    let range: MinMax<u8> = MinMax::new(3, 7);
    for draw in 0..1000u64 {
        let v = range.rand_int_with(draw);
        assert!(v >= 3 && v < 7);
    }
    for _ in 0..1000 {
        let v = range.rand_int();
        assert!(v >= 3 && v < 7);
    }
}

#[test]
fn append_grows_the_range_to_hold_the_value() {
    let range = MinMax::new(1000, 2000);
    let lower = range.append(-500);
    assert_eq!((lower.min, lower.max), (-500, 2000));
    let upper = range.append(3500);
    assert_eq!((upper.min, upper.max), (1000, 3500));
    let same = range.append(1500);
    assert_eq!((same.min, same.max), (1000, 2000));
    let edge = range.append(2000);
    assert_eq!((edge.min, edge.max), (1000, 2000));
}

#[test]
fn avg_is_min_plus_half_the_width() {
    assert_eq!(MinMax::new(1000, 4000).avg(), 2500);
    assert_eq!(MinMax::new(0, 5).avg(), 2);
    assert_eq!(MinMax::new(-5, 0).avg(), -3);
    assert_eq!(MinMax::new(i32::MIN, i32::MAX).avg(), -1);
    assert_eq!(MinMax::new(5, 0).avg(), 3);
}

#[test]
fn new_keeps_both_ends() {
    let range = MinMax::new(4u8, 9u8);
    assert_eq!((range.min, range.max), (4, 9));
    let copy = range;
    assert_eq!((copy.min, copy.max), (range.min, range.max));
}
