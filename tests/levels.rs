use audioctrl::level::{sample_from_counts, Level, Levels, INACTIVE_INDEX};
use audioctrl::leds::LedPattern;
use audioctrl::pattern::Pattern;

fn per_ten_thousand(x: f32) -> u32 {
    (x * 10_000.0).round() as u32
}

#[test]
fn loud_sample_classifies_as_clip() {
    let level = Level::classify(per_ten_thousand(0.95));
    assert_eq!(level, Level::Clip);
    assert_eq!(level.index(), 0);
    assert_eq!(Level::dot_mask(level.index()), 0b1_0000_0000);
    assert_eq!(Level::bar_mask(level.index()), 0b1_1111_1111);
}

#[test]
fn thresholds_are_inclusive() {
    assert_eq!(Level::classify(9000), Level::Clip);
    assert_eq!(Level::classify(8999), Level::Plus6);
    assert_eq!(Level::classify(8500), Level::Plus6);
    assert_eq!(Level::classify(8000), Level::Nominal);
    assert_eq!(Level::classify(7999), Level::Minus6);
    assert_eq!(Level::classify(2000), Level::Minus36);
    assert_eq!(Level::classify(1999), Level::Inactive);
    assert_eq!(Level::classify(0), Level::Inactive);
    assert_eq!(Level::classify(u32::MAX), Level::Clip);
}

#[test]
fn classification_is_monotonic() {
    let mut previous = Level::classify(0).index();
    for sample in (0..=10_000u32).step_by(50) {
        let index = Level::classify(sample).index();
        assert!(index <= previous);
        previous = index;
    }
}

#[test]
fn masks_of_each_band() {
    assert_eq!(Level::bar_mask(3), 0b0_0011_1111);
    assert_eq!(Level::dot_mask(3), 0b0_0010_0000);
    assert_eq!(Level::bar_mask(8), 0b0_0000_0001);
    assert_eq!(Level::dot_mask(8), 0b0_0000_0001);
    assert_eq!(Level::bar_mask(INACTIVE_INDEX), 0);
    assert_eq!(Level::dot_mask(INACTIVE_INDEX), 0);
}

#[test]
fn bar_pattern_runs_to_the_floor() {
    assert_eq!(Level::Nominal.to_pattern().bits(), 0b0_0111_1111);
    let p = Level::Minus36.to_pattern();
    for j in 0..8 {
        assert!(!p.get(j));
    }
    assert!(p.get(8));
    assert_eq!(Level::Inactive.to_pattern().bits(), 0);
}

#[test]
fn activity_of_levels() {
    assert!(!Level::Inactive.is_active());
    assert!(Level::Minus36.is_active());
    assert!(Levels(Level::Inactive, Level::Minus6).is_active());
    assert!(!Levels(Level::Inactive, Level::Inactive).is_active());
    let ps = Levels(Level::Clip, Level::Inactive).to_patterns();
    assert_eq!(ps.0.bits(), 0b1_1111_1111);
    assert_eq!(ps.1.bits(), 0);
}

#[test]
fn sample_from_window_counts() {
    assert_eq!(sample_from_counts(380, 400), 9500);
    assert_eq!(sample_from_counts(0, 400), 0);
    assert_eq!(sample_from_counts(400, 400), 10_000);
    assert_eq!(sample_from_counts(1, 3), 3333);
    assert_eq!(sample_from_counts(u32::MAX, u32::MAX), 10_000);
}

#[test]
fn rotation_round_trip() {
    for mask in [0u32, 1, 0b1_0000_0000, 0b1_0110_1001, 0b1_1111_1111] {
        for n in [0u32, 1, 4, 8, 9, 10, 1000, u32::MAX] {
            let p = Pattern::from_mask(mask);
            let mut q = p;
            q.rotate_right(n);
            q.rotate_left(n);
            assert_eq!(q, p);
        }
    }
}

#[test]
fn rotate_left_moves_segments_towards_zero() {
    let mut p = Pattern::new();
    p.set_at(0, true);
    p.rotate_left(1);
    assert_eq!(p.bits(), 0b0_0000_0001);
    assert!(p.get(8));
    p.rotate_left(1);
    assert!(p.get(7));
    let mut q = Pattern::from_mask(0b1_1000_0001);
    q.rotate_right(2);
    assert_eq!(q.bits(), 0b0_1110_0000);
}

#[test]
fn set_at_and_set_range() {
    let mut p = Pattern::new();
    p.set_range(2, 5, true);
    assert_eq!(p.bits(), 0b0_0111_0000);
    p.set_at(3, false);
    assert_eq!(p.bits(), 0b0_0101_0000);
    p.set_range(0, 9, true);
    assert_eq!(p.bits(), 0b1_1111_1111);
    p.set_range(4, 4, false);
    assert_eq!(p.bits(), 0b1_1111_1111);
}

#[test]
fn led_bar_and_peak() {
    let bar = LedPattern::from_level(Some(3));
    assert_eq!(bar.0, [true, true, true, true, false, false]);
    let dot = bar.peak();
    assert_eq!(dot.0, [false, false, false, true, false, false]);
    assert_eq!(LedPattern::from_level(None).0, [false; 6]);
    assert_eq!(LedPattern::from_level(Some(200)).0, [true; 6]);
    let scattered = LedPattern::from([true, false, true, false, false, true]).peak();
    assert_eq!(scattered.0, [false, false, false, false, false, true]);
    assert_eq!(LedPattern::from([false; 6]).peak().0, [false; 6]);
    assert!(dot.is_lit(3));
}

#[test]
fn led_bar_from_duty() {
    assert_eq!(LedPattern::from_duty(7000).0, [true; 6]);
    assert_eq!(LedPattern::from_duty(3400).0, [true, true, true, false, false, false]);
    assert_eq!(LedPattern::from_duty(1100).0, [false; 6]);
    assert_eq!(LedPattern::from_duty(1101).0, [true, false, false, false, false, false]);
    assert_eq!(LedPattern::from_duty(9901).0, [true; 6]);
    assert_eq!(LedPattern::from_duty(10_000).0, [true; 6]);
    assert_eq!(LedPattern::from_duty(9900).0, [true; 6]);
}
