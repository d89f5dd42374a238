use zklabubu::difficulty::{difficulty_level, multiplier_x100, spawn_interval_ms};

#[test]
fn level_steps_every_hundred_then_every_five_hundred() {
    assert_eq!(difficulty_level(0), 0);
    assert_eq!(difficulty_level(99), 0);
    assert_eq!(difficulty_level(100), 1);
    assert_eq!(difficulty_level(499), 4);
    assert_eq!(difficulty_level(500), 5);
    assert_eq!(difficulty_level(999), 5);
    assert_eq!(difficulty_level(1000), 6);
}

#[test]
fn multiplier_values_along_the_curve() {
    assert_eq!(multiplier_x100(0, false), 100);
    assert_eq!(multiplier_x100(99, false), 100);
    assert_eq!(multiplier_x100(100, false), 140);
    assert_eq!(multiplier_x100(250, false), 180);
    assert_eq!(multiplier_x100(500, false), 300);
    assert_eq!(multiplier_x100(999, false), 300);
    assert_eq!(multiplier_x100(1000, false), 340);
}

#[test]
fn multiplier_is_nondecreasing_across_sample_scores() {
    let scores = [0u32, 99, 100, 250, 500, 999, 1000];
    for slowdown in [false, true] {
        let mut last = 0u64;
        for s in scores {
            let m = multiplier_x100(s, slowdown);
            assert!(m >= last);
            last = m;
        }
    }
}

#[test]
fn slowdown_cuts_the_multiplier_to_sixty_percent() {
    assert_eq!(multiplier_x100(0, true), 60);
    assert_eq!(multiplier_x100(100, true), 84);
    assert!(multiplier_x100(250, true) < multiplier_x100(250, false));
}

#[test]
fn spawn_interval_shrinks_to_a_floor() {
    assert_eq!(spawn_interval_ms(0), 1200);
    assert_eq!(spawn_interval_ms(100), 1100);
    assert_eq!(spawn_interval_ms(700), 700);
    assert_eq!(spawn_interval_ms(1999), 500);
    assert_eq!(spawn_interval_ms(2000), 400);
    assert_eq!(spawn_interval_ms(100000), 400);
}
