use zklabubu::entities::{FallingItem, FallingItemType};
use zklabubu::game::{Game, GameState};

fn playing_game() -> Game {
    let mut g = Game::new(640, 480, 42);
    g.start();
    g
}

#[test]
fn new_game_starts_idle_with_three_lives() {
    let g = Game::new(640, 480, 7);
    assert_eq!(g.get_state(), GameState::NotStarted);
    assert_eq!(g.get_score(), 0);
    assert_eq!(g.get_visual_score(), 0);
    assert_eq!(g.get_lives(), 3);
    assert!(!g.is_game_over());
    assert_eq!(g.get_elapsed_time(), 0);
    assert_eq!(g.get_last_collected_item(), None);
}

#[test]
fn hazard_costs_one_life() {
    let mut g = playing_game();
    let fatal = g.resolve_collision(FallingItemType::Rock);
    assert!(!fatal);
    assert_eq!(g.get_lives(), 2);
    assert!(!g.is_game_over());
    assert_eq!(g.get_state(), GameState::Playing);
}

#[test]
fn hazard_on_last_life_ends_the_game() {
    let mut g = playing_game();
    g.lives = 1;
    let fatal = g.resolve_collision(FallingItemType::Rock);
    assert!(fatal);
    assert_eq!(g.get_lives(), 0);
    assert!(g.is_game_over());
    assert_eq!(g.get_state(), GameState::GameOver);
}

#[test]
fn hazard_on_last_life_makes_advance_report_game_over() {
    let mut g = playing_game();
    g.lives = 1;
    // One rock in the player's lane, overlapping the player's box: the play
    // area is 640 by 480 pixels, so the player's box top sits at 342000
    // milli-pixels and an item at 300000 falls straight into it.
    let mut rock = FallingItem::new(640000, 100, 2, FallingItemType::Rock);
    rock.y = 300000;
    g.falling_items.push(rock);
    let over = g.update(16);
    assert!(over);
    assert!(g.is_game_over());
    assert_eq!(g.get_state(), GameState::GameOver);
    assert_eq!(g.get_lives(), 0);
}

#[test]
fn shield_absorbs_hazard_without_being_consumed() {
    let mut g = playing_game();
    g.shield_active_until = Some(10000);
    let fatal = g.resolve_collision(FallingItemType::Rock);
    assert!(!fatal);
    assert_eq!(g.get_lives(), 3);
    assert_eq!(g.shield_active_until, Some(10000));
    assert!(!g.is_game_over());
}

#[test]
fn purple_collect_under_double_score_inflates_display_only() {
    let mut g = playing_game();
    g.double_points_active_until = Some(10000);
    let fatal = g.resolve_collision(FallingItemType::PurpleEgg);
    assert!(!fatal);
    assert_eq!(g.get_score(), 20);
    assert_eq!(g.get_visual_score(), 40);
    assert_eq!(g.get_purple_eggs_count(), 1);
    assert_eq!(g.get_last_collected_item(), Some(FallingItemType::PurpleEgg));
}

#[test]
fn collect_without_double_score_keeps_display_equal() {
    let mut g = playing_game();
    g.resolve_collision(FallingItemType::YellowEgg);
    assert_eq!(g.get_score(), 5);
    assert_eq!(g.get_visual_score(), 5);
    assert_eq!(g.get_yellow_eggs_count(), 1);
    g.resolve_collision(FallingItemType::PinkEgg);
    assert_eq!(g.get_score(), 15);
    assert_eq!(g.get_blue_eggs_count(), 1);
}

#[test]
fn extra_life_at_cap_is_ignored() {
    let mut g = playing_game();
    g.lives = 5;
    let fatal = g.resolve_collision(FallingItemType::ExtraLife);
    assert!(!fatal);
    assert_eq!(g.get_lives(), 5);
}

#[test]
fn extra_life_below_cap_adds_one() {
    let mut g = playing_game();
    let fatal = g.resolve_collision(FallingItemType::ExtraLife);
    assert!(!fatal);
    assert_eq!(g.get_lives(), 4);
}

#[test]
fn timed_powerups_arm_ten_seconds_from_now() {
    let mut g = playing_game();
    g.elapsed_time = 2500;
    g.resolve_collision(FallingItemType::Shield);
    g.resolve_collision(FallingItemType::DoublePoints);
    g.resolve_collision(FallingItemType::SlowDown);
    assert_eq!(g.shield_active_until, Some(12500));
    assert_eq!(g.double_points_active_until, Some(12500));
    assert_eq!(g.slowdown_active_until, Some(12500));
}

#[test]
fn timers_expire_independently() {
    let mut g = playing_game();
    g.elapsed_time = 20000;
    g.shield_active_until = Some(10000);
    g.double_points_active_until = Some(30000);
    g.slowdown_active_until = Some(20000);
    g.expire_timers();
    assert_eq!(g.shield_active_until, None);
    assert_eq!(g.double_points_active_until, Some(30000));
    assert_eq!(g.slowdown_active_until, None);
}

#[test]
fn display_score_returns_to_real_score_when_double_expires() {
    let mut g = playing_game();
    g.double_points_active_until = Some(1000);
    g.resolve_collision(FallingItemType::PurpleEgg);
    assert_eq!(g.get_visual_score(), 40);
    g.elapsed_time = 2000;
    g.expire_timers();
    assert_eq!(g.double_points_active_until, None);
    assert_eq!(g.get_visual_score(), 20);
}

#[test]
fn score_ledger_saturates_near_the_top_without_counting() {
    let mut g = playing_game();
    g.score = u32::MAX - 3;
    g.visual_score = u32::MAX - 3;
    let fatal = g.resolve_collision(FallingItemType::YellowEgg);
    assert!(!fatal);
    assert_eq!(g.get_score(), u32::MAX - 3);
    assert_eq!(g.get_yellow_eggs_count(), 0);
}

#[test]
fn crossing_a_hundred_points_arms_a_powerup_drop() {
    let mut g = playing_game();
    g.score = 95;
    g.yellow_eggs = 19;
    g.resolve_collision(FallingItemType::YellowEgg);
    assert_eq!(g.get_score(), 100);
    assert!(g.powerup_due);
    g.spawn_falling_items();
    assert!(!g.powerup_due);
    let first = g.falling_items[0].item_type;
    assert!(matches!(
        first,
        FallingItemType::Shield | FallingItemType::DoublePoints | FallingItemType::ExtraLife
    ));
}

#[test]
fn scoring_within_the_same_hundred_does_not_arm_a_powerup() {
    let mut g = playing_game();
    g.resolve_collision(FallingItemType::YellowEgg);
    assert!(!g.powerup_due);
}

#[test]
fn spawned_items_use_distinct_lanes() {
    let mut g = playing_game();
    g.score = 300;
    g.yellow_eggs = 60;
    g.powerup_due = true;
    g.spawn_falling_items();
    let n = g.falling_items.len();
    assert!(n >= 2 && n <= 4);
    for i in 0..n {
        assert!(g.falling_items[i].lane < 5);
        for j in 0..i {
            assert_ne!(g.falling_items[i].lane, g.falling_items[j].lane);
        }
    }
}

#[test]
fn first_frame_spawns_immediately() {
    let mut g = playing_game();
    let over = g.update(16);
    assert!(!over);
    assert_eq!(g.get_elapsed_time(), 16);
    assert!(g.falling_items.len() >= 1);
    assert_eq!(g.last_item_spawn_time, 16);
}

#[test]
fn no_spawn_before_the_interval_passes() {
    let mut g = playing_game();
    g.update(16);
    let count = g.falling_items.len();
    g.update(16);
    // 32 milliseconds in, far under the 1200-millisecond interval: items may
    // only leave the screen, never appear.
    assert!(g.falling_items.len() <= count);
    assert_eq!(g.last_item_spawn_time, 16);
}

#[test]
fn offscreen_items_vanish_without_effect() {
    let mut g = playing_game();
    let mut item = FallingItem::new(640000, 100, 0, FallingItemType::Rock);
    item.y = 479000;
    g.falling_items.push(item);
    let over = g.update(16);
    assert!(!over);
    assert_eq!(g.falling_items.len(), 0);
    assert_eq!(g.get_lives(), 3);
    assert_eq!(g.get_score(), 0);
}

#[test]
fn a_frame_collects_an_egg_in_the_players_lane() {
    let mut g = playing_game();
    let mut egg = FallingItem::new(640000, 100, 2, FallingItemType::YellowEgg);
    egg.y = 300000;
    g.falling_items.push(egg);
    let over = g.update(16);
    assert!(!over);
    assert_eq!(g.get_score(), 5);
    assert_eq!(g.get_yellow_eggs_count(), 1);
    assert_eq!(g.get_last_collected_item(), Some(FallingItemType::YellowEgg));
    assert_eq!(g.falling_items.len(), 0);
}

#[test]
fn an_item_in_another_lane_misses_the_player() {
    let mut g = playing_game();
    let mut egg = FallingItem::new(640000, 100, 0, FallingItemType::YellowEgg);
    egg.y = 300000;
    g.falling_items.push(egg);
    g.update(16);
    assert_eq!(g.get_score(), 0);
    assert_eq!(g.falling_items.len(), 1);
    // The item kept falling: 200 milli-pixels per millisecond for 16 ms.
    assert_eq!(g.falling_items[0].y, 303200);
}

#[test]
fn difficulty_reflects_this_frames_scoring_at_frame_end() {
    let mut g = playing_game();
    g.score = 95;
    g.yellow_eggs = 19;
    g.last_item_spawn_time = 1;
    let mut egg = FallingItem::new(640000, 100, 2, FallingItemType::YellowEgg);
    egg.y = 300000;
    g.falling_items.push(egg);
    g.update(16);
    // The collect took the score from 95 to 100, so the frame already ends
    // one difficulty level up.
    assert_eq!(g.get_score(), 100);
    assert_eq!(g.difficulty_multiplier_x100, 140);
    assert_eq!(g.spawn_interval, 1100);
}

#[test]
fn slowdown_pickup_cuts_the_multiplier_the_same_frame() {
    let mut g = playing_game();
    g.last_item_spawn_time = 1;
    let mut item = FallingItem::new(640000, 100, 2, FallingItemType::SlowDown);
    item.y = 300000;
    g.falling_items.push(item);
    g.update(16);
    assert!(g.slowdown_active_until.is_some());
    assert_eq!(g.difficulty_multiplier_x100, 60);
}

#[test]
fn update_outside_playing_changes_nothing() {
    let mut g = Game::new(640, 480, 9);
    let over = g.update(1000);
    assert!(!over);
    assert_eq!(g.get_elapsed_time(), 0);
    assert_eq!(g.falling_items.len(), 0);
    let mut p = playing_game();
    p.toggle_pause();
    assert_eq!(p.get_state(), GameState::Paused);
    p.update(1000);
    assert_eq!(p.get_elapsed_time(), 0);
}

#[test]
fn pause_toggles_and_game_over_is_sticky() {
    let mut g = playing_game();
    g.toggle_pause();
    assert_eq!(g.get_state(), GameState::Paused);
    g.toggle_pause();
    assert_eq!(g.get_state(), GameState::Playing);
    g.stop();
    assert_eq!(g.get_state(), GameState::Paused);
    g.start();
    assert_eq!(g.get_state(), GameState::Playing);
    g.lives = 1;
    g.resolve_collision(FallingItemType::Rock);
    assert_eq!(g.get_state(), GameState::GameOver);
    g.start();
    assert_eq!(g.get_state(), GameState::GameOver);
    g.toggle_pause();
    assert_eq!(g.get_state(), GameState::GameOver);
    g.restart();
    assert_eq!(g.get_state(), GameState::Playing);
}

#[test]
fn restart_zeroes_the_run_and_is_idempotent() {
    let mut g = playing_game();
    g.resolve_collision(FallingItemType::PurpleEgg);
    g.resolve_collision(FallingItemType::Rock);
    g.shield_active_until = Some(9000);
    g.elapsed_time = 5000;
    g.update(16);
    g.restart();
    let snapshot_run = (
        g.get_state(),
        g.get_score(),
        g.get_visual_score(),
        g.get_lives(),
        g.get_elapsed_time(),
        g.falling_items.len(),
        g.labubu.position_index,
        g.labubu.x,
    );
    let snapshot_rest = (
        g.shield_active_until,
        g.double_points_active_until,
        g.slowdown_active_until,
        g.powerup_due,
        g.get_yellow_eggs_count(),
        g.get_blue_eggs_count(),
        g.get_purple_eggs_count(),
        g.rng.state,
    );
    g.restart();
    let again_run = (
        g.get_state(),
        g.get_score(),
        g.get_visual_score(),
        g.get_lives(),
        g.get_elapsed_time(),
        g.falling_items.len(),
        g.labubu.position_index,
        g.labubu.x,
    );
    let again_rest = (
        g.shield_active_until,
        g.double_points_active_until,
        g.slowdown_active_until,
        g.powerup_due,
        g.get_yellow_eggs_count(),
        g.get_blue_eggs_count(),
        g.get_purple_eggs_count(),
        g.rng.state,
    );
    assert_eq!(snapshot_run, again_run);
    assert_eq!(snapshot_rest, again_rest);
    assert_eq!(g.get_score(), 0);
    assert_eq!(g.get_lives(), 3);
    assert_eq!(g.get_elapsed_time(), 0);
    assert_eq!(g.labubu.position_index, 2);
}

#[test]
fn player_moves_clamp_at_the_outer_lanes() {
    let mut g = playing_game();
    assert_eq!(g.labubu.position_index, 2);
    g.move_left();
    g.move_left();
    assert_eq!(g.labubu.position_index, 0);
    g.move_left();
    assert_eq!(g.labubu.position_index, 0);
    for _ in 0..6 {
        g.move_right();
    }
    assert_eq!(g.labubu.position_index, 4);
    assert_eq!(g.labubu.x, g.labubu.positions[4]);
}

#[test]
fn moves_are_ignored_outside_playing() {
    let mut g = Game::new(640, 480, 1);
    g.move_left();
    assert_eq!(g.labubu.position_index, 2);
}

#[test]
fn game_time_counts_whole_seconds() {
    let mut g = playing_game();
    g.elapsed_time = 12500;
    assert_eq!(g.get_game_time(), 12);
}

#[test]
fn ledger_equation_holds_along_a_run() {
    let mut g = playing_game();
    let kinds = [
        FallingItemType::YellowEgg,
        FallingItemType::PinkEgg,
        FallingItemType::PurpleEgg,
        FallingItemType::YellowEgg,
        FallingItemType::PurpleEgg,
    ];
    for k in kinds {
        g.resolve_collision(k);
        let recomputed = 5 * g.get_yellow_eggs_count()
            + 10 * g.get_blue_eggs_count()
            + 20 * g.get_purple_eggs_count();
        assert_eq!(g.get_score(), recomputed);
        assert!(g.labubu.position_index <= 4);
        assert!(g.get_lives() <= 5);
    }
    assert_eq!(g.get_score(), 60);
}
