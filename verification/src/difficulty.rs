//! Difficulty curve: pure functions from the authoritative score to the
//! speed multiplier and the spawn interval.
//!
//! The multiplier is kept in hundredths so that the whole curve stays in
//! integer arithmetic: a multiplier of `140` means 1.40 times the base speed.

use vstd::prelude::*;
use vstd::arithmetic::div_mod::lemma_div_is_ordered;
use vstd::arithmetic::div_mod::lemma_div_multiples_vanish;

verus! {

/// Largest value `spec_multiplier_x100` can take: the level at the top of the
/// score domain, times forty hundredths, plus one.
pub const MULTIPLIER_X100_MAX: u64 = 343597620;

/// Difficulty level of a score: one step per hundred points below five
/// hundred, then one step per further five hundred points.
pub open spec fn spec_difficulty_level(score: int) -> int {
    if score < 500 {
        score / 100
    } else {
        5 + (score - 500) / 500
    }
}

/// Speed multiplier in hundredths: one plus forty hundredths per level,
/// cut to sixty percent while slow-down is active.
pub open spec fn spec_multiplier_x100(score: int, slowdown_active: bool) -> int {
    let base = 100 + 40 * spec_difficulty_level(score);
    if slowdown_active {
        base * 60 / 100
    } else {
        base
    }
}

/// Milliseconds between spawn events: starts at 1200, drops by 100 per
/// difficulty level, floored at 400.
pub open spec fn spec_spawn_interval_ms(score: int) -> int {
    let level = spec_difficulty_level(score);
    if level >= 8 {
        400
    } else {
        1200 - 100 * level
    }
}

/// The difficulty level never exceeds the level of the largest score.
pub proof fn lemma_level_bounds(score: u32)
    ensures
        0 <= spec_difficulty_level(score as int) <= 8589938,
{
    if score < 500 {
        lemma_div_is_ordered(score as int, 499, 100);
    } else {
        lemma_div_is_ordered(score - 500, 0xFFFF_FFFF - 500, 500);
    }
}

/// The difficulty level is non-decreasing in the score.
pub proof fn lemma_level_monotonic(s1: int, s2: int)
    requires
        0 <= s1 <= s2,
    ensures
        spec_difficulty_level(s1) <= spec_difficulty_level(s2),
{
    if s2 < 500 {
        lemma_div_is_ordered(s1, s2, 100);
    } else if s1 < 500 {
        lemma_div_is_ordered(s1, 499, 100);
        lemma_div_is_ordered(0, s2 - 500, 500);
    } else {
        lemma_div_is_ordered(s1 - 500, s2 - 500, 500);
    }
}

/// Difficulty only rises with the score: with the slow-down state held fixed,
/// the multiplier is non-decreasing in the score; and at any one score the
/// slowed multiplier never exceeds the plain one (the only drop an observer
/// can see comes from arming the slow-down timer, not from scoring).
pub proof fn lemma_multiplier_monotonic(s1: int, s2: int, slowdown_active: bool)
    requires
        0 <= s1 <= s2,
    ensures
        spec_multiplier_x100(s1, slowdown_active) <= spec_multiplier_x100(s2, slowdown_active),
        spec_multiplier_x100(s1, true) <= spec_multiplier_x100(s1, false),
{
    lemma_level_monotonic(s1, s2);
    lemma_level_monotonic(0, s1);
    let b1 = 100 + 40 * spec_difficulty_level(s1);
    let b2 = 100 + 40 * spec_difficulty_level(s2);
    lemma_div_is_ordered(b1 * 60, b2 * 60, 100);
    lemma_div_is_ordered(b1 * 60, b1 * 100, 100);
    lemma_div_multiples_vanish(b1, 100);
}

/// Difficulty level of a score.
pub fn difficulty_level(score: u32) -> (level: u32)
    ensures
        level == spec_difficulty_level(score as int),
        level <= 8589938,
{
    proof {
        lemma_level_bounds(score);
    }
    if score < 500 {
        score / 100
    } else {
        5 + (score - 500) / 500
    }
}

/// Speed multiplier in hundredths for a score and slow-down state.
pub fn multiplier_x100(score: u32, slowdown_active: bool) -> (m: u64)
    ensures
        m == spec_multiplier_x100(score as int, slowdown_active),
        60 <= m <= MULTIPLIER_X100_MAX,
{
    let level = difficulty_level(score) as u64;
    let base = 100 + 40 * level;
    if slowdown_active {
        proof {
            lemma_div_is_ordered(6000int, base * 60, 100);
            lemma_div_multiples_vanish(60, 100);
            lemma_div_is_ordered(base * 60, (MULTIPLIER_X100_MAX as int) * 100, 100);
            lemma_div_multiples_vanish(MULTIPLIER_X100_MAX as int, 100);
        }
        base * 60 / 100
    } else {
        base
    }
}

/// Spawn interval in milliseconds for a score.
pub fn spawn_interval_ms(score: u32) -> (ms: u64)
    ensures
        ms == spec_spawn_interval_ms(score as int),
        400 <= ms <= 1200,
{
    let level = difficulty_level(score);
    if level >= 8 {
        400
    } else {
        1200 - 100 * (level as u64)
    }
}

} // verus!
