//! The simulation: game state machine, score ledger, power-up timers,
//! collision resolution, spawn scheduling and the per-frame step.
//!
//! Time is kept in milliseconds and geometry in milli-pixels. Every public
//! mutation states its exact effect on the game's mathematical view, and the
//! structural invariant `Game::wf` — lane and life bounds, the ledger/counter
//! equation, display-score coherence — is established by the constructor and
//! preserved by every method.

use vstd::prelude::*;
use crate::difficulty::MULTIPLIER_X100_MAX;
use crate::difficulty::multiplier_x100;
use crate::difficulty::spawn_interval_ms;
use crate::difficulty::spec_multiplier_x100;
use crate::difficulty::spec_spawn_interval_ms;
use crate::entities::EXTENT_MPX_MAX;
use crate::entities::FallingItem;
use crate::entities::FallingItemType;
use crate::entities::Labubu;
use crate::entities::PLAYER_BOTTOM_GAP_MPX;
use crate::entities::PLAYER_SIZE_MPX;
use crate::entities::SPAWN_Y_MPX;
use crate::entities::spec_is_draw_kind;
use crate::entities::spec_is_egg;
use crate::entities::spec_is_powerup;
use crate::entities::spec_lane_left;
use crate::entities::spec_point_value;
use crate::entities::roll_kind;
use crate::rng::Rng;
use crate::rng::spec_gen_below;

verus! {

/// Lifetime of every timed power-up effect, in milliseconds.
pub const POWERUP_DURATION_MS: u64 = 10000;

/// Lives a fresh game starts with.
pub const STARTING_LIVES: u32 = 3;

/// Ceiling on lives: extra-life pickups beyond it are ignored.
pub const MAX_LIVES: u32 = 5;

/// The game's control states.
#[derive(Clone, Copy, PartialEq, Eq, Structural, Debug)]
pub enum GameState {
    NotStarted,
    Playing,
    Paused,
    GameOver,
}

/// Mathematical view of a game: the same state over unbounded integers and
/// sequences, which the contracts and laws speak of.
#[verifier::ext_equal]
pub ghost struct GameView {
    /// Play-area extent in milli-pixels.
    pub width: int,
    pub height: int,
    pub state: GameState,
    /// The player's lane and the left edge of its box.
    pub player_index: int,
    pub player_x: int,
    pub items: Seq<FallingItem>,
    pub last_spawn_ms: int,
    pub spawn_interval_ms: int,
    /// The authoritative score.
    pub score: int,
    /// The display score: the authoritative score plus a transient bonus
    /// shown while double-score is active.
    pub visual_score: int,
    pub lives: int,
    pub game_over: bool,
    pub multiplier_x100: int,
    pub elapsed_ms: int,
    pub shield_until: Option<int>,
    pub double_until: Option<int>,
    pub slowdown_until: Option<int>,
    pub powerup_due: bool,
    /// Collected-collectible counters, the oracle's eventual inputs.
    pub yellow: int,
    pub pink: int,
    pub purple: int,
    pub last_collected: Option<FallingItemType>,
    pub rng_state: int,
}

/// An optional millisecond deadline, as a mathematical integer.
pub open spec fn spec_opt_int(o: Option<u64>) -> Option<int> {
    match o {
        Some(t) => Some(t as int),
        None => None,
    }
}

/// Addition on `u64` values that stops at the top of the type.
pub open spec fn spec_sat_add_u64(a: int, b: int) -> int {
    if a + b > u64::MAX {
        u64::MAX as int
    } else {
        a + b
    }
}

/// The whole game owned by one simulation instance.
pub struct Game {
    /// Play-area extent in milli-pixels.
    pub width: u64,
    pub height: u64,
    pub state: GameState,
    pub labubu: Labubu,
    pub falling_items: Vec<FallingItem>,
    /// When the last spawn event fired, in elapsed milliseconds.
    pub last_item_spawn_time: u64,
    /// Current gap between spawn events, in milliseconds.
    pub spawn_interval: u64,
    /// The authoritative score.
    pub score: u32,
    /// The display score shown to the player.
    pub visual_score: u32,
    pub lives: u32,
    pub game_over: bool,
    pub difficulty_multiplier_x100: u64,
    /// Total simulated time, in milliseconds.
    pub elapsed_time: u64,
    pub shield_active_until: Option<u64>,
    pub double_points_active_until: Option<u64>,
    pub slowdown_active_until: Option<u64>,
    /// Whether the next spawn event owes the player a power-up.
    pub powerup_due: bool,
    pub yellow_eggs: u32,
    pub pink_eggs: u32,
    pub purple_eggs: u32,
    /// The collectible collected this frame, if any, for outside observers.
    pub last_collected_item: Option<FallingItemType>,
    pub rng: Rng,
}

impl View for Game {
    type V = GameView;

    open spec fn view(&self) -> GameView {
        GameView {
            width: self.width as int,
            height: self.height as int,
            state: self.state,
            player_index: self.labubu.position_index as int,
            player_x: self.labubu.x as int,
            items: self.falling_items@,
            last_spawn_ms: self.last_item_spawn_time as int,
            spawn_interval_ms: self.spawn_interval as int,
            score: self.score as int,
            visual_score: self.visual_score as int,
            lives: self.lives as int,
            game_over: self.game_over,
            multiplier_x100: self.difficulty_multiplier_x100 as int,
            elapsed_ms: self.elapsed_time as int,
            shield_until: spec_opt_int(self.shield_active_until),
            double_until: spec_opt_int(self.double_points_active_until),
            slowdown_until: spec_opt_int(self.slowdown_active_until),
            powerup_due: self.powerup_due,
            yellow: self.yellow_eggs as int,
            pink: self.pink_eggs as int,
            purple: self.purple_eggs as int,
            last_collected: self.last_collected_item,
            rng_state: self.rng.state as int,
        }
    }
}

impl Game {
    /// Structural invariant, established by `new` and preserved by every
    /// method: lanes and lives stay in bounds, the authoritative score always
    /// equals the weighted counter sum, the game-over flag mirrors the state,
    /// and the display score matches the authoritative one whenever
    /// double-score is inactive.
    pub open spec fn wf(self) -> bool {
        &&& self.width <= EXTENT_MPX_MAX
        &&& self.height <= EXTENT_MPX_MAX
        &&& self.labubu.wf(self.width as int, self.height as int)
        &&& (forall|i: int|
            0 <= i < self.falling_items@.len() ==> (#[trigger] self.falling_items@[i]).wf(
                self.width as int,
            ))
        &&& self.lives <= MAX_LIVES
        &&& self.score as int == 5 * self.yellow_eggs + 10 * self.pink_eggs + 20
            * self.purple_eggs
        &&& self.game_over == (self.state is GameOver)
        &&& self.last_item_spawn_time <= self.elapsed_time
        &&& (self.double_points_active_until is None ==> self.visual_score == self.score)
        &&& 400 <= self.spawn_interval <= 1200
        &&& 60 <= self.difficulty_multiplier_x100 <= MULTIPLIER_X100_MAX
    }

    /// A fresh game over a play area of the given size in pixels, with the
    /// given seed driving spawn randomness.
    pub fn new(canvas_width_px: u32, canvas_height_px: u32, seed: u64) -> (g: Game)
        ensures
            g.wf(),
            g@.state is NotStarted,
            g@.width == canvas_width_px as int * 1000,
            g@.height == canvas_height_px as int * 1000,
            g@.player_index == 2,
            g@.items.len() == 0,
            g@.last_spawn_ms == 0,
            g@.spawn_interval_ms == 1200,
            g@.score == 0,
            g@.visual_score == 0,
            g@.lives == STARTING_LIVES,
            !g@.game_over,
            g@.multiplier_x100 == 100,
            g@.elapsed_ms == 0,
            g@.shield_until is None,
            g@.double_until is None,
            g@.slowdown_until is None,
            !g@.powerup_due,
            g@.yellow == 0 && g@.pink == 0 && g@.purple == 0,
            g@.last_collected is None,
            g@.rng_state == seed,
    {
        let width = canvas_width_px as u64 * 1000;
        let height = canvas_height_px as u64 * 1000;
        Game {
            width,
            height,
            state: GameState::NotStarted,
            labubu: Labubu::new(width, height),
            falling_items: Vec::new(),
            last_item_spawn_time: 0,
            spawn_interval: 1200,
            score: 0,
            visual_score: 0,
            lives: STARTING_LIVES,
            game_over: false,
            difficulty_multiplier_x100: 100,
            elapsed_time: 0,
            shield_active_until: None,
            double_points_active_until: None,
            slowdown_active_until: None,
            powerup_due: false,
            yellow_eggs: 0,
            pink_eggs: 0,
            purple_eggs: 0,
            last_collected_item: None,
            rng: Rng::new(seed),
        }
    }

    /// Enter the playing state. Game over is sticky: once reached, only an
    /// explicit restart leaves it.
    pub fn start(&mut self)
        requires
            old(self).wf(),
        ensures
            final(self).wf(),
            final(self)@ == if old(self)@.state is GameOver {
                old(self)@
            } else {
                GameView { state: GameState::Playing, ..old(self)@ }
            },
    {
        if !(self.state == GameState::GameOver) {
            self.state = GameState::Playing;
        }
    }

    /// Pause the game. Game over is sticky, so a finished game stays finished.
    pub fn stop(&mut self)
        requires
            old(self).wf(),
        ensures
            final(self).wf(),
            final(self)@ == if old(self)@.state is GameOver {
                old(self)@
            } else {
                GameView { state: GameState::Paused, ..old(self)@ }
            },
    {
        if !(self.state == GameState::GameOver) {
            self.state = GameState::Paused;
        }
    }

    /// Toggle between playing and paused; any other state is left alone.
    pub fn toggle_pause(&mut self)
        requires
            old(self).wf(),
        ensures
            final(self).wf(),
            final(self)@ == if old(self)@.state is Playing {
                GameView { state: GameState::Paused, ..old(self)@ }
            } else if old(self)@.state is Paused {
                GameView { state: GameState::Playing, ..old(self)@ }
            } else {
                old(self)@
            },
    {
        if self.state == GameState::Playing {
            self.state = GameState::Paused;
        } else if self.state == GameState::Paused {
            self.state = GameState::Playing;
        }
    }

    /// Move the player one lane to the left; a command outside the playing
    /// state is ignored, and the leftmost lane clamps.
    pub fn move_left(&mut self)
        requires
            old(self).wf(),
        ensures
            final(self).wf(),
            final(self)@ == if old(self)@.state is Playing {
                GameView {
                    player_index: if old(self)@.player_index > 0 {
                        old(self)@.player_index - 1
                    } else {
                        0
                    },
                    player_x: spec_lane_left(
                        old(self)@.width,
                        if old(self)@.player_index > 0 {
                            old(self)@.player_index - 1
                        } else {
                            0
                        },
                        PLAYER_SIZE_MPX as int,
                    ),
                    ..old(self)@
                }
            } else {
                old(self)@
            },
    {
        if self.state == GameState::Playing {
            self.labubu.move_left();
        }
    }

    /// Move the player one lane to the right; a command outside the playing
    /// state is ignored, and the rightmost lane clamps.
    pub fn move_right(&mut self)
        requires
            old(self).wf(),
        ensures
            final(self).wf(),
            final(self)@ == if old(self)@.state is Playing {
                GameView {
                    player_index: if old(self)@.player_index < 4 {
                        old(self)@.player_index + 1
                    } else {
                        old(self)@.player_index
                    },
                    player_x: spec_lane_left(
                        old(self)@.width,
                        if old(self)@.player_index < 4 {
                            old(self)@.player_index + 1
                        } else {
                            old(self)@.player_index
                        },
                        PLAYER_SIZE_MPX as int,
                    ),
                    ..old(self)@
                }
            } else {
                old(self)@
            },
    {
        if self.state == GameState::Playing {
            self.labubu.move_right();
        }
    }

    /// Restart the game right away: everything is zeroed except the play
    /// area, the lane geometry and the randomness source.
    pub fn restart(&mut self)
        requires
            old(self).wf(),
        ensures
            final(self).wf(),
            final(self)@ == spec_restarted(old(self)@),
    {
        self.labubu.reset();
        self.falling_items = Vec::new();
        self.score = 0;
        self.visual_score = 0;
        self.lives = STARTING_LIVES;
        self.game_over = false;
        self.difficulty_multiplier_x100 = 100;
        self.elapsed_time = 0;
        self.last_item_spawn_time = 0;
        self.spawn_interval = 1200;
        self.shield_active_until = None;
        self.double_points_active_until = None;
        self.slowdown_active_until = None;
        self.powerup_due = false;
        self.yellow_eggs = 0;
        self.pink_eggs = 0;
        self.purple_eggs = 0;
        self.last_collected_item = None;
        self.state = GameState::Playing;
        proof {
            assert(self@ =~= spec_restarted(old(self)@));
        }
    }

    /// Resolve one confirmed hit between the player and an item of the given
    /// kind; the item itself is consumed by the caller. Returns whether the
    /// hit ended the game.
    pub fn resolve_collision(&mut self, kind: FallingItemType) -> (fatal: bool)
        requires
            old(self).wf(),
        ensures
            final(self).wf(),
            final(self)@ == spec_apply_hit(old(self)@, kind),
            fatal == spec_hit_fatal(old(self)@, kind),
    {
        let mut fatal = false;
        match kind {
            FallingItemType::YellowEgg | FallingItemType::PinkEgg | FallingItemType::PurpleEgg => {
                let points: u32 = if kind == FallingItemType::YellowEgg {
                    5
                } else if kind == FallingItemType::PinkEgg {
                    10
                } else {
                    20
                };
                if self.score <= u32::MAX - points {
                    let level_before = self.score / 100;
                    self.score = self.score + points;
                    if kind == FallingItemType::YellowEgg {
                        self.yellow_eggs = self.yellow_eggs + 1;
                    } else if kind == FallingItemType::PinkEgg {
                        self.pink_eggs = self.pink_eggs + 1;
                    } else {
                        self.purple_eggs = self.purple_eggs + 1;
                    }
                    if self.score / 100 > level_before {
                        self.powerup_due = true;
                    }
                }
                if self.double_points_active_until.is_some() {
                    self.visual_score = self.score.saturating_add(points);
                } else {
                    self.visual_score = self.score;
                }
                self.last_collected_item = Some(kind);
            },
            FallingItemType::Rock => {
                if self.shield_active_until.is_none() {
                    if self.lives > 0 {
                        self.lives = self.lives - 1;
                    }
                    if self.lives == 0 {
                        self.game_over = true;
                        self.state = GameState::GameOver;
                        fatal = true;
                    }
                }
            },
            FallingItemType::Shield => {
                self.shield_active_until = Some(
                    self.elapsed_time.saturating_add(POWERUP_DURATION_MS),
                );
            },
            FallingItemType::DoublePoints => {
                self.double_points_active_until = Some(
                    self.elapsed_time.saturating_add(POWERUP_DURATION_MS),
                );
            },
            FallingItemType::SlowDown => {
                self.slowdown_active_until = Some(
                    self.elapsed_time.saturating_add(POWERUP_DURATION_MS),
                );
            },
            FallingItemType::ExtraLife => {
                if self.lives < MAX_LIVES {
                    self.lives = self.lives + 1;
                }
            },
        }
        proof {
            assert(self@ =~= spec_apply_hit(old(self)@, kind));
        }
        fatal
    }

    /// Disarm every timed effect whose deadline the clock has reached, and
    /// pin the display score back to the authoritative one whenever
    /// double-score is inactive.
    pub fn expire_timers(&mut self)
        requires
            old(self).wf(),
        ensures
            final(self).wf(),
            final(self)@ == spec_expired(old(self)@),
    {
        if let Some(t) = self.shield_active_until {
            if self.elapsed_time >= t {
                self.shield_active_until = None;
            }
        }
        if let Some(t) = self.double_points_active_until {
            if self.elapsed_time >= t {
                self.double_points_active_until = None;
            }
        }
        if let Some(t) = self.slowdown_active_until {
            if self.elapsed_time >= t {
                self.slowdown_active_until = None;
            }
        }
        if self.double_points_active_until.is_none() {
            self.visual_score = self.score;
        }
        proof {
            assert(self@ =~= spec_expired(old(self)@));
        }
    }

    /// Recompute the difficulty multiplier and the spawn interval from the
    /// current score and slow-down state.
    pub fn refresh_difficulty(&mut self)
        requires
            old(self).wf(),
        ensures
            final(self).wf(),
            final(self)@ == spec_refreshed_difficulty(old(self)@),
    {
        self.difficulty_multiplier_x100 = multiplier_x100(
            self.score,
            self.slowdown_active_until.is_some(),
        );
        self.spawn_interval = spawn_interval_ms(self.score);
        proof {
            assert(self@ =~= spec_refreshed_difficulty(old(self)@));
        }
    }

    /// Run one spawn event now: discharge a pending power-up into its own
    /// lane, then place a difficulty-sized batch of weighted draws, every new
    /// item in a lane of its own.
    pub fn spawn_falling_items(&mut self)
        requires
            old(self).wf(),
        ensures
            final(self).wf(),
            final(self)@ == (GameView {
                items: final(self)@.items,
                powerup_due: false,
                rng_state: final(self)@.rng_state,
                ..old(self)@
            }),
            final(self)@.items.len() == old(self)@.items.len() + (if old(self)@.powerup_due {
                1int
            } else {
                0int
            }) + 1 + spec_gen_below(old(self).rng.state, spec_batch_cap(old(self)@.score) as u32),
            final(self)@.items.subrange(0, old(self)@.items.len() as int) == old(self)@.items,
            spec_spawned_items_ok(
                old(self)@.width,
                old(self)@.multiplier_x100,
                old(self)@.score,
                old(self)@.powerup_due,
                final(self)@.items.skip(old(self)@.items.len() as int),
            ),
    {
        let ghost base = self.falling_items@.len() as int;
        spawn_batch(
            &mut self.falling_items,
            &mut self.rng,
            self.width,
            self.difficulty_multiplier_x100,
            self.score,
            self.powerup_due,
        );
        self.powerup_due = false;
        proof {
            assert(self@ =~= GameView {
                items: self@.items,
                powerup_due: false,
                rng_state: self@.rng_state,
                ..old(self)@
            });
            let news = self.falling_items@.skip(base);
            assert forall|i: int|
                0 <= i < self.falling_items@.len() implies (#[trigger] self.falling_items@[i]).wf(
                self.width as int,
            ) by {
                if i < base {
                    assert(self.falling_items@[i] == self.falling_items@.subrange(0, base)[i]);
                    assert(old(self).falling_items@[i].wf(old(self).width as int));
                } else {
                    assert(self.falling_items@[i] == news[i - base]);
                    assert(news[i - base].wf(old(self)@.width));
                }
            }
        }
    }

    /// Advance the simulation by `delta_ms` milliseconds: one frame.
    ///
    /// Outside the playing state nothing moves: the call only clears the
    /// per-frame collection report and answers whether the game is over.
    /// While playing, the clock advances, a due spawn event fires, reached
    /// timer deadlines disarm, every falling item falls and is resolved
    /// against the player, in order, stopping at a fatal hit, and the
    /// difficulty outputs are then recomputed from the updated score for the
    /// next frame. Returns whether the game is over.
    #[verifier::loop_isolation(false)]
    #[verifier::rlimit(100)]
    pub fn update(&mut self, delta_ms: u64) -> (over: bool)
        requires
            old(self).wf(),
        ensures
            final(self).wf(),
            over == final(self)@.game_over,
            !(old(self)@.state is Playing) ==> final(self)@ == (GameView {
                last_collected: None,
                ..old(self)@
            }) && over == old(self)@.game_over,
            old(self)@.state is Playing ==> spec_frame_rel(
                old(self)@,
                delta_ms as int,
                final(self)@,
            ),
            old(self)@.state is Playing ==> final(self)@.elapsed_ms == spec_sat_add_u64(
                old(self)@.elapsed_ms,
                delta_ms as int,
            ),
            old(self)@.state is Playing ==> final(self)@.multiplier_x100 == spec_multiplier_x100(
                final(self)@.score,
                final(self)@.slowdown_until is Some,
            ),
            old(self)@.state is Playing ==> final(self)@.spawn_interval_ms
                == spec_spawn_interval_ms(final(self)@.score),
            final(self)@.score >= old(self)@.score,
    {
        self.last_collected_item = None;
        if !(self.state == GameState::Playing) {
            proof {
                assert(self@ =~= (GameView { last_collected: None, ..old(self)@ }));
            }
            return self.game_over;
        }
        self.elapsed_time = self.elapsed_time.saturating_add(delta_ms);
        let ghost v1 = self@;

        if self.elapsed_time < 500 && self.last_item_spawn_time == 0 && self.falling_items.len()
            == 0 {
            self.spawn_falling_items();
            self.last_item_spawn_time = self.elapsed_time;
            proof {
                assert(self@ =~= (GameView {
                    items: self@.items,
                    powerup_due: false,
                    rng_state: self@.rng_state,
                    last_spawn_ms: v1.elapsed_ms,
                    ..v1
                }));
                assert(spec_spawn_step(v1, self@));
            }
        } else if self.elapsed_time - self.last_item_spawn_time > self.spawn_interval {
            self.spawn_falling_items();
            self.last_item_spawn_time = self.elapsed_time;
            proof {
                assert(self@ =~= (GameView {
                    items: self@.items,
                    powerup_due: false,
                    rng_state: self@.rng_state,
                    last_spawn_ms: v1.elapsed_ms,
                    ..v1
                }));
                assert(spec_spawn_step(v1, self@));
            }
        } else {
            proof {
                assert(!spec_spawn_due(v1));
                assert(spec_spawn_step(v1, self@));
            }
        }
        let ghost mid = self@;
        self.expire_timers();

        let ghost vstart = self@;
        let ghost target = spec_resolve(
            GameView { items: Seq::empty(), ..vstart },
            vstart.items,
            delta_ms as int,
        );
        proof {
            assert(vstart == spec_expired(mid));
            assert(target == spec_resolve(
                GameView { items: Seq::<FallingItem>::empty(), ..self@ },
                vstart.items.skip(0),
                delta_ms as int,
            )) by {
                assert(vstart.items.skip(0) =~= vstart.items);
                assert(GameView { items: Seq::<FallingItem>::empty(), ..self@ } =~= (GameView {
                    items: Seq::<FallingItem>::empty(),
                    ..vstart
                }));
            }
        }

        let mut kept: Vec<FallingItem> = Vec::new();
        let mut i: usize = 0;
        while i < self.falling_items.len()
            invariant
                self.wf(),
                i <= self.falling_items@.len(),
                self.falling_items@ == vstart.items,
                self@.elapsed_ms == v1.elapsed_ms,
                self@.score >= v1.score,
                forall|k: int| 0 <= k < kept@.len() ==> (#[trigger] kept@[k]).wf(self.width as int),
                target == spec_resolve(
                    GameView { items: kept@, ..self@ },
                    vstart.items.skip(i as int),
                    delta_ms as int,
                ),
            decreases self.falling_items@.len() - i,
        {
            let ghost cur0 = GameView { items: kept@, ..self@ };
            let ghost pending = vstart.items.skip(i as int);
            let mut it = self.falling_items[i];
            proof {
                assert(pending[0] == vstart.items[i as int]);
                assert(pending.skip(1) =~= vstart.items.skip(i as int + 1));
            }
            it.update(delta_ms);
            if it.y > self.height as i64 {
                proof {
                    assert(spec_resolve(cur0, pending, delta_ms as int) == spec_resolve(
                        cur0,
                        pending.skip(1),
                        delta_ms as int,
                    ));
                }
            } else if it.collides_with(&self.labubu) {
                let ghost before = self@;
                let ghost kept_at_hit = kept@;
                let fatal = self.resolve_collision(it.item_type);
                proof {
                    lemma_apply_hit_frame(before, kept_at_hit, it.item_type);
                    assert((GameView { items: kept@, ..self@ }) =~= spec_apply_hit(
                        cur0,
                        it.item_type,
                    ));
                }
                if fatal {
                    let mut j: usize = i + 1;
                    while j < self.falling_items.len()
                        invariant
                            i < j <= self.falling_items@.len(),
                            kept@ == kept_at_hit + vstart.items.subrange(i as int + 1, j as int),
                        decreases self.falling_items@.len() - j,
                    {
                        let extra = self.falling_items[j];
                        kept.push(extra);
                        j = j + 1;
                        proof {
                            assert(kept@ =~= kept_at_hit + vstart.items.subrange(
                                i as int + 1,
                                j as int,
                            ));
                        }
                    }
                    proof {
                        assert(vstart.items.subrange(
                            i as int + 1,
                            vstart.items.len() as int,
                        ) =~= pending.skip(1));
                        assert(forall|k: int|
                            0 <= k < kept@.len() ==> (#[trigger] kept@[k]).wf(self.width as int));
                    }
                    self.falling_items = kept;
                    proof {
                        let v2 = spec_apply_hit(cur0, it.item_type);
                        assert(self@ =~= (GameView { items: v2.items + pending.skip(1), ..v2 }));
                        assert(target == self@);
                    }
                    self.refresh_difficulty();
                    proof {
                        assert(self@ == spec_refreshed_difficulty(target));
                        assert(spec_frame_rel(old(self)@, delta_ms as int, self@));
                    }
                    return true;
                }
                proof {
                    assert(spec_resolve(cur0, pending, delta_ms as int) == spec_resolve(
                        GameView { items: kept@, ..self@ },
                        pending.skip(1),
                        delta_ms as int,
                    ));
                }
            } else {
                kept.push(it);
                proof {
                    assert((GameView { items: kept@, ..self@ }) =~= (GameView {
                        items: cur0.items.push(it),
                        ..cur0
                    }));
                    assert(spec_resolve(cur0, pending, delta_ms as int) == spec_resolve(
                        GameView { items: kept@, ..self@ },
                        pending.skip(1),
                        delta_ms as int,
                    ));
                }
            }
            i = i + 1;
        }
        proof {
            assert(vstart.items.skip(i as int) =~= Seq::<FallingItem>::empty());
        }
        self.falling_items = kept;
        proof {
            assert(target == self@) by {
                assert((GameView { items: kept@, ..self@ }) =~= self@);
                assert(spec_resolve(self@, Seq::<FallingItem>::empty(), delta_ms as int) == self@);
            }
        }
        self.refresh_difficulty();
        proof {
            assert(self@ == spec_refreshed_difficulty(target));
            assert(spec_frame_rel(old(self)@, delta_ms as int, self@));
        }
        self.game_over
    }

    /// The authoritative score.
    pub fn get_score(&self) -> (score: u32)
        ensures
            score as int == self@.score,
    {
        self.score
    }

    /// The display score.
    pub fn get_visual_score(&self) -> (score: u32)
        ensures
            score as int == self@.visual_score,
    {
        self.visual_score
    }

    /// Remaining lives.
    pub fn get_lives(&self) -> (lives: u32)
        ensures
            lives as int == self@.lives,
    {
        self.lives
    }

    /// Whether the game has ended.
    pub fn is_game_over(&self) -> (over: bool)
        ensures
            over == self@.game_over,
    {
        self.game_over
    }

    /// The control state.
    pub fn get_state(&self) -> (state: GameState)
        ensures
            state == self@.state,
    {
        self.state
    }

    /// The collectible collected this frame, if any.
    pub fn get_last_collected_item(&self) -> (item: Option<FallingItemType>)
        ensures
            item == self@.last_collected,
    {
        self.last_collected_item
    }

    /// Total simulated time in milliseconds.
    pub fn get_elapsed_time(&self) -> (ms: u64)
        ensures
            ms as int == self@.elapsed_ms,
    {
        self.elapsed_time
    }

    /// Collected yellow collectibles.
    pub fn get_yellow_eggs_count(&self) -> (n: u32)
        ensures
            n as int == self@.yellow,
    {
        self.yellow_eggs
    }

    /// Collected pink collectibles. The name keeps the wire label the
    /// embedding environment has always used for this counter.
    pub fn get_blue_eggs_count(&self) -> (n: u32)
        ensures
            n as int == self@.pink,
    {
        self.pink_eggs
    }

    /// Collected purple collectibles.
    pub fn get_purple_eggs_count(&self) -> (n: u32)
        ensures
            n as int == self@.purple,
    {
        self.purple_eggs
    }

    /// Whole seconds of simulated time, saturating at the top of `u32`.
    pub fn get_game_time(&self) -> (secs: u32)
        ensures
            secs as int == if self@.elapsed_ms / 1000 > u32::MAX {
                u32::MAX as int
            } else {
                self@.elapsed_ms / 1000
            },
    {
        let s = self.elapsed_time / 1000;
        if s > u32::MAX as u64 {
            u32::MAX
        } else {
            s as u32
        }
    }
}

/// The state a restart leaves behind: everything zeroed and the player back
/// in the middle lane, with only the play area, lane geometry and randomness
/// source carried over.
pub open spec fn spec_restarted(v: GameView) -> GameView {
    GameView {
        state: GameState::Playing,
        player_index: 2,
        player_x: spec_lane_left(v.width, 2, PLAYER_SIZE_MPX as int),
        items: Seq::empty(),
        last_spawn_ms: 0,
        spawn_interval_ms: 1200,
        score: 0,
        visual_score: 0,
        lives: STARTING_LIVES as int,
        game_over: false,
        multiplier_x100: 100,
        elapsed_ms: 0,
        shield_until: None,
        double_until: None,
        slowdown_until: None,
        powerup_due: false,
        yellow: 0,
        pink: 0,
        purple: 0,
        last_collected: None,
        ..v
    }
}

/// Restarting twice in a row lands exactly where one restart lands.
pub proof fn lemma_restart_idempotent(v: GameView)
    ensures
        spec_restarted(spec_restarted(v)) == spec_restarted(v),
{
    assert(spec_restarted(spec_restarted(v)) =~= spec_restarted(v));
}

/// Whether a hit of the given kind ends the game: an unshielded hazard hit
/// with at most one life left.
pub open spec fn spec_hit_fatal(v: GameView, kind: FallingItemType) -> bool {
    &&& kind is Rock
    &&& v.shield_until is None
    &&& v.lives <= 1
}

/// The exact effect of one confirmed hit on the game's view.
///
/// A collectible adds its fixed value to the authoritative score and bumps
/// its counter — both skipped if the ledger sits so close to the top of `u32`
/// that the value no longer fits — arms a pending power-up when a new
/// hundred-point threshold is crossed, and refreshes the display score, which
/// shows the same value inflated by the collectible once more while
/// double-score is armed. An unshielded hazard costs one life and ends the
/// game at zero; a shielded one is absorbed without consuming the shield.
/// A timed power-up (re)arms its deadline ten seconds from now, and an extra
/// life adds one below the cap of five.
pub open spec fn spec_apply_hit(v: GameView, kind: FallingItemType) -> GameView {
    if spec_is_egg(kind) {
        let pv = spec_point_value(kind);
        let fits = v.score + pv <= u32::MAX;
        let new_score = if fits {
            v.score + pv
        } else {
            v.score
        };
        GameView {
            score: new_score,
            visual_score: if v.double_until is Some {
                if new_score + pv <= u32::MAX {
                    new_score + pv
                } else {
                    u32::MAX as int
                }
            } else {
                new_score
            },
            yellow: if fits && kind is YellowEgg {
                v.yellow + 1
            } else {
                v.yellow
            },
            pink: if fits && kind is PinkEgg {
                v.pink + 1
            } else {
                v.pink
            },
            purple: if fits && kind is PurpleEgg {
                v.purple + 1
            } else {
                v.purple
            },
            powerup_due: v.powerup_due || (fits && new_score / 100 > v.score / 100),
            last_collected: Some(kind),
            ..v
        }
    } else if kind is Rock {
        if v.shield_until is Some {
            v
        } else {
            let new_lives = if v.lives > 0 {
                v.lives - 1
            } else {
                0
            };
            if new_lives == 0 {
                GameView { lives: new_lives, game_over: true, state: GameState::GameOver, ..v }
            } else {
                GameView { lives: new_lives, ..v }
            }
        }
    } else if kind is Shield {
        GameView { shield_until: Some(spec_sat_add_u64(v.elapsed_ms, POWERUP_DURATION_MS as int)), ..v }
    } else if kind is DoublePoints {
        GameView { double_until: Some(spec_sat_add_u64(v.elapsed_ms, POWERUP_DURATION_MS as int)), ..v }
    } else if kind is SlowDown {
        GameView {
            slowdown_until: Some(spec_sat_add_u64(v.elapsed_ms, POWERUP_DURATION_MS as int)),
            ..v
        }
    } else {
        GameView {
            lives: if v.lives < MAX_LIVES {
                v.lives + 1
            } else {
                v.lives
            },
            ..v
        }
    }
}

/// One optional deadline after an expiry sweep at the given clock.
pub open spec fn spec_expire_one(elapsed: int, t: Option<int>) -> Option<int> {
    match t {
        Some(d) => if elapsed >= d {
            None
        } else {
            Some(d)
        },
        None => None,
    }
}

/// The view after the per-frame timer sweep: every reached deadline is
/// disarmed, and the display score returns to the authoritative score
/// whenever double-score ends up inactive.
pub open spec fn spec_expired(v: GameView) -> GameView {
    let db = spec_expire_one(v.elapsed_ms, v.double_until);
    GameView {
        shield_until: spec_expire_one(v.elapsed_ms, v.shield_until),
        double_until: db,
        slowdown_until: spec_expire_one(v.elapsed_ms, v.slowdown_until),
        visual_score: if db is None {
            v.score
        } else {
            v.visual_score
        },
        ..v
    }
}

/// The view after recomputing the difficulty outputs from the score and the
/// slow-down state.
pub open spec fn spec_refreshed_difficulty(v: GameView) -> GameView {
    GameView {
        multiplier_x100: spec_multiplier_x100(v.score, v.slowdown_until is Some),
        spawn_interval_ms: spec_spawn_interval_ms(v.score),
        ..v
    }
}

/// Whether a spawn event fires at this instant: right at the start of a run
/// (no spawn yet, nothing falling, within the first half second), or once
/// the spawn interval has passed since the last event.
pub open spec fn spec_spawn_due(v: GameView) -> bool {
    ||| (v.elapsed_ms < 500 && v.last_spawn_ms == 0 && v.items.len() == 0)
    ||| v.elapsed_ms - v.last_spawn_ms > v.spawn_interval_ms
}

/// The scheduler's turn in one frame: when no spawn is due nothing changes;
/// otherwise a batch satisfying `spec_spawned_items_ok` is appended — one
/// pending power-up plus exactly one more item than the batch-size draw of
/// the randomness state — the pending power-up flag is discharged, and the
/// event time is recorded. The randomness source alone decides which lanes
/// and kinds appear.
pub open spec fn spec_spawn_step(v: GameView, r: GameView) -> bool {
    if spec_spawn_due(v) {
        &&& r == (GameView {
            items: r.items,
            powerup_due: false,
            rng_state: r.rng_state,
            last_spawn_ms: v.elapsed_ms,
            ..v
        })
        &&& r.items.len() == v.items.len() + (if v.powerup_due {
            1int
        } else {
            0int
        }) + 1 + spec_gen_below(v.rng_state as u64, spec_batch_cap(v.score) as u32)
        &&& r.items.subrange(0, v.items.len() as int) == v.items
        &&& spec_spawned_items_ok(
            v.width,
            v.multiplier_x100,
            v.score,
            v.powerup_due,
            r.items.skip(v.items.len() as int),
        )
    } else {
        r == v
    }
}

/// The resolver's pass over the pending items, with `v.items` holding the
/// items already kept. Each pending item falls for `delta` milliseconds;
/// one past the bottom edge vanishes with no effect, one overlapping the
/// player is consumed by `spec_apply_hit`, and any other is kept. A fatal
/// hit stops the pass: the items not yet looked at survive unmoved.
pub open spec fn spec_resolve(v: GameView, pending: Seq<FallingItem>, delta: int) -> GameView
    decreases pending.len(),
{
    if pending.len() == 0 {
        v
    } else {
        let it = pending[0].spec_fallen(delta);
        let rest = pending.skip(1);
        if it.y > v.height {
            spec_resolve(v, rest, delta)
        } else if crate::entities::spec_overlap(
            it.x as int,
            it.y as int,
            it.width as int,
            it.height as int,
            v.player_x,
            v.height - PLAYER_SIZE_MPX - PLAYER_BOTTOM_GAP_MPX,
            PLAYER_SIZE_MPX as int,
            PLAYER_SIZE_MPX as int,
        ) {
            let v2 = spec_apply_hit(v, it.item_type);
            if spec_hit_fatal(v, it.item_type) {
                GameView { items: v2.items + rest, ..v2 }
            } else {
                spec_resolve(v2, rest, delta)
            }
        } else {
            spec_resolve(GameView { items: v.items.push(it), ..v }, rest, delta)
        }
    }
}

/// How one playing frame steps the view: the clock advances by the frame
/// delta (saturating at the top of `u64`), the scheduler may append a batch,
/// reached timer deadlines disarm, the resolver passes over all items, and
/// the difficulty outputs are then recomputed from the frame's final score
/// and slow-down state, ready for the next frame. Only the scheduler's
/// batch — decided by the randomness source — is related, not computed.
pub open spec fn spec_frame_rel(v: GameView, delta: int, r: GameView) -> bool {
    let v1 = GameView {
        last_collected: None,
        elapsed_ms: spec_sat_add_u64(v.elapsed_ms, delta),
        ..v
    };
    exists|mid: GameView|
        {
            &&& #[trigger] spec_spawn_step(v1, mid)
            &&& r == spec_refreshed_difficulty(
                spec_resolve(
                    GameView { items: Seq::empty(), ..spec_expired(mid) },
                    spec_expired(mid).items,
                    delta,
                ),
            )
        }
}

/// A hit reads and writes only the ledger-side fields, never the item
/// sequence: resolving the same kind against views that differ only in
/// their items gives outcomes that differ only in their items.
pub proof fn lemma_apply_hit_frame(v: GameView, items: Seq<FallingItem>, kind: FallingItemType)
    ensures
        spec_apply_hit(GameView { items: items, ..v }, kind) == (GameView {
            items: items,
            ..spec_apply_hit(v, kind)
        }),
        spec_hit_fatal(GameView { items: items, ..v }, kind) == spec_hit_fatal(v, kind),
{
    assert(spec_apply_hit(GameView { items: items, ..v }, kind) =~= (GameView {
        items: items,
        ..spec_apply_hit(v, kind)
    }));
}

/// Ceiling on one spawn event's regular batch: grows by one per hundred
/// points of score, capped at three.
pub open spec fn spec_batch_cap(score: int) -> int {
    if 1 + score / 100 < 3 {
        1 + score / 100
    } else {
        3
    }
}

/// What one spawn event may append, given the play-area width, the current
/// multiplier, the score and whether a power-up was pending: at least one
/// item; at most the batch cap plus the pending power-up; every new item
/// enters above the top of its own lane at the speed the multiplier
/// prescribes; no two new items share a lane; a pending power-up comes first
/// (slow-down only from four hundred points up) followed by weighted draws,
/// and without one every item is a weighted draw.
pub open spec fn spec_spawned_items_ok(
    width: int,
    multiplier_x100: int,
    score: int,
    powerup_due: bool,
    news: Seq<FallingItem>,
) -> bool {
    &&& 1 <= news.len()
    &&& news.len() <= (if powerup_due {
        1int
    } else {
        0int
    }) + spec_batch_cap(score)
    &&& (forall|i: int| 0 <= i < news.len() ==> (#[trigger] news[i]).wf(width))
    &&& (forall|i: int| 0 <= i < news.len() ==> (#[trigger] news[i]).y == SPAWN_Y_MPX)
    &&& (forall|i: int| 0 <= i < news.len() ==> (#[trigger] news[i]).speed == 2 * multiplier_x100)
    &&& (forall|i: int, j: int| 0 <= i < j < news.len() ==> news[i].lane != news[j].lane)
    &&& if powerup_due {
        &&& news.len() >= 2
        &&& spec_is_powerup(news[0].item_type)
        &&& (news[0].item_type is SlowDown ==> score >= 400)
        &&& (forall|i: int|
            1 <= i < news.len() ==> spec_is_draw_kind((#[trigger] news[i]).item_type))
    } else {
        forall|i: int| 0 <= i < news.len() ==> spec_is_draw_kind((#[trigger] news[i]).item_type)
    }
}

/// Append one spawn event's batch to `items`: the pending power-up first if
/// one is due, then one to three weighted draws, each new item in a lane no
/// other new item uses.
#[verifier::loop_isolation(false)]
fn spawn_batch(
    items: &mut Vec<FallingItem>,
    rng: &mut Rng,
    width: u64,
    multiplier_x100: u64,
    score: u32,
    powerup_due: bool,
)
    requires
        width <= EXTENT_MPX_MAX,
        multiplier_x100 <= MULTIPLIER_X100_MAX,
    ensures
        final(items)@.len() == old(items)@.len() + (if powerup_due {
            1int
        } else {
            0int
        }) + 1 + spec_gen_below(old(rng).state, spec_batch_cap(score as int) as u32),
        final(items)@.subrange(0, old(items)@.len() as int) == old(items)@,
        spec_spawned_items_ok(
            width as int,
            multiplier_x100 as int,
            score as int,
            powerup_due,
            final(items)@.skip(old(items)@.len() as int),
        ),
{
    let ghost orig_items = items@;
    let ghost base = items@.len() as int;
    let ghost pu: int = if powerup_due {
        1int
    } else {
        0int
    };
    let batch_level = score / 100;
    let max_items: u32 = if batch_level + 1 < 3 {
        batch_level + 1
    } else {
        3
    };
    let num_items = 1 + rng.gen_below(max_items);
    proof {
        assert(max_items as int == spec_batch_cap(score as int));
        assert(num_items as int == 1 + spec_gen_below(
            old(rng).state,
            spec_batch_cap(score as int) as u32,
        ));
    }

    // Lanes no new item has claimed yet, kept strictly increasing.
    let mut available: Vec<u32> = Vec::new();

    if powerup_due {
        let powerup_lane = rng.gen_below(5);
        let n_choices: u32 = if score >= 400 {
            4
        } else {
            3
        };
        let pick = rng.gen_below(n_choices);
        let kind = if pick == 0 {
            FallingItemType::Shield
        } else if pick == 1 {
            FallingItemType::DoublePoints
        } else if pick == 2 {
            FallingItemType::ExtraLife
        } else {
            FallingItemType::SlowDown
        };
        let item = FallingItem::new(width, multiplier_x100, powerup_lane, kind);
        items.push(item);
        let mut lane: u32 = 0;
        while lane < 5
            invariant
                lane <= 5,
                powerup_lane < 5,
                available@.len() == lane - (if powerup_lane < lane {
                    1int
                } else {
                    0int
                }),
                forall|k: int| 0 <= k < available@.len() ==> (#[trigger] available@[k]) < lane,
                forall|k: int|
                    0 <= k < available@.len() ==> (#[trigger] available@[k]) != powerup_lane,
                forall|k: int, j: int|
                    0 <= k < j < available@.len() ==> available@[k] != available@[j],
            decreases 5 - lane,
        {
            if lane != powerup_lane {
                available.push(lane);
            }
            lane = lane + 1;
        }
    } else {
        let mut lane: u32 = 0;
        while lane < 5
            invariant
                lane <= 5,
                available@.len() == lane,
                forall|k: int| 0 <= k < available@.len() ==> (#[trigger] available@[k]) < lane,
                forall|k: int, j: int|
                    0 <= k < j < available@.len() ==> available@[k] != available@[j],
            decreases 5 - lane,
        {
            available.push(lane);
            lane = lane + 1;
        }
    }
    let ghost avail_init = available@.len() as int;
    proof {
        assert(items@.subrange(0, base) =~= orig_items);
    }

    let mut spawned: u32 = 0;
    while spawned < num_items && available.len() > 0
        invariant
            width <= EXTENT_MPX_MAX,
            multiplier_x100 <= MULTIPLIER_X100_MAX,
            1 <= num_items <= spec_batch_cap(score as int),
            spawned <= num_items,
            avail_init == 5 - pu,
            pu == if powerup_due {
                1int
            } else {
                0int
            },
            available@.len() + spawned == avail_init,
            forall|k: int| 0 <= k < available@.len() ==> (#[trigger] available@[k]) < 5,
            forall|k: int, j: int|
                0 <= k < j < available@.len() ==> available@[k] != available@[j],
            items@.len() == base + pu + spawned,
            items@.subrange(0, base) == orig_items,
            forall|i: int| base <= i < items@.len() ==> (#[trigger] items@[i]).wf(width as int),
            forall|i: int| base <= i < items@.len() ==> (#[trigger] items@[i]).y == SPAWN_Y_MPX,
            forall|i: int|
                base <= i < items@.len() ==> (#[trigger] items@[i]).speed == 2 * multiplier_x100,
            forall|i: int, j: int|
                base <= i < j < items@.len() ==> items@[i].lane != items@[j].lane,
            powerup_due ==> items@.len() > base && spec_is_powerup(items@[base].item_type) && (
            items@[base].item_type is SlowDown ==> score >= 400),
            forall|i: int|
                base + pu <= i < items@.len() ==> spec_is_draw_kind(
                    (#[trigger] items@[i]).item_type,
                ),
            forall|k: int, i: int|
                0 <= k < available@.len() && base <= i < items@.len() ==> (available@[k] as int)
                    != items@[i].lane,
        decreases num_items - spawned,
    {
        let ghost avail_before = available@;
        let ghost items_before = items@;
        let li = rng.gen_below(available.len() as u32);
        let lane = available.remove(li as usize);
        let roll = rng.gen_below(100);
        let kind = roll_kind(roll);
        let item = FallingItem::new(width, multiplier_x100, lane, kind);
        items.push(item);
        spawned = spawned + 1;
        proof {
            assert(forall|k: int|
                0 <= k < available@.len() ==> (#[trigger] available@[k]) == if k < li {
                    avail_before[k]
                } else {
                    avail_before[k + 1]
                });
            assert(items@ == items_before.push(item));
            assert(forall|i: int|
                0 <= i < items_before.len() ==> (#[trigger] items@[i]) == items_before[i]);
            assert(items@.subrange(0, base) =~= items_before.subrange(0, base));
        }
    }
    proof {
        if spawned < num_items {
            // The loop can only stop short with no lane left, yet at most
            // four of the five lanes are ever claimed in one event.
            assert(available@.len() == 0);
            assert(false);
        }
        assert(items@.len() == base + pu + num_items);
        let news = items@.skip(base);
        assert(news.len() == items@.len() - base);
        assert(forall|i: int| 0 <= i < news.len() ==> (#[trigger] news[i]) == items@[base + i]);
        assert(spec_spawned_items_ok(
            width as int,
            multiplier_x100 as int,
            score as int,
            powerup_due,
            news,
        ));
    }
}

/// The bounds every reachable state keeps: the player's lane stays within
/// the five lanes, lives stay within zero and five, and the authoritative
/// score always equals the weighted sum of the collectible counters.
pub proof fn lemma_state_invariants(g: Game)
    requires
        g.wf(),
    ensures
        0 <= g@.player_index <= 4,
        0 <= g@.lives <= 5,
        g@.score == 5 * g@.yellow + 10 * g@.pink + 20 * g@.purple,
{
}

} // verus!
