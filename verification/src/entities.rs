//! Entity model: the player character and the falling items.
//!
//! All geometry lives in milli-pixels (thousandths of a pixel) so that lane
//! slots, bounding boxes and fall speeds are exact integers. The play area is
//! five lanes wide; the player is a 128-pixel box resting near the bottom,
//! falling items are 100-pixel boxes that enter above the top edge.

use vstd::prelude::*;
use vstd::arithmetic::div_mod::lemma_div_is_ordered;

verus! {

/// Milli-pixels per pixel.
pub const MPX_PER_PX: u64 = 1000;

/// Largest play-area extent in milli-pixels (the largest pixel extent a
/// 32-bit construction argument allows, times a thousand).
pub const EXTENT_MPX_MAX: u64 = 4294967295000;

/// Side of the player's square bounding box, in milli-pixels.
pub const PLAYER_SIZE_MPX: i64 = 128000;

/// Side of a falling item's square bounding box, in milli-pixels.
pub const ITEM_SIZE_MPX: i64 = 100000;

/// Gap between the player's box and the bottom edge, in milli-pixels.
pub const PLAYER_BOTTOM_GAP_MPX: i64 = 10000;

/// Inward shrink of the player's box on every side for collision tests,
/// in milli-pixels; it suppresses grazing hits.
pub const HITBOX_MARGIN_MPX: i64 = 30000;

/// Vertical position at which items enter: one item height above the top.
pub const SPAWN_Y_MPX: i64 = -100000;

/// Cap on an item's vertical position. It lies far beyond any reachable
/// play-area height, so a capped item counts as off-screen either way; the
/// cap only keeps the fall arithmetic total.
pub const Y_CAP_MPX: i64 = 5000000000000000;

/// Ceiling on any item's fall speed, in milli-pixels per millisecond; the
/// speed the difficulty curve assigns always stays below it.
pub const SPEED_MPX_PER_MS_MAX: u64 = 800000000;

/// The kinds of falling item, with their gameplay roles.
#[derive(Clone, Copy, PartialEq, Eq, Structural, Debug)]
pub enum FallingItemType {
    /// Collectible worth 5 points, drawn with weight 0.45.
    YellowEgg,
    /// Collectible worth 10 points, drawn with weight 0.20.
    PinkEgg,
    /// Collectible worth 20 points, drawn with weight 0.10.
    PurpleEgg,
    /// Hazard costing one life unless shielded, drawn with weight 0.25.
    Rock,
    /// Arms ten seconds of hazard protection.
    Shield,
    /// Arms ten seconds of inflated display score.
    DoublePoints,
    /// Grants one life, up to the cap of five.
    ExtraLife,
    /// Arms ten seconds of reduced difficulty.
    SlowDown,
}

/// Points a collectible awards; hazards and power-ups award none.
pub open spec fn spec_point_value(t: FallingItemType) -> int {
    match t {
        FallingItemType::YellowEgg => 5,
        FallingItemType::PinkEgg => 10,
        FallingItemType::PurpleEgg => 20,
        _ => 0,
    }
}

/// Whether a kind is one of the three collectibles.
pub open spec fn spec_is_egg(t: FallingItemType) -> bool {
    t is YellowEgg || t is PinkEgg || t is PurpleEgg
}

/// Whether a kind is a power-up: injected through the dedicated channel,
/// never through the weighted draw.
pub open spec fn spec_is_powerup(t: FallingItemType) -> bool {
    t is Shield || t is DoublePoints || t is ExtraLife || t is SlowDown
}

/// Whether a kind can come out of the weighted draw: a collectible or a rock.
pub open spec fn spec_is_draw_kind(t: FallingItemType) -> bool {
    spec_is_egg(t) || t is Rock
}

/// The kind a weighted roll in `0 .. 100` selects, partitioned at the
/// cumulative thresholds 45, 65 and 75.
pub open spec fn spec_roll_kind(roll: int) -> FallingItemType {
    if roll < 45 {
        FallingItemType::YellowEgg
    } else if roll < 65 {
        FallingItemType::PinkEgg
    } else if roll < 75 {
        FallingItemType::PurpleEgg
    } else {
        FallingItemType::Rock
    }
}

/// Left edge of a box of width `obj_w` centered in `lane`, for a play area
/// `width` milli-pixels across split into five equal lanes. The box may hang
/// over the lane (or the play area) when the lane is narrower than the box.
pub open spec fn spec_lane_left(width: int, lane: int, obj_w: int) -> int {
    let lane_w = width / 5;
    if lane_w >= obj_w {
        lane * lane_w + (lane_w - obj_w) / 2
    } else {
        lane * lane_w - (obj_w - lane_w) / 2
    }
}

/// The lane slot formula stays within one object width of the play area.
pub proof fn lemma_lane_left_bounds(width: int, lane: int, obj_w: int)
    requires
        0 <= width <= EXTENT_MPX_MAX,
        0 <= lane < 5,
        0 < obj_w <= 128000,
    ensures
        -64000 <= spec_lane_left(width, lane, obj_w) <= width,
{
    let lane_w = width / 5;
    lemma_div_is_ordered(0, width, 5);
    lemma_div_is_ordered(width, EXTENT_MPX_MAX as int, 5);
    assert(5 * lane_w <= width) by {
        vstd::arithmetic::div_mod::lemma_fundamental_div_mod(width, 5);
        vstd::arithmetic::div_mod::lemma_mod_bound(width, 5);
    }
    assert(0 <= lane * lane_w <= 4 * lane_w) by (nonlinear_arith)
        requires
            0 <= lane < 5,
            lane_w >= 0,
    ;
    if lane_w >= obj_w {
        lemma_div_is_ordered(0, lane_w - obj_w, 2);
        lemma_div_is_ordered(lane_w - obj_w, lane_w, 2);
        lemma_div_is_ordered(0, lane_w, 2);
        assert(lane_w / 2 <= lane_w);
    } else {
        lemma_div_is_ordered(0, obj_w - lane_w, 2);
        lemma_div_is_ordered(obj_w - lane_w, 128000, 2);
    }
}

/// Axis-aligned overlap between an item box and the player box shrunk
/// inward by the hit margin on all sides.
pub open spec fn spec_overlap(
    ix: int,
    iy: int,
    iw: int,
    ih: int,
    px: int,
    py: int,
    pw: int,
    ph: int,
) -> bool {
    !(ix + iw < px + HITBOX_MARGIN_MPX || ix > px + pw - HITBOX_MARGIN_MPX || iy + ih < py
        + HITBOX_MARGIN_MPX || iy > py + ph - HITBOX_MARGIN_MPX)
}

/// The weighted draw: map a uniform roll in `0 .. 100` to an item kind at
/// the cumulative thresholds 45, 65 and 75.
pub fn roll_kind(roll: u32) -> (kind: FallingItemType)
    requires
        roll < 100,
    ensures
        kind == spec_roll_kind(roll as int),
        spec_is_draw_kind(kind),
{
    if roll < 45 {
        FallingItemType::YellowEgg
    } else if roll < 65 {
        FallingItemType::PinkEgg
    } else if roll < 75 {
        FallingItemType::PurpleEgg
    } else {
        FallingItemType::Rock
    }
}

/// Left edge of a box of width `obj_w` centered in `lane` of a play area
/// `width_mpx` across.
pub fn lane_left(width_mpx: u64, lane: u32, obj_w: u64) -> (x: i64)
    requires
        width_mpx <= EXTENT_MPX_MAX,
        lane < 5,
        0 < obj_w <= 128000,
    ensures
        x == spec_lane_left(width_mpx as int, lane as int, obj_w as int),
        -64000 <= x <= width_mpx,
{
    proof {
        lemma_lane_left_bounds(width_mpx as int, lane as int, obj_w as int);
        lemma_div_is_ordered(width_mpx as int, EXTENT_MPX_MAX as int, 5);
    }
    let lane_w = width_mpx / 5;
    if lane_w >= obj_w {
        ((lane as u64) * lane_w + (lane_w - obj_w) / 2) as i64
    } else {
        ((lane as u64) * lane_w) as i64 - ((obj_w - lane_w) / 2) as i64
    }
}

/// The player character: a fixed-size box that moves between the five lane
/// slots and never leaves them.
pub struct Labubu {
    pub x: i64,
    pub y: i64,
    pub width: i64,
    pub height: i64,
    /// Current lane, always in `0 .. 5`.
    pub position_index: usize,
    /// The five lane slot positions for the player's box.
    pub positions: Vec<i64>,
}

impl Labubu {
    /// Structural invariant relative to the play area, in milli-pixels.
    pub open spec fn wf(self, width: int, height: int) -> bool {
        &&& self.width == PLAYER_SIZE_MPX
        &&& self.height == PLAYER_SIZE_MPX
        &&& self.y == height - PLAYER_SIZE_MPX - PLAYER_BOTTOM_GAP_MPX
        &&& self.positions@.len() == 5
        &&& (forall|i: int|
            0 <= i < 5 ==> self.positions@[i] == spec_lane_left(width, i, PLAYER_SIZE_MPX as int))
        &&& (forall|i: int| 0 <= i < 5 ==> -64000 <= #[trigger] self.positions@[i] <= width)
        &&& (self.position_index as int) < 5
        &&& self.x == self.positions@[self.position_index as int]
    }

    /// A player in the middle lane of a play area of the given size in
    /// milli-pixels.
    pub fn new(width_mpx: u64, height_mpx: u64) -> (r: Labubu)
        requires
            width_mpx <= EXTENT_MPX_MAX,
            height_mpx <= EXTENT_MPX_MAX,
        ensures
            r.wf(width_mpx as int, height_mpx as int),
            r.position_index == 2,
    {
        let mut positions: Vec<i64> = Vec::new();
        let mut lane: u32 = 0;
        while lane < 5
            invariant
                lane <= 5,
                positions@.len() == lane,
                width_mpx <= EXTENT_MPX_MAX,
                forall|i: int|
                    0 <= i < lane ==> positions@[i] == spec_lane_left(
                        width_mpx as int,
                        i,
                        PLAYER_SIZE_MPX as int,
                    ),
                forall|i: int| 0 <= i < lane ==> -64000 <= #[trigger] positions@[i] <= width_mpx,
            decreases 5 - lane,
        {
            let x = lane_left(width_mpx, lane, 128000);
            positions.push(x);
            lane = lane + 1;
        }
        let x = positions[2];
        Labubu {
            x,
            y: height_mpx as i64 - PLAYER_SIZE_MPX - PLAYER_BOTTOM_GAP_MPX,
            width: PLAYER_SIZE_MPX,
            height: PLAYER_SIZE_MPX,
            position_index: 2,
            positions,
        }
    }

    /// Move one lane to the left, unless already in the leftmost lane.
    pub fn move_left(&mut self)
        requires
            (old(self).position_index as int) < old(self).positions@.len(),
            old(self).x == old(self).positions@[old(self).position_index as int],
        ensures
            old(self).position_index > 0 ==> final(self).position_index == old(self).position_index - 1,
            old(self).position_index == 0 ==> final(self).position_index == 0,
            final(self).x == final(self).positions@[final(self).position_index as int],
            old(self).position_index == 0 ==> final(self).x == old(self).x,
            final(self).y == old(self).y,
            final(self).width == old(self).width,
            final(self).height == old(self).height,
            final(self).positions == old(self).positions,
    {
        if self.position_index > 0 {
            self.position_index = self.position_index - 1;
            self.x = self.positions[self.position_index];
        }
    }

    /// Move one lane to the right, unless already in the rightmost lane.
    pub fn move_right(&mut self)
        requires
            (old(self).position_index as int) < old(self).positions@.len(),
            old(self).x == old(self).positions@[old(self).position_index as int],
        ensures
            (old(self).position_index as int) < old(self).positions@.len() - 1 ==> final(self)
                .position_index == old(self).position_index + 1,
            (old(self).position_index as int) >= old(self).positions@.len() - 1 ==> final(self)
                .position_index == old(self).position_index,
            final(self).x == final(self).positions@[final(self).position_index as int],
            final(self).y == old(self).y,
            final(self).width == old(self).width,
            final(self).height == old(self).height,
            final(self).positions == old(self).positions,
    {
        if self.position_index < self.positions.len() - 1 {
            self.position_index = self.position_index + 1;
            self.x = self.positions[self.position_index];
        }
    }

    /// Back to the middle lane, as a game restart leaves the player.
    pub fn reset(&mut self)
        requires
            old(self).positions@.len() == 5,
        ensures
            final(self).position_index == 2,
            final(self).x == final(self).positions@[2],
            final(self).y == old(self).y,
            final(self).width == old(self).width,
            final(self).height == old(self).height,
            final(self).positions == old(self).positions,
    {
        self.position_index = 2;
        self.x = self.positions[2];
    }
}

/// A falling item: a fixed-size box descending through one lane at a fixed
/// speed, in milli-pixels per millisecond.
#[derive(Clone, Copy, PartialEq, Eq, Structural, Debug)]
pub struct FallingItem {
    pub x: i64,
    pub y: i64,
    pub width: i64,
    pub height: i64,
    /// Fall speed in milli-pixels per millisecond.
    pub speed: u64,
    pub item_type: FallingItemType,
    /// Lane the item falls through, always in `0 .. 5`.
    pub lane: usize,
}

impl FallingItem {
    /// Structural invariant relative to the play-area width, in milli-pixels.
    pub open spec fn wf(self, width: int) -> bool {
        &&& self.width == ITEM_SIZE_MPX
        &&& self.height == ITEM_SIZE_MPX
        &&& (self.lane as int) < 5
        &&& self.x == spec_lane_left(width, self.lane as int, ITEM_SIZE_MPX as int)
        &&& -64000 <= self.x <= width
        &&& SPAWN_Y_MPX <= self.y <= Y_CAP_MPX
        &&& self.speed <= SPEED_MPX_PER_MS_MAX
    }

    /// A fresh item of the given kind entering above the top of `lane`, with
    /// the fall speed the difficulty multiplier prescribes: two milli-pixels
    /// per millisecond for each hundredth (that is, 200 pixels per second at
    /// multiplier one).
    pub fn new(width_mpx: u64, multiplier_x100: u64, lane: u32, item_type: FallingItemType) -> (r:
        FallingItem)
        requires
            width_mpx <= EXTENT_MPX_MAX,
            lane < 5,
            multiplier_x100 <= 400000000,
        ensures
            r.wf(width_mpx as int),
            r.item_type == item_type,
            r.lane == lane as int,
            r.y == SPAWN_Y_MPX,
            r.speed == 2 * multiplier_x100,
    {
        let x = lane_left(width_mpx, lane, 100000);
        FallingItem {
            x,
            y: SPAWN_Y_MPX,
            width: ITEM_SIZE_MPX,
            height: ITEM_SIZE_MPX,
            speed: 2 * multiplier_x100,
            item_type,
            lane: lane as usize,
        }
    }

    /// Where a fall of `delta_ms` milliseconds takes the item: straight down
    /// by speed times time, capped at `Y_CAP_MPX`.
    pub open spec fn spec_fallen(self, delta_ms: int) -> FallingItem {
        let target = self.y + self.speed * delta_ms;
        FallingItem {
            y: if target > Y_CAP_MPX { Y_CAP_MPX } else { target as i64 },
            ..self
        }
    }

    /// Advance the fall by `delta_ms` milliseconds.
    pub fn update(&mut self, delta_ms: u64)
        requires
            SPAWN_Y_MPX <= old(self).y <= Y_CAP_MPX,
        ensures
            *final(self) == old(self).spec_fallen(delta_ms as int),
    {
        match self.speed.checked_mul(delta_ms) {
            None => {
                self.y = Y_CAP_MPX;
            },
            Some(d) => {
                if d > 9000000000000000 {
                    self.y = Y_CAP_MPX;
                } else {
                    let target = self.y + (d as i64);
                    self.y = if target > Y_CAP_MPX {
                        Y_CAP_MPX
                    } else {
                        target
                    };
                }
            },
        }
    }

    /// Whether the item's box overlaps the player's box shrunk inward by the
    /// hit margin.
    pub fn collides_with(&self, labubu: &Labubu) -> (hit: bool)
        requires
            -64000 <= self.x <= EXTENT_MPX_MAX,
            SPAWN_Y_MPX <= self.y <= Y_CAP_MPX,
            0 <= self.width <= PLAYER_SIZE_MPX,
            0 <= self.height <= PLAYER_SIZE_MPX,
            -64000 <= labubu.x <= EXTENT_MPX_MAX,
            -238000 <= labubu.y <= EXTENT_MPX_MAX,
            0 <= labubu.width <= PLAYER_SIZE_MPX,
            0 <= labubu.height <= PLAYER_SIZE_MPX,
        ensures
            hit == spec_overlap(
                self.x as int,
                self.y as int,
                self.width as int,
                self.height as int,
                labubu.x as int,
                labubu.y as int,
                labubu.width as int,
                labubu.height as int,
            ),
    {
        !(self.x + self.width < labubu.x + HITBOX_MARGIN_MPX || self.x > labubu.x + labubu.width
            - HITBOX_MARGIN_MPX || self.y + self.height < labubu.y + HITBOX_MARGIN_MPX || self.y
            > labubu.y + labubu.height - HITBOX_MARGIN_MPX)
    }

    /// Points this item awards when collected.
    pub fn get_point_value(&self) -> (points: i32)
        ensures
            points == spec_point_value(self.item_type),
    {
        match self.item_type {
            FallingItemType::YellowEgg => 5,
            FallingItemType::PinkEgg => 10,
            FallingItemType::PurpleEgg => 20,
            FallingItemType::Rock => 0,
            FallingItemType::Shield => 0,
            FallingItemType::DoublePoints => 0,
            FallingItemType::ExtraLife => 0,
            FallingItemType::SlowDown => 0,
        }
    }

    /// Whether the item is a collectible.
    pub fn is_egg(&self) -> (egg: bool)
        ensures
            egg == spec_is_egg(self.item_type),
    {
        match self.item_type {
            FallingItemType::YellowEgg | FallingItemType::PinkEgg | FallingItemType::PurpleEgg => true,
            FallingItemType::Rock
            | FallingItemType::Shield
            | FallingItemType::DoublePoints
            | FallingItemType::ExtraLife
            | FallingItemType::SlowDown => false,
        }
    }
}

} // verus!
