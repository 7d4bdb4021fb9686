use vstd::prelude::*;

use crate::game_manager::CompileLanguage;
use crate::games::compiling::Compiling;
use crate::hook::HookState;
use crate::item::{Item, ItemType};
use crate::keys::Key;
use crate::rng::rand_below;
use crate::translation::{Language, Translations};

verus! {

/// The phase a single game is in. No game logic runs in `Welcome`; in
/// `Paused` only the build-log overlay ticks.
#[derive(Clone, Copy, PartialEq, Eq, Structural, Debug)]
pub enum GameState {
    Welcome,
    Playing,
    Paused,
}

/// Angle unit: milli-radians. The swing covers the whole circle sawtooth-wise
/// from `-PI_MILLI` up to `PI_MILLI` and then jumps back.
pub const PI_MILLI: i32 = 3142;

/// A quarter turn in milli-radians.
pub const HALF_PI_MILLI: i32 = 1571;

/// The hook's resting height (the "ceiling"), in milli-cells.
pub const HOOK_MIN_Y: i32 = 2000;

/// How fast the hook travels downward while extending, in milli-cells per
/// millisecond (20 cells per second).
pub const EXTEND_RATE: i32 = 20;

/// Base upward speed while retracting with nothing caught, in milli-cells per
/// millisecond (15 cells per second); a caught item's weight divides it.
pub const RETRACT_RATE: i32 = 15;

/// The longest stretch of time one tick will simulate, in milliseconds. A
/// longer gap between updates (the game was backgrounded) is clamped so one
/// tick never teleports the hook.
pub const MAX_TICK_MS: u32 = 1000;

/// The highest difficulty tier; the level is capped here.
pub const MAX_LEVEL: i32 = 10;

/// The grappling-hook mining game. All geometry is in fixed-point
/// milli-cells: 1000 per character cell of the viewport, so positions keep
/// sub-cell precision in plain integers.
pub struct GoldMiner {
    /// The swing pivot's column, in milli-cells: the middle of the viewport.
    pub hook_x: i32,
    /// The hook tip's row, in milli-cells; `HOOK_MIN_Y` is the resting height.
    pub hook_y: i32,
    /// The swing angle, in milli-radians, within `[-PI_MILLI, PI_MILLI]`.
    pub hook_angle: i32,
    pub hook_state: HookState,
    pub score: i64,
    /// Timestamp of the last simulated tick, in milliseconds.
    pub last_update: u64,
    pub items: Vec<Item>,
    pub caught_item: Option<Item>,
    /// Viewport size, in character cells.
    pub window_width: u16,
    pub window_height: u16,
    pub level: i32,
    pub items_collected: i32,
    pub game_state: GameState,
    pub translations: Translations,
    pub compiling: Compiling,
}

/// The angular speed of the idle swing at a level, in milli-radians per
/// second: a base of half a radian per second, scaled up monotonically with
/// the level until it doubles at the top tier.
pub open spec fn spec_angular_speed(level: int) -> int {
    if level <= 1 {
        500
    } else if level >= 10 {
        1000
    } else {
        500 + (level - 1) * 50
    }
}

/// The sawtooth wrap: past `PI_MILLI` the angle jumps to `-PI_MILLI`.
pub open spec fn spec_wrap_angle(a: int) -> int {
    if a > PI_MILLI as int {
        -(PI_MILLI as int)
    } else {
        a
    }
}

/// How far the angle advances in `delta` milliseconds at a level.
pub open spec fn spec_angle_inc(delta: int, level: int) -> int {
    delta * spec_angular_speed(level) / 1000
}

/// A piecewise-linear stand-in for the sine on `[-PI_MILLI, PI_MILLI]`,
/// scaled by 1000: zero at 0 and at the ends, the extremes at a quarter turn
/// either way. It keeps the swing's shape (periodic sweep over the full
/// width) with integer arithmetic only.
pub open spec fn spec_sin_milli(a: int) -> int {
    if a < 0 {
        -spec_sin_milli_nonneg(-a)
    } else {
        spec_sin_milli_nonneg(a)
    }
}

/// The nonnegative half of `spec_sin_milli`.
pub open spec fn spec_sin_milli_nonneg(a: int) -> int {
    if a <= HALF_PI_MILLI as int {
        a * 1000 / (HALF_PI_MILLI as int)
    } else {
        (PI_MILLI as int - a) * 1000 / (HALF_PI_MILLI as int)
    }
}

/// The horizontal reach of the swing for a viewport width, in milli-cells:
/// half the width minus a ten-cell margin.
pub open spec fn spec_swing_range(width: int) -> int {
    width * 500 - 10_000
}

/// `s * range / 1000` rounded toward zero, as the executable arithmetic
/// computes it for a nonnegative `range`.
pub open spec fn spec_scaled(s: int, range: int) -> int {
    if s >= 0 {
        s * range / 1000
    } else {
        -((-s) * range / 1000)
    }
}

/// The hook tip's column for a pivot at `width * 500`, in milli-cells.
pub open spec fn spec_screen_x(width: int, angle: int) -> int {
    width * 500 + spec_scaled(spec_sin_milli(angle), spec_swing_range(width))
}

/// Whether the hook tip at `(sx, y)` lands the item: within the item's size
/// plus a one-cell slack on both axes.
pub open spec fn spec_hits(it: Item, sx: int, y: int) -> bool {
    &&& -((it.size + 1000) as int) < sx - it.x < (it.size + 1000) as int
    &&& -((it.size + 1000) as int) < y - it.y < (it.size + 1000) as int
}

/// The depth below which an extending hook gives up and turns back: five
/// cells above the bottom edge, in milli-cells.
pub open spec fn spec_floor_y(height: int) -> int {
    height * 1000 - 5000
}

/// How far the hook retracts in `delta` milliseconds while carrying `caught`:
/// the base speed divided by the carried weight (1000 = unit weight).
pub open spec fn spec_retract_dy(delta: int, caught: Option<Item>) -> int {
    match caught {
        Some(it) => delta * (RETRACT_RATE as int) * 1000 / (it.weight as int),
        None => delta * (RETRACT_RATE as int),
    }
}

/// The level the difficulty parameters actually use: capped at the top tier.
pub open spec fn spec_eff_level(level: int) -> int {
    if level < MAX_LEVEL as int {
        level
    } else {
        MAX_LEVEL as int
    }
}

/// Item counts per level: they all grow monotonically with the level.
pub open spec fn spec_big_gold_count(level: int) -> int {
    2 + (spec_eff_level(level) - 1) / 2
}

pub open spec fn spec_small_gold_count(level: int) -> int {
    4 + (spec_eff_level(level) - 1)
}

pub open spec fn spec_stone_count(level: int) -> int {
    3 + (spec_eff_level(level) - 1)
}

/// The horizontal band items are generated in, in milli-cells: a ten-cell
/// margin on each side, shrunk for narrow viewports but never empty.
pub open spec fn spec_gen_min_x(width: int) -> int {
    vstd::math::min(10_000, width * 250)
}

pub open spec fn spec_gen_max_x(width: int) -> int {
    vstd::math::max(width * 1000 - 10_000, spec_gen_min_x(width) + 1000)
}

/// The vertical band items are generated in, in milli-cells: below the swing,
/// above the bottom margin, shrunk for short viewports but never empty.
pub open spec fn spec_gen_min_y(height: int) -> int {
    vstd::math::min(15_000, height * 250)
}

pub open spec fn spec_gen_max_y(height: int) -> int {
    vstd::math::max(height * 1000 - 5000, spec_gen_min_y(height) + 1000)
}

/// Whether an item lies inside the generation band of a `width`-by-`height`
/// viewport.
pub open spec fn spec_in_gen_bounds(it: Item, width: int, height: int) -> bool {
    &&& spec_gen_min_x(width) <= it.x < spec_gen_max_x(width)
    &&& spec_gen_min_y(height) <= it.y < spec_gen_max_y(height)
}

/// The weight of a big gold nugget, small gold nugget, and (per size unit) a
/// stone at a level, in milli-units.
pub open spec fn spec_big_gold_weight(level: int) -> int {
    2000 + spec_eff_level(level) * 200
}

pub open spec fn spec_small_gold_weight(level: int) -> int {
    1000 + spec_eff_level(level) * 100
}

pub open spec fn spec_stone_weight(size: int, level: int) -> int {
    size * (1500 + spec_eff_level(level) * 100) / 1000
}

/// What a freshly generated big gold nugget looks like.
pub open spec fn spec_is_big_gold(it: Item, level: int) -> bool {
    &&& it.item_type == ItemType::Gold
    &&& it.value == 200
    &&& it.size == 2000
    &&& it.weight == spec_big_gold_weight(level)
}

pub open spec fn spec_is_small_gold(it: Item, level: int) -> bool {
    &&& it.item_type == ItemType::Gold
    &&& it.value == 100
    &&& it.size == 1000
    &&& it.weight == spec_small_gold_weight(level)
}

pub open spec fn spec_is_stone(it: Item, level: int) -> bool {
    &&& it.item_type == ItemType::Stone
    &&& it.value == -50
    &&& 1000 <= it.size < 2000
    &&& it.weight == spec_stone_weight(it.size as int, level)
}

/// What `generate_items` promises of a freshly generated item set: the exact
/// category counts for the level, in generation order, every item inside the
/// viewport's generation band and well formed.
pub open spec fn spec_items_generated(items: Seq<Item>, level: int, width: int, height: int) -> bool {
    let big = spec_big_gold_count(level);
    let small = spec_small_gold_count(level);
    let stones = spec_stone_count(level);
    &&& items.len() == big + small + stones
    &&& forall|i: int| 0 <= i < big ==> spec_is_big_gold(#[trigger] items[i], level)
    &&& forall|i: int| big <= i < big + small ==> spec_is_small_gold(#[trigger] items[i], level)
    &&& forall|i: int| big + small <= i < items.len() ==> spec_is_stone(#[trigger] items[i], level)
    &&& forall|i: int| 0 <= i < items.len() ==> spec_in_gen_bounds(#[trigger] items[i], width, height)
    &&& forall|i: int| 0 <= i < items.len() ==> (#[trigger] items[i]).wf()
}

/// Whether a sequence of items still holds any gold.
pub open spec fn spec_has_gold(items: Seq<Item>) -> bool {
    exists|i: int| 0 <= i < items.len() && (#[trigger] items[i]).item_type == ItemType::Gold
}

/// The item set with every item at position `(x, y)` taken out. Removal is by
/// position, so a caught item cannot linger in the active set even if another
/// item was generated on the very same spot.
pub open spec fn spec_remove_at_pos(items: Seq<Item>, x: int, y: int) -> Seq<Item> {
    items.filter(|it: Item| it.x != x || it.y != y)
}

/// The index of the first item the hook tip at `(sx, y)` lands, searching
/// from position `i` on: list order decides ties.
pub open spec fn spec_first_hit_from(items: Seq<Item>, sx: int, y: int, i: int) -> Option<int>
    decreases items.len() - i,
{
    if i < 0 || i >= items.len() {
        None
    } else if spec_hits(items[i], sx, y) {
        Some(i)
    } else {
        spec_first_hit_from(items, sx, y, i + 1)
    }
}

/// `score + v` clamped to the score's range; in play the clamp is never hit.
pub open spec fn spec_add_score(s: int, v: int) -> int {
    if s + v > i64::MAX {
        i64::MAX as int
    } else if s + v < i64::MIN {
        i64::MIN as int
    } else {
        s + v
    }
}

/// The items-collected counter after one more catch; it sticks at its
/// maximum rather than overflowing.
pub open spec fn spec_inc_collected(c: int) -> int {
    if c >= i32::MAX {
        i32::MAX as int
    } else {
        c + 1
    }
}

/// The fields no simulation step ever touches: the viewport, the pivot, the
/// phase, and the two helper services. (The tick timestamp is handled by
/// `update` itself and deliberately not constrained here.)
pub open spec fn spec_step_frame(pre: GoldMiner, post: GoldMiner) -> bool {
    &&& post.window_width == pre.window_width
    &&& post.window_height == pre.window_height
    &&& post.hook_x == pre.hook_x
    &&& post.game_state == pre.game_state
    &&& post.translations == pre.translations
    &&& post.compiling == pre.compiling
}

/// One tick of the idle swing: the angle advances by the level's speed and
/// wraps sawtooth-wise; nothing else moves.
pub open spec fn spec_idle_rel(pre: GoldMiner, post: GoldMiner, delta: int) -> bool {
    &&& post.hook_angle as int == spec_wrap_angle(
        pre.hook_angle as int + spec_angle_inc(delta, pre.level as int),
    )
    &&& post.hook_y == pre.hook_y
    &&& post.hook_state == pre.hook_state
    &&& post.score == pre.score
    &&& post.items@ == pre.items@
    &&& post.caught_item == pre.caught_item
    &&& post.level == pre.level
    &&& post.items_collected == pre.items_collected
    &&& spec_step_frame(pre, post)
}

/// One tick of the extending hook: it travels down; with nothing caught yet
/// it lands the first item it hits, detaches it from the active set and turns
/// back; past the floor it turns back empty-handed.
pub open spec fn spec_extend_rel(pre: GoldMiner, post: GoldMiner, delta: int) -> bool {
    let y2 = pre.hook_y + delta * EXTEND_RATE as int;
    let sx = spec_screen_x(pre.window_width as int, pre.hook_angle as int);
    let floor = spec_floor_y(pre.window_height as int);
    &&& post.hook_y as int == y2
    &&& post.hook_angle == pre.hook_angle
    &&& post.score == pre.score
    &&& post.level == pre.level
    &&& post.items_collected == pre.items_collected
    &&& spec_step_frame(pre, post)
    &&& if pre.caught_item is None {
        match spec_first_hit_from(pre.items@, sx, y2, 0) {
            Some(i) => {
                &&& post.caught_item == Some(pre.items@[i])
                &&& post.items@ == spec_remove_at_pos(
                    pre.items@,
                    pre.items@[i].x as int,
                    pre.items@[i].y as int,
                )
                &&& post.hook_state == HookState::Retracting
            },
            None => {
                &&& post.caught_item is None
                &&& post.items@ == pre.items@
                &&& post.hook_state == (if y2 > floor {
                    HookState::Retracting
                } else {
                    HookState::Extending
                })
            },
        }
    } else {
        &&& post.caught_item == pre.caught_item
        &&& post.items@ == pre.items@
        &&& post.hook_state == (if y2 > floor {
            HookState::Retracting
        } else {
            HookState::Extending
        })
    }
}

/// One tick of the retracting hook: it travels up, slowed by the caught
/// item's weight. Reaching the ceiling it banks the caught item's value,
/// and when no gold is left it steps up a level (capped) and regenerates the
/// item set; either way the hook ends idle and empty.
pub open spec fn spec_retract_rel(pre: GoldMiner, post: GoldMiner, delta: int) -> bool {
    let dy = spec_retract_dy(delta, pre.caught_item);
    let y2 = pre.hook_y - dy;
    &&& post.hook_angle == pre.hook_angle
    &&& spec_step_frame(pre, post)
    &&& if y2 > HOOK_MIN_Y as int {
        &&& post.hook_y as int == y2
        &&& post.hook_state == HookState::Retracting
        &&& post.score == pre.score
        &&& post.caught_item == pre.caught_item
        &&& post.items@ == pre.items@
        &&& post.level == pre.level
        &&& post.items_collected == pre.items_collected
    } else {
        &&& post.hook_y == HOOK_MIN_Y
        &&& post.hook_state == HookState::Idle
        &&& post.caught_item is None
        &&& match pre.caught_item {
            Some(it) => {
                &&& post.score as int == spec_add_score(pre.score as int, it.value as int)
                &&& if spec_has_gold(pre.items@) {
                    &&& post.items@ == pre.items@
                    &&& post.level == pre.level
                    &&& post.items_collected as int == spec_inc_collected(
                        pre.items_collected as int,
                    )
                } else {
                    &&& post.level as int == (if pre.level < MAX_LEVEL {
                        pre.level as int + 1
                    } else {
                        MAX_LEVEL as int
                    })
                    &&& spec_items_generated(
                        post.items@,
                        post.level as int,
                        pre.window_width as int,
                        pre.window_height as int,
                    )
                    &&& post.items_collected == 0
                }
            },
            None => {
                &&& post.score == pre.score
                &&& post.items@ == pre.items@
                &&& post.level == pre.level
                &&& post.items_collected == pre.items_collected
            },
        }
    }
}

/// The clamped time one tick simulates: the elapsed wall-clock milliseconds,
/// never negative and never more than `MAX_TICK_MS`.
pub open spec fn spec_delta_ms(last: int, now: int) -> int {
    if now <= last {
        0
    } else if now - last > MAX_TICK_MS as int {
        MAX_TICK_MS as int
    } else {
        now - last
    }
}

impl GoldMiner {
    /// The structural invariant every reachable game state satisfies.
    pub open spec fn wf(self) -> bool {
        &&& -(PI_MILLI as int) <= self.hook_angle <= PI_MILLI as int
        &&& 20 <= self.window_width
        &&& 10 <= self.window_height
        &&& self.hook_x == self.window_width as int * 500
        &&& HOOK_MIN_Y as int <= self.hook_y <= 65_550_000
        &&& 1 <= self.level <= MAX_LEVEL as int
        &&& self.hook_state == HookState::Idle ==> self.hook_y == HOOK_MIN_Y as int
        &&& self.hook_state == HookState::Extending ==> self.hook_y <= 65_530_000
        &&& forall|i: int| 0 <= i < self.items@.len() ==> (#[trigger] self.items@[i]).wf()
        &&& match self.caught_item {
            Some(it) => it.wf(),
            None => true,
        }
    }

    /// A fresh game for a viewport of the given size: hook resting in the
    /// middle of the ceiling, level one, no score, a fresh item set, and the
    /// welcome screen showing.
    pub fn new(width: u16, height: u16) -> (g: GoldMiner)
        requires
            20 <= width,
            10 <= height,
        ensures
            g.wf(),
            g.game_state == GameState::Welcome,
            g.hook_state == HookState::Idle,
            g.hook_y == HOOK_MIN_Y,
            g.hook_angle == 0,
            g.score == 0,
            g.level == 1,
            g.items_collected == 0,
            g.caught_item is None,
            g.window_width == width,
            g.window_height == height,
            g.last_update == 0,
            spec_items_generated(g.items@, 1, width as int, height as int),
    {
        let mut game = GoldMiner {
            hook_x: width as i32 * 500,
            hook_y: HOOK_MIN_Y,
            hook_angle: 0,
            hook_state: HookState::Idle,
            score: 0,
            last_update: 0,
            items: Vec::new(),
            caught_item: None,
            window_width: width,
            window_height: height,
            level: 1,
            items_collected: 0,
            game_state: GameState::Welcome,
            translations: Translations::new(),
            compiling: Compiling::new(),
        };
        game.generate_items();
        game
    }

    /// The capped level the difficulty parameters use.
    fn eff_level(&self) -> (l: i32)
        requires
            1 <= self.level <= MAX_LEVEL as int,
        ensures
            l == spec_eff_level(self.level as int),
            1 <= l <= MAX_LEVEL as int,
    {
        if self.level < MAX_LEVEL {
            self.level
        } else {
            MAX_LEVEL
        }
    }

    /// Draws a position inside `[lo, hi)`, in milli-cells.
    fn gen_coord(lo: i32, hi: i32) -> (r: i32)
        requires
            -100_000_000 <= lo < hi <= 100_000_000,
        ensures
            lo <= r < hi,
    {
        let span: u32 = (hi - lo) as u32;
        let offset = rand_below(span);
        lo + offset as i32
    }

    /// Discards the current item set and generates the one for the current
    /// level: big gold, then small gold, then stones, each drawn at a random
    /// spot inside the viewport's generation band. A viewport too small to
    /// play in (under 20 by 10 cells) gets an empty set.
    pub fn generate_items(&mut self)
        ensures
            final(self).items_collected == 0,
            old(self).window_width >= 20 && old(self).window_height >= 10
                && 1 <= old(self).level <= MAX_LEVEL as int ==> spec_items_generated(
                final(self).items@,
                old(self).level as int,
                old(self).window_width as int,
                old(self).window_height as int,
            ),
            old(self).window_width < 20 || old(self).window_height < 10
                ==> final(self).items@.len() == 0,
            final(self).hook_x == old(self).hook_x,
            final(self).hook_y == old(self).hook_y,
            final(self).hook_angle == old(self).hook_angle,
            final(self).hook_state == old(self).hook_state,
            final(self).score == old(self).score,
            final(self).last_update == old(self).last_update,
            final(self).caught_item == old(self).caught_item,
            final(self).window_width == old(self).window_width,
            final(self).window_height == old(self).window_height,
            final(self).level == old(self).level,
            final(self).game_state == old(self).game_state,
            final(self).translations == old(self).translations,
            final(self).compiling == old(self).compiling,
    {
        self.items = Vec::new();
        self.items_collected = 0;

        if self.window_width < 20 || self.window_height < 10 {
            return;
        }
        if self.level < 1 || self.level > MAX_LEVEL {
            return;
        }

        let w: i32 = self.window_width as i32;
        let h: i32 = self.window_height as i32;
        let min_x: i32 = if 10_000 < w * 250 {
            10_000
        } else {
            w * 250
        };
        let max_x: i32 = if w * 1000 - 10_000 > min_x + 1000 {
            w * 1000 - 10_000
        } else {
            min_x + 1000
        };
        let min_y: i32 = if 15_000 < h * 250 {
            15_000
        } else {
            h * 250
        };
        let max_y: i32 = if h * 1000 - 5000 > min_y + 1000 {
            h * 1000 - 5000
        } else {
            min_y + 1000
        };
        let level = self.eff_level();
        let ghost lvl = self.level as int;
        let ghost ww = self.window_width as int;
        let ghost wh = self.window_height as int;

        let big_gold_count: i32 = 2 + (level - 1) / 2;
        let small_gold_count: i32 = 4 + (level - 1);
        let stone_count: i32 = 3 + (level - 1);

        let mut fresh: Vec<Item> = Vec::new();
        let mut n: i32 = 0;
        while n < big_gold_count
            invariant
                0 <= n <= big_gold_count,
                big_gold_count == spec_big_gold_count(lvl),
                level == spec_eff_level(lvl),
                1 <= level <= MAX_LEVEL as int,
                fresh@.len() == n,
                -100_000_000 <= min_x < max_x <= 100_000_000,
                -100_000_000 <= min_y < max_y <= 100_000_000,
                min_x == spec_gen_min_x(ww),
                max_x == spec_gen_max_x(ww),
                min_y == spec_gen_min_y(wh),
                max_y == spec_gen_max_y(wh),
                forall|i: int| 0 <= i < n ==> spec_is_big_gold(#[trigger] fresh@[i], lvl),
                forall|i: int| 0 <= i < n ==> spec_in_gen_bounds(#[trigger] fresh@[i], ww, wh),
                forall|i: int| 0 <= i < n ==> (#[trigger] fresh@[i]).wf(),
            decreases big_gold_count - n,
        {
            fresh.push(Item {
                x: Self::gen_coord(min_x, max_x),
                y: Self::gen_coord(min_y, max_y),
                item_type: ItemType::Gold,
                value: 200,
                size: 2000,
                weight: 2000 + level * 200,
            });
            n = n + 1;
        }

        let mut n2: i32 = 0;
        while n2 < small_gold_count
            invariant
                0 <= n2 <= small_gold_count,
                big_gold_count == spec_big_gold_count(lvl),
                small_gold_count == spec_small_gold_count(lvl),
                level == spec_eff_level(lvl),
                1 <= level <= MAX_LEVEL as int,
                fresh@.len() == big_gold_count + n2,
                -100_000_000 <= min_x < max_x <= 100_000_000,
                -100_000_000 <= min_y < max_y <= 100_000_000,
                min_x == spec_gen_min_x(ww),
                max_x == spec_gen_max_x(ww),
                min_y == spec_gen_min_y(wh),
                max_y == spec_gen_max_y(wh),
                forall|i: int| 0 <= i < big_gold_count ==> spec_is_big_gold(
                    #[trigger] fresh@[i],
                    lvl,
                ),
                forall|i: int| big_gold_count <= i < big_gold_count + n2 ==> spec_is_small_gold(
                    #[trigger] fresh@[i],
                    lvl,
                ),
                forall|i: int| 0 <= i < fresh@.len() ==> spec_in_gen_bounds(
                    #[trigger] fresh@[i],
                    ww,
                    wh,
                ),
                forall|i: int| 0 <= i < fresh@.len() ==> (#[trigger] fresh@[i]).wf(),
            decreases small_gold_count - n2,
        {
            fresh.push(Item {
                x: Self::gen_coord(min_x, max_x),
                y: Self::gen_coord(min_y, max_y),
                item_type: ItemType::Gold,
                value: 100,
                size: 1000,
                weight: 1000 + level * 100,
            });
            n2 = n2 + 1;
        }

        let mut n3: i32 = 0;
        while n3 < stone_count
            invariant
                0 <= n3 <= stone_count,
                big_gold_count == spec_big_gold_count(lvl),
                small_gold_count == spec_small_gold_count(lvl),
                stone_count == spec_stone_count(lvl),
                level == spec_eff_level(lvl),
                1 <= level <= MAX_LEVEL as int,
                fresh@.len() == big_gold_count + small_gold_count + n3,
                -100_000_000 <= min_x < max_x <= 100_000_000,
                -100_000_000 <= min_y < max_y <= 100_000_000,
                min_x == spec_gen_min_x(ww),
                max_x == spec_gen_max_x(ww),
                min_y == spec_gen_min_y(wh),
                max_y == spec_gen_max_y(wh),
                forall|i: int| 0 <= i < big_gold_count ==> spec_is_big_gold(
                    #[trigger] fresh@[i],
                    lvl,
                ),
                forall|i: int| big_gold_count <= i < big_gold_count + small_gold_count
                    ==> spec_is_small_gold(#[trigger] fresh@[i], lvl),
                forall|i: int| big_gold_count + small_gold_count <= i < fresh@.len()
                    ==> spec_is_stone(#[trigger] fresh@[i], lvl),
                forall|i: int| 0 <= i < fresh@.len() ==> spec_in_gen_bounds(
                    #[trigger] fresh@[i],
                    ww,
                    wh,
                ),
                forall|i: int| 0 <= i < fresh@.len() ==> (#[trigger] fresh@[i]).wf(),
            decreases stone_count - n3,
        {
            let size: i32 = 1000 + rand_below(1000) as i32;
            let scale: i32 = 1500 + level * 100;
            assert(1000 * 1500 <= size * scale <= 2000 * 2500) by (nonlinear_arith)
                requires
                    1000 <= size < 2000,
                    1500 <= scale <= 2500,
            ;
            let weight: i32 = size * scale / 1000;
            fresh.push(Item {
                x: Self::gen_coord(min_x, max_x),
                y: Self::gen_coord(min_y, max_y),
                item_type: ItemType::Stone,
                value: -50,
                size,
                weight,
            });
            n3 = n3 + 1;
        }
        self.items = fresh;
    }

    /// The idle swing's angular speed at the current level, in milli-radians
    /// per second.
    fn angular_speed(&self) -> (s: i32)
        requires
            1 <= self.level <= MAX_LEVEL as int,
        ensures
            s == spec_angular_speed(self.level as int),
            500 <= s <= 1000,
    {
        if self.level <= 1 {
            500
        } else if self.level >= 10 {
            1000
        } else {
            500 + (self.level - 1) * 50
        }
    }

    /// The piecewise-linear sine stand-in, scaled by 1000.
    pub fn sin_milli(a: i32) -> (r: i32)
        requires
            -(PI_MILLI as int) <= a <= PI_MILLI as int,
        ensures
            r as int == spec_sin_milli(a as int),
            -1000 <= r <= 1000,
    {
        if a < 0 {
            -Self::sin_milli_nonneg(-a)
        } else {
            Self::sin_milli_nonneg(a)
        }
    }

    /// The nonnegative half of the sine stand-in.
    fn sin_milli_nonneg(a: i32) -> (r: i32)
        requires
            0 <= a <= PI_MILLI as int,
        ensures
            r as int == spec_sin_milli_nonneg(a as int),
            0 <= r <= 1000,
    {
        if a <= HALF_PI_MILLI {
            a * 1000 / HALF_PI_MILLI
        } else {
            (PI_MILLI - a) * 1000 / HALF_PI_MILLI
        }
    }

    /// The hook tip's current column on screen, in milli-cells.
    pub fn hook_screen_x(&self) -> (sx: i32)
        requires
            -(PI_MILLI as int) <= self.hook_angle <= PI_MILLI as int,
            20 <= self.window_width,
        ensures
            sx as int == spec_screen_x(self.window_width as int, self.hook_angle as int),
            -33_000_000 <= sx <= 66_000_000,
    {
        let s = Self::sin_milli(self.hook_angle);
        let sw: i64 = self.window_width as i64 * 500 - 10_000;
        assert(0 <= sw <= 32_757_500);
        let off: i64 = if s >= 0 {
            assert(0 <= s as i64 * sw <= 1000 * 32_757_500) by (nonlinear_arith)
                requires
                    0 <= s <= 1000,
                    0 <= sw <= 32_757_500,
            ;
            s as i64 * sw / 1000
        } else {
            assert(0 <= (-s) as i64 * sw <= 1000 * 32_757_500) by (nonlinear_arith)
                requires
                    0 < -s <= 1000,
                    0 <= sw <= 32_757_500,
            ;
            -((-s) as i64 * sw / 1000)
        };
        let base: i64 = self.window_width as i64 * 500;
        (base + off) as i32
    }

    /// One idle tick: the swing advances and wraps; nothing else moves.
    fn idle_swing(&mut self, delta: u32)
        requires
            old(self).wf(),
            old(self).hook_state == HookState::Idle,
            delta <= MAX_TICK_MS,
        ensures
            final(self).wf(),
            final(self).last_update == old(self).last_update,
            spec_idle_rel(*old(self), *final(self), delta as int),
    {
        let speed = self.angular_speed();
        assert(0 <= (delta as i32) * speed <= 1_000_000) by (nonlinear_arith)
            requires
                0 <= delta <= 1000,
                500 <= speed <= 1000,
        ;
        let inc: i32 = (delta as i32) * speed / 1000;
        let next: i32 = self.hook_angle + inc;
        self.hook_angle = if next > PI_MILLI {
            -PI_MILLI
        } else {
            next
        };
    }

    /// One extending tick: travel down, land the first item hit (detaching it
    /// from the active set), or give up past the floor.
    fn extend_step(&mut self, delta: u32)
        requires
            old(self).wf(),
            old(self).hook_state == HookState::Extending,
            delta <= MAX_TICK_MS,
        ensures
            final(self).wf(),
            final(self).last_update == old(self).last_update,
            spec_extend_rel(*old(self), *final(self), delta as int),
    {
        let ghost pre = *self;
        let y2: i32 = self.hook_y + (delta as i32) * EXTEND_RATE;
        self.hook_y = y2;

        if self.caught_item.is_none() {
            let sx = self.hook_screen_x();
            let n = self.items.len();
            let mut i: usize = 0;
            let mut hit: Option<usize> = None;
            while i < n
                invariant_except_break
                    hit is None,
                invariant
                    0 <= i <= n,
                    n == self.items@.len(),
                    *self == (GoldMiner { hook_y: y2, ..pre }),
                    self.hook_y == y2,
                    forall|j: int| 0 <= j < i ==> !spec_hits(
                        #[trigger] self.items@[j],
                        sx as int,
                        y2 as int,
                    ),
                    spec_first_hit_from(self.items@, sx as int, y2 as int, 0)
                        == spec_first_hit_from(self.items@, sx as int, y2 as int, i as int),
                    sx as int == spec_screen_x(pre.window_width as int, pre.hook_angle as int),
                    -33_000_000 <= sx <= 66_000_000,
                    HOOK_MIN_Y as int <= y2 <= 66_000_000,
                    pre.wf(),
                ensures
                    match hit {
                        Some(h) => h < n && spec_first_hit_from(
                            self.items@,
                            sx as int,
                            y2 as int,
                            0,
                        ) == Some(h as int),
                        None => spec_first_hit_from(self.items@, sx as int, y2 as int, 0)
                            is None,
                    },
                    *self == (GoldMiner { hook_y: y2, ..pre }),
                    sx as int == spec_screen_x(pre.window_width as int, pre.hook_angle as int),
                decreases n - i,
            {
                let it = self.items[i];
                proof {
                    assert(pre.items@[i as int].wf());
                }
                let dx: i32 = sx - it.x;
                let dy: i32 = y2 - it.y;
                let lim: i32 = it.size + 1000;
                if -lim < dx && dx < lim && -lim < dy && dy < lim {
                    proof {
                        assert(spec_hits(self.items@[i as int], sx as int, y2 as int));
                        assert(spec_first_hit_from(self.items@, sx as int, y2 as int, i as int)
                            == Some(i as int));
                    }
                    hit = Some(i);
                    break;
                }
                i = i + 1;
            }
            match hit {
                Some(h) => {
                    let it = self.items[h];
                    self.caught_item = Some(it);
                    self.hook_state = HookState::Retracting;
                    self.remove_items_at(it.x, it.y);
                    proof {
                        assert forall|k: int| 0 <= k < self.items@.len() implies (
                        #[trigger] self.items@[k]).wf() by {
                            assert(pre.items@.contains(self.items@[k]));
                            let j = choose|j: int|
                                0 <= j < pre.items@.len() && pre.items@[j] == self.items@[k];
                            assert(pre.items@[j].wf());
                        }
                    }
                },
                None => (),
            }
        }

        if self.hook_y > self.window_height as i32 * 1000 - 5000 {
            self.hook_state = HookState::Retracting;
        }
    }

    /// Takes every item at position `(x, y)` out of the active set.
    fn remove_items_at(&mut self, x: i32, y: i32)
        ensures
            final(self).items@ == spec_remove_at_pos(old(self).items@, x as int, y as int),
            forall|k: int| 0 <= k < final(self).items@.len() ==> old(self).items@.contains(
                #[trigger] final(self).items@[k],
            ),
            *final(self) == (GoldMiner { items: final(self).items, ..*old(self) }),
    {
        let ghost pre_items = self.items@;
        let mut kept: Vec<Item> = Vec::new();
        let mut i: usize = 0;
        while i < self.items.len()
            invariant
                0 <= i <= self.items@.len(),
                self.items@ == pre_items,
                kept@ == spec_remove_at_pos(pre_items.take(i as int), x as int, y as int),
                forall|k: int| 0 <= k < kept@.len() ==> pre_items.contains(#[trigger] kept@[k]),
            decreases self.items@.len() - i,
        {
            let it = self.items[i];
            proof {
                reveal(Seq::filter);
                assert(pre_items.take(i as int + 1).drop_last() =~= pre_items.take(i as int));
                assert(pre_items.take(i as int + 1).last() == pre_items[i as int]);
            }
            if it.x != x || it.y != y {
                kept.push(it);
            }
            i = i + 1;
        }
        proof {
            assert(pre_items.take(pre_items.len() as int) =~= pre_items);
        }
        self.items = kept;
    }

    /// One retracting tick: travel up against the caught weight; at the
    /// ceiling bank the catch, possibly level up and regenerate, and go idle.
    fn retract_step(&mut self, delta: u32)
        requires
            old(self).wf(),
            old(self).hook_state == HookState::Retracting,
            delta <= MAX_TICK_MS,
        ensures
            final(self).wf(),
            final(self).last_update == old(self).last_update,
            spec_retract_rel(*old(self), *final(self), delta as int),
    {
        let dy: i32 = match &self.caught_item {
            Some(it) => (delta as i32) * RETRACT_RATE * 1000 / it.weight,
            None => (delta as i32) * RETRACT_RATE,
        };
        let y2: i32 = self.hook_y - dy;
        if y2 > HOOK_MIN_Y {
            self.hook_y = y2;
        } else {
            self.hook_y = HOOK_MIN_Y;
            let caught = self.caught_item;
            self.caught_item = None;
            match caught {
                Some(it) => {
                    self.score = Self::add_score(self.score, it.value);
                    self.items_collected = if self.items_collected >= i32::MAX {
                        i32::MAX
                    } else {
                        self.items_collected + 1
                    };
                    let gold_remaining = self.has_gold_remaining();
                    if !gold_remaining {
                        self.level = if self.level < MAX_LEVEL {
                            self.level + 1
                        } else {
                            MAX_LEVEL
                        };
                        self.generate_items();
                    }
                },
                None => (),
            }
            self.hook_state = HookState::Idle;
        }
    }

    /// `s + v` clamped to the score's range.
    fn add_score(s: i64, v: i32) -> (r: i64)
        ensures
            r as int == spec_add_score(s as int, v as int),
    {
        match s.checked_add(v as i64) {
            Some(t) => t,
            None => if v >= 0 {
                i64::MAX
            } else {
                i64::MIN
            },
        }
    }

    /// Routes one key event by phase: Enter starts from the welcome screen;
    /// while playing, Space releases an idle hook and P or Esc pauses; the
    /// same keys resume from the pause screen. Everything else is a no-op.
    pub fn handle_input(&mut self, key: Key)
        ensures
            *final(self) == (GoldMiner {
                game_state: final(self).game_state,
                hook_state: final(self).hook_state,
                ..*old(self)
            }),
            final(self).game_state == (match old(self).game_state {
                GameState::Welcome => if key == Key::Enter {
                    GameState::Playing
                } else {
                    GameState::Welcome
                },
                GameState::Playing => if key == Key::Char('p') || key == Key::Esc {
                    GameState::Paused
                } else {
                    GameState::Playing
                },
                GameState::Paused => if key == Key::Char('p') || key == Key::Esc {
                    GameState::Playing
                } else {
                    GameState::Paused
                },
            }),
            final(self).hook_state == (if old(self).game_state == GameState::Playing && key
                == Key::Char(' ') && old(self).hook_state == HookState::Idle {
                HookState::Extending
            } else {
                old(self).hook_state
            }),
            old(self).wf() ==> final(self).wf(),
    {
        match self.game_state {
            GameState::Welcome => {
                if key == Key::Enter {
                    self.game_state = GameState::Playing;
                }
            },
            GameState::Playing => {
                match key {
                    Key::Char(' ') => {
                        if self.hook_state == HookState::Idle {
                            self.hook_state = HookState::Extending;
                        }
                    },
                    Key::Char('p') | Key::Esc => {
                        self.game_state = GameState::Paused;
                    },
                    _ => (),
                }
            },
            GameState::Paused => {
                if key == Key::Char('p') || key == Key::Esc {
                    self.game_state = GameState::Playing;
                }
            },
        }
    }

    /// One tick at wall-clock time `now_ms`. Paused, only the overlay ticks;
    /// on the welcome screen only the clock is refreshed; playing, the hook
    /// advances by the clamped elapsed time: it swings while idle, else it
    /// extends (possibly landing an item and turning back in the same tick)
    /// or retracts.
    pub fn update(&mut self, now_ms: u64)
        requires
            old(self).wf(),
        ensures
            final(self).wf(),
            old(self).game_state == GameState::Paused ==> *final(self) == (GoldMiner {
                compiling: final(self).compiling,
                ..*old(self)
            }) && crate::games::compiling::spec_ticked(
                old(self).compiling,
                final(self).compiling,
            ),
            old(self).game_state == GameState::Welcome ==> *final(self) == (GoldMiner {
                last_update: now_ms,
                ..*old(self)
            }),
            old(self).game_state == GameState::Playing ==> {
                let delta = spec_delta_ms(old(self).last_update as int, now_ms as int);
                &&& final(self).last_update == now_ms
                &&& (old(self).hook_state == HookState::Idle ==> spec_idle_rel(
                    *old(self),
                    *final(self),
                    delta,
                ))
                &&& (old(self).hook_state == HookState::Extending ==> (
                (final(self).hook_state == HookState::Extending && spec_extend_rel(
                    *old(self),
                    *final(self),
                    delta,
                )) || (exists|mid: GoldMiner|
                    spec_extend_rel(*old(self), mid, delta) && mid.hook_state
                        == HookState::Retracting && #[trigger] spec_retract_rel(
                        mid,
                        *final(self),
                        delta,
                    ))))
                &&& (old(self).hook_state == HookState::Retracting ==> spec_retract_rel(
                    *old(self),
                    *final(self),
                    delta,
                ))
            },
    {
        if self.game_state == GameState::Paused {
            self.compiling.update();
            return;
        }
        if self.game_state == GameState::Welcome {
            self.last_update = now_ms;
            return;
        }
        let delta: u32 = if now_ms <= self.last_update {
            0
        } else {
            let d: u64 = now_ms - self.last_update;
            if d > MAX_TICK_MS as u64 {
                MAX_TICK_MS
            } else {
                d as u32
            }
        };
        self.last_update = now_ms;
        proof {
            assert(delta as int == spec_delta_ms(old(self).last_update as int, now_ms as int));
        }

        if self.hook_state == HookState::Idle {
            self.idle_swing(delta);
            proof {
                assert(spec_idle_rel(*old(self), *self, delta as int));
            }
        } else if self.hook_state == HookState::Extending {
            let ghost pre = *self;
            self.extend_step(delta);
            let ghost mid = *self;
            if self.hook_state == HookState::Retracting {
                self.retract_step(delta);
                proof {
                    assert(spec_extend_rel(pre, mid, delta as int) && mid.hook_state
                        == HookState::Retracting && spec_retract_rel(
                        mid,
                        *self,
                        delta as int,
                    ));
                }
            }
        } else {
            self.retract_step(delta);
        }
    }

    /// Whether any gold is left in the active set.
    fn has_gold_remaining(&self) -> (b: bool)
        ensures
            b == spec_has_gold(self.items@),
    {
        let mut i: usize = 0;
        while i < self.items.len()
            invariant
                0 <= i <= self.items@.len(),
                forall|j: int| 0 <= j < i ==> (#[trigger] self.items@[j]).item_type
                    != ItemType::Gold,
            decreases self.items@.len() - i,
        {
            if matches!(self.items[i].item_type, ItemType::Gold) {
                return true;
            }
            i = i + 1;
        }
        false
    }
}

/// While the hook is idle, any tick that simulates at least two milliseconds
/// strictly advances the swing angle — jumping to the far end on wraparound,
/// and only then — and leaves the hook's depth untouched.
pub proof fn lemma_idle_tick_swings(pre: GoldMiner, post: GoldMiner, delta: int)
    requires
        pre.wf(),
        pre.hook_state == HookState::Idle,
        spec_idle_rel(pre, post, delta),
        2 <= delta <= MAX_TICK_MS as int,
    ensures
        post.hook_y == pre.hook_y,
        post.hook_angle > pre.hook_angle || post.hook_angle == -PI_MILLI,
        post.hook_angle == -PI_MILLI ==> pre.hook_angle as int + spec_angle_inc(
            delta,
            pre.level as int,
        ) > PI_MILLI as int,
{
    let speed = spec_angular_speed(pre.level as int);
    assert(500 <= speed <= 1000);
    assert(delta * speed >= 1000) by (nonlinear_arith)
        requires
            delta >= 2,
            speed >= 500,
    ;
    assert(spec_angle_inc(delta, pre.level as int) >= 1);
}

/// An item, once caught, is gone from the active set the moment it is caught:
/// no item at the caught item's position survives the catching tick.
pub proof fn lemma_caught_item_leaves_active_set(pre: GoldMiner, post: GoldMiner, delta: int)
    requires
        pre.wf(),
        pre.hook_state == HookState::Extending,
        pre.caught_item is None,
        spec_extend_rel(pre, post, delta),
        post.caught_item is Some,
    ensures
        (match post.caught_item {
            Some(it) => forall|j: int|
                0 <= j < post.items@.len() ==> !((#[trigger] post.items@[j]).x == it.x
                    && post.items@[j].y == it.y),
            None => true,
        }),
{
    let y2 = pre.hook_y + delta * EXTEND_RATE as int;
    let sx = spec_screen_x(pre.window_width as int, pre.hook_angle as int);
    match spec_first_hit_from(pre.items@, sx, y2, 0) {
        Some(i) => {
            let it = pre.items@[i];
            let pred = |cand: Item| cand.x != it.x as int || cand.y != it.y as int;
            assert(post.items@ == pre.items@.filter(pred));
            assert forall|j: int| 0 <= j < post.items@.len() implies !((#[trigger] post.items@[j]).x
                == it.x && post.items@[j].y == it.y) by {
                pre.items@.lemma_filter_pred(pred, j);
                assert(pred(pre.items@.filter(pred)[j]));
            }
        },
        None => {
            assert(false);
        },
    }
}

/// While the hook retracts without reaching the ceiling, the active set and
/// the carried item stay exactly as they are: a caught item stays absent from
/// the active set until retraction completes.
pub proof fn lemma_retract_keeps_items(pre: GoldMiner, post: GoldMiner, delta: int)
    requires
        pre.wf(),
        pre.hook_state == HookState::Retracting,
        spec_retract_rel(pre, post, delta),
        pre.hook_y - spec_retract_dy(delta, pre.caught_item) > HOOK_MIN_Y as int,
    ensures
        post.items@ == pre.items@,
        post.caught_item == pre.caught_item,
        post.score == pre.score,
        post.hook_state == HookState::Retracting,
{
}

/// A full extend-catch-retract cycle banks the caught item's value exactly
/// once: the tick on which the hook reaches the ceiling adds the value to the
/// score, empties the hook and goes idle.
pub proof fn lemma_retract_completion_banks_score(pre: GoldMiner, post: GoldMiner, delta: int)
    requires
        pre.wf(),
        pre.hook_state == HookState::Retracting,
        spec_retract_rel(pre, post, delta),
        pre.hook_y - spec_retract_dy(delta, pre.caught_item) <= HOOK_MIN_Y as int,
        i64::MIN as int + 1000 <= pre.score <= i64::MAX as int - 1000,
    ensures
        (match pre.caught_item {
            Some(it) => post.score == pre.score + it.value,
            None => post.score == pre.score,
        }),
        post.caught_item is None,
        post.hook_state == HookState::Idle,
        post.hook_y == HOOK_MIN_Y,
{
    match pre.caught_item {
        Some(it) => {
            assert(it.wf());
            assert(post.score as int == spec_add_score(pre.score as int, it.value as int));
        },
        None => {},
    }
}

/// Ticks that are not a completed retraction never touch the score: the idle
/// swing, every extending tick (catching included), and every retracting tick
/// that stays below the ceiling keep it unchanged, so a cycle's value is
/// counted exactly once.
pub proof fn lemma_score_changes_only_at_ceiling(pre: GoldMiner, post: GoldMiner, delta: int)
    requires
        pre.wf(),
        spec_idle_rel(pre, post, delta) || spec_extend_rel(pre, post, delta) || (spec_retract_rel(
            pre,
            post,
            delta,
        ) && pre.hook_y - spec_retract_dy(delta, pre.caught_item) > HOOK_MIN_Y as int),
    ensures
        post.score == pre.score,
{
}

/// The level only ever moves when the active set holds no gold at all, and a
/// level change regenerates the item set with every item inside the
/// viewport's generation band.
pub proof fn lemma_level_up_needs_no_gold(pre: GoldMiner, post: GoldMiner, delta: int)
    requires
        pre.wf(),
        spec_retract_rel(pre, post, delta),
    ensures
        post.level != pre.level ==> !spec_has_gold(pre.items@) && pre.caught_item is Some,
        post.level != pre.level ==> post.level as int == pre.level as int + 1 && post.level
            <= MAX_LEVEL,
        post.level != pre.level ==> spec_items_generated(
            post.items@,
            post.level as int,
            pre.window_width as int,
            pre.window_height as int,
        ),
        post.level != pre.level ==> forall|i: int| 0 <= i < post.items@.len()
            ==> spec_in_gen_bounds(
            #[trigger] post.items@[i],
            pre.window_width as int,
            pre.window_height as int,
        ),
{
}

/// One character cell of the rendered gold-miner board, by content class;
/// the front end picks glyph and color per class.
#[derive(Clone, Copy, PartialEq, Eq, Structural, Debug)]
pub enum GoldCell {
    Empty,
    GoldBig,
    GoldSmall,
    StoneBig,
    StoneSmall,
    Hook,
    Rope,
}

/// What the gold-miner render produces for one frame: the welcome text
/// screen, the board as a cell grid, a resize notice for a degenerate
/// viewport, or the pause overlay's visible log lines.
pub enum GoldFrame {
    Welcome,
    Board(Vec<Vec<GoldCell>>),
    TooSmall,
    Paused(Vec<String>),
}

/// Whether cell `(x, y)` lies inside the item's square bounding region.
pub open spec fn spec_covers(it: Item, x: int, y: int) -> bool {
    &&& -(it.size as int) <= x * 1000 - it.x <= it.size as int
    &&& -(it.size as int) <= y * 1000 - it.y <= it.size as int
}

/// The cell class an item draws: large items get the large glyph class.
pub open spec fn spec_item_glyph(it: Item) -> GoldCell {
    match it.item_type {
        ItemType::Gold => if it.size > 1500 {
            GoldCell::GoldBig
        } else {
            GoldCell::GoldSmall
        },
        ItemType::Stone => if it.size > 1500 {
            GoldCell::StoneBig
        } else {
            GoldCell::StoneSmall
        },
        ItemType::Nothing => GoldCell::Empty,
    }
}

/// The item layer of cell `(x, y)`: the last item in list order that covers
/// the cell wins, and an empty (`Nothing`) item never draws over anything.
pub open spec fn spec_item_cell(items: Seq<Item>, x: int, y: int) -> GoldCell
    decreases items.len(),
{
    if items.len() == 0 {
        GoldCell::Empty
    } else if spec_covers(items.last(), x, y) && items.last().item_type != ItemType::Nothing {
        spec_item_glyph(items.last())
    } else {
        spec_item_cell(items.drop_last(), x, y)
    }
}

/// The item layer with the carried item drawn over it: a caught item hangs
/// its own size below the hook tip instead of at its old board position.
pub open spec fn spec_overlay_cell(g: GoldMiner, x: int, y: int) -> GoldCell {
    let base = spec_item_cell(g.items@, x, y);
    match g.caught_item {
        Some(c) => {
            let sx = spec_screen_x(g.window_width as int, g.hook_angle as int);
            let cy = g.hook_y as int + c.size as int;
            if (-(c.size as int) <= x * 1000 - sx <= c.size as int) && (-(c.size as int) <= y
                * 1000 - cy <= c.size as int) && c.item_type != ItemType::Nothing {
                spec_item_glyph(c)
            } else {
                base
            }
        },
        None => base,
    }
}

/// The full cell class of `(x, y)`: the hook glyph at the hook tip's cell,
/// the rope along the column above it, and the item layers under both.
pub open spec fn spec_cell_at(g: GoldMiner, x: int, y: int) -> GoldCell {
    let sx = spec_screen_x(g.window_width as int, g.hook_angle as int);
    let hx = sx / 1000;
    let hy = g.hook_y as int / 1000;
    if y == hy && x == hx {
        GoldCell::Hook
    } else if x == hx && y * 1000 < g.hook_y as int {
        GoldCell::Rope
    } else {
        spec_overlay_cell(g, x, y)
    }
}

/// The difficulty's shape: the swing speed, the item counts and the item
/// weights all grow monotonically with the level, and all of them stop
/// growing at the top tier.
pub proof fn lemma_difficulty_monotone(l1: int, l2: int)
    requires
        l1 <= l2,
    ensures
        spec_angular_speed(l1) <= spec_angular_speed(l2) <= spec_angular_speed(MAX_LEVEL as int),
        spec_big_gold_count(l1) <= spec_big_gold_count(l2) <= spec_big_gold_count(
            MAX_LEVEL as int,
        ),
        spec_small_gold_count(l1) <= spec_small_gold_count(l2) <= spec_small_gold_count(
            MAX_LEVEL as int,
        ),
        spec_stone_count(l1) <= spec_stone_count(l2) <= spec_stone_count(MAX_LEVEL as int),
        spec_big_gold_weight(l1) <= spec_big_gold_weight(l2) <= spec_big_gold_weight(
            MAX_LEVEL as int,
        ),
        spec_small_gold_weight(l1) <= spec_small_gold_weight(l2) <= spec_small_gold_weight(
            MAX_LEVEL as int,
        ),
{
}

/// The idle swing and the extending travel never touch the level.
pub proof fn lemma_level_constant_outside_retract(pre: GoldMiner, post: GoldMiner, delta: int)
    requires
        pre.wf(),
        spec_idle_rel(pre, post, delta) || spec_extend_rel(pre, post, delta),
    ensures
        post.level == pre.level,
{
}

/// `v / 1000` rounded toward minus infinity, as cell coordinates are derived
/// from milli-cell positions.
fn floor_div_1000(v: i32) -> (r: i32)
    requires
        -2_000_000_000 < v,
    ensures
        r as int == v as int / 1000,
{
    if v >= 0 {
        v / 1000
    } else {
        -((-v + 999) / 1000)
    }
}

impl GoldMiner {
    /// The item layer of one cell: the last covering item in list order.
    fn item_cell(items: &Vec<Item>, x: u16, y: u16) -> (c: GoldCell)
        requires
            forall|i: int| 0 <= i < items@.len() ==> (#[trigger] items@[i]).wf(),
        ensures
            c == spec_item_cell(items@, x as int, y as int),
    {
        let mut cell = GoldCell::Empty;
        let mut i: usize = 0;
        while i < items.len()
            invariant
                0 <= i <= items@.len(),
                forall|j: int| 0 <= j < items@.len() ==> (#[trigger] items@[j]).wf(),
                cell == spec_item_cell(items@.take(i as int), x as int, y as int),
            decreases items@.len() - i,
        {
            let it = items[i];
            let dx: i32 = x as i32 * 1000 - it.x;
            let dy: i32 = y as i32 * 1000 - it.y;
            let covers = -it.size <= dx && dx <= it.size && -it.size <= dy && dy <= it.size;
            if covers && !matches!(it.item_type, ItemType::Nothing) {
                cell = match it.item_type {
                    ItemType::Gold => if it.size > 1500 {
                        GoldCell::GoldBig
                    } else {
                        GoldCell::GoldSmall
                    },
                    ItemType::Stone => if it.size > 1500 {
                        GoldCell::StoneBig
                    } else {
                        GoldCell::StoneSmall
                    },
                    ItemType::Nothing => GoldCell::Empty,
                };
            }
            proof {
                assert(items@.take(i as int + 1).drop_last() =~= items@.take(i as int));
                assert(items@.take(i as int + 1).last() == items@[i as int]);
            }
            i = i + 1;
        }
        proof {
            assert(items@.take(items@.len() as int) =~= items@);
        }
        cell
    }

    /// The full cell class of one board cell for the current state.
    pub fn cell_at(&self, x: u16, y: u16) -> (c: GoldCell)
        requires
            self.wf(),
        ensures
            c == spec_cell_at(*self, x as int, y as int),
    {
        let sx = self.hook_screen_x();
        let hx = floor_div_1000(sx);
        let hy = self.hook_y / 1000;
        if y as i32 == hy && x as i32 == hx {
            GoldCell::Hook
        } else if x as i32 == hx && (y as i32) * 1000 < self.hook_y {
            GoldCell::Rope
        } else {
            let base = Self::item_cell(&self.items, x, y);
            match &self.caught_item {
                Some(c0) => {
                    let c0 = *c0;
                    let cy: i32 = self.hook_y + c0.size;
                    let dx: i32 = x as i32 * 1000 - sx;
                    let dy: i32 = y as i32 * 1000 - cy;
                    let covers = -c0.size <= dx && dx <= c0.size && -c0.size <= dy && dy
                        <= c0.size;
                    if covers && !matches!(c0.item_type, ItemType::Nothing) {
                        match c0.item_type {
                            ItemType::Gold => if c0.size > 1500 {
                                GoldCell::GoldBig
                            } else {
                                GoldCell::GoldSmall
                            },
                            ItemType::Stone => if c0.size > 1500 {
                                GoldCell::StoneBig
                            } else {
                                GoldCell::StoneSmall
                            },
                            ItemType::Nothing => GoldCell::Empty,
                        }
                    } else {
                        base
                    }
                },
                None => base,
            }
        }
    }

    /// The playing board as a grid of cell classes, `height` rows of `width`
    /// cells. A viewport under 20 by 10 cells is refused (the front end shows
    /// a resize notice) and the state is left untouched; otherwise the new
    /// viewport size is cached and the pivot re-centered, as rendering is the
    /// point where the simulation learns the terminal size.
    pub fn render_game(&mut self, width: u16, height: u16) -> (r: Option<Vec<Vec<GoldCell>>>)
        requires
            old(self).wf(),
        ensures
            final(self).wf(),
            (width < 20 || height < 10) ==> r is None && *final(self) == *old(self),
            (width >= 20 && height >= 10) ==> {
                &&& *final(self) == (GoldMiner {
                    hook_x: final(self).hook_x,
                    window_width: width,
                    window_height: height,
                    ..*old(self)
                })
                &&& final(self).hook_x == width as int * 500
                &&& match r {
                    Some(grid) => {
                        &&& grid@.len() == height as int
                        &&& forall|yy: int| 0 <= yy < height as int ==> (
                        #[trigger] grid@[yy])@.len() == width as int
                        &&& forall|yy: int, xx: int| 0 <= yy < height as int && 0 <= xx
                            < width as int ==> (#[trigger] grid@[yy]@[xx]) == spec_cell_at(
                            *final(self),
                            xx,
                            yy,
                        )
                    },
                    None => false,
                }
            },
    {
        if width < 20 || height < 10 {
            return None;
        }
        self.window_width = width;
        self.window_height = height;
        self.hook_x = width as i32 * 500;

        let mut grid: Vec<Vec<GoldCell>> = Vec::new();
        let mut y: u16 = 0;
        while y < height
            invariant
                0 <= y <= height,
                self.wf(),
                grid@.len() == y as int,
                forall|yy: int| 0 <= yy < y as int ==> (#[trigger] grid@[yy])@.len()
                    == width as int,
                forall|yy: int, xx: int| 0 <= yy < y as int && 0 <= xx < width as int ==> (
                #[trigger] grid@[yy]@[xx]) == spec_cell_at(*self, xx, yy),
            decreases height - y,
        {
            let mut row: Vec<GoldCell> = Vec::new();
            let mut x: u16 = 0;
            while x < width
                invariant
                    0 <= x <= width,
                    self.wf(),
                    row@.len() == x as int,
                    forall|xx: int| 0 <= xx < x as int ==> (#[trigger] row@[xx]) == spec_cell_at(
                        *self,
                        xx,
                        y as int,
                    ),
                decreases width - x,
            {
                row.push(self.cell_at(x, y));
                x = x + 1;
            }
            grid.push(row);
            y = y + 1;
        }
        Some(grid)
    }

    /// One rendered frame for the current phase: the welcome text, the board
    /// grid (or the resize notice), or the pause overlay's log lines.
    pub fn render(&mut self, width: u16, height: u16) -> (r: GoldFrame)
        requires
            old(self).wf(),
        ensures
            final(self).wf(),
            old(self).game_state == GameState::Welcome ==> r is Welcome && *final(self) == *old(
                self,
            ),
            old(self).game_state == GameState::Paused ==> r is Paused,
            old(self).game_state == GameState::Paused ==> match r {
                GoldFrame::Paused(lines) => {
                    &&& lines@.len() == vstd::math::min(
                        if height >= 2 {
                            (height - 2) as int
                        } else {
                            0
                        },
                        old(self).compiling.messages@.len() as int,
                    )
                    &&& forall|i: int| 0 <= i < lines@.len() ==> (#[trigger] lines@[i]) == old(
                        self,
                    ).compiling.messages@[i]
                },
                _ => false,
            },
            old(self).game_state == GameState::Paused ==> *final(self) == (GoldMiner {
                compiling: final(self).compiling,
                ..*old(self)
            }) && final(self).compiling == (Compiling {
                display_messages: final(self).compiling.display_messages,
                ..old(self).compiling
            }),
            old(self).game_state == GameState::Playing && (width < 20 || height < 10) ==> r
                is TooSmall && *final(self) == *old(self),
            old(self).game_state == GameState::Playing && width >= 20 && height >= 10 ==> {
                &&& *final(self) == (GoldMiner {
                    hook_x: final(self).hook_x,
                    window_width: width,
                    window_height: height,
                    ..*old(self)
                })
                &&& final(self).hook_x == width as int * 500
                &&& match r {
                    GoldFrame::Board(grid) => {
                        &&& grid@.len() == height as int
                        &&& forall|yy: int| 0 <= yy < height as int ==> (
                        #[trigger] grid@[yy])@.len() == width as int
                        &&& forall|yy: int, xx: int|
                            0 <= yy < height as int && 0 <= xx < width as int ==> (
                            #[trigger] grid@[yy]@[xx]) == spec_cell_at(*final(self), xx, yy)
                    },
                    _ => false,
                }
            },
    {
        match self.game_state {
            GameState::Welcome => GoldFrame::Welcome,
            GameState::Playing => {
                match self.render_game(width, height) {
                    Some(grid) => GoldFrame::Board(grid),
                    None => GoldFrame::TooSmall,
                }
            },
            GameState::Paused => GoldFrame::Paused(self.compiling.render(height)),
        }
    }

    /// Selects the language the game's texts use.
    pub fn set_language(&mut self, language: Language)
        ensures
            *final(self) == (GoldMiner { translations: final(self).translations, ..*old(self) }),
            final(self).translations == (Translations {
                current_language: language,
                ..old(self).translations
            }),
    {
        self.translations.set_language(language);
    }

    /// Selects the build log the pause overlay scrolls through.
    pub fn set_compile_language(&mut self, lang: CompileLanguage)
        ensures
            *final(self) == (GoldMiner { compiling: final(self).compiling, ..*old(self) }),
            final(self).compiling.current_language == lang,
            crate::games::compiling::views_of(final(self).compiling.messages@)
                == crate::games::compiling::messages_for(lang),
            final(self).compiling.tick_count == old(self).compiling.tick_count,
    {
        self.compiling.set_language(lang);
    }
}

} // verus!
