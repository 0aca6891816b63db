//! "Darth Vader's Chip Battle": the player turns a lightsaber and uses force
//! lightning against tortilla chips and limes that fly in from the screen's
//! edges; eating 2000 calories ends the game.
//!
//! Positions and movement are floating point and stay with the caller; this
//! module holds the integer part of the game: the saber's angle, the
//! lightning cooldown, the calorie count, the game-over flag, enemy kinds and
//! spawning, and the heads-up display numbers.

use vstd::prelude::*;
use crate::arith::{abs, fits_i32};
use crate::host::Draws;

verus! {

/// Calories that end the game.
pub const CALORIE_LIMIT: u32 = 2000;

/// Frames the force lightning needs to recharge.
pub const LIGHTNING_COOLDOWN: u32 = 300;

/// Degrees the saber turns per press.
pub const HALF_TURN: i32 = 180;

/// An enemy spawns on about one frame in this many.
pub const SPAWN_ODDS: u32 = 30;

/// The screen size.
pub const SCREEN_W: u32 = 320;

pub const SCREEN_H: u32 = 240;

/// Frames per second.
pub const FPS: usize = 60;

/// The two kinds of enemy.
#[derive(Clone, Copy, Debug, PartialEq, Eq, Structural)]
pub enum EnemyType {
    Chip,
    Lime,
}

/// Calories gained by eating an enemy.
pub open spec fn spec_calories(t: EnemyType) -> u32 {
    match t {
        EnemyType::Chip => 25,
        EnemyType::Lime => 50,
    }
}

pub fn calories(t: EnemyType) -> (c: u32)
    ensures
        c == spec_calories(t),
        t == EnemyType::Chip ==> c == 25,
        t == EnemyType::Lime ==> c == 50,
{
    match t {
        EnemyType::Chip => 25,
        EnemyType::Lime => 50,
    }
}

/// An enemy's radius in pixels.
pub fn radius(t: EnemyType) -> (r: u32)
    ensures
        r == (match t {
            EnemyType::Chip => 16u32,
            EnemyType::Lime => 8u32,
        }),
{
    match t {
        EnemyType::Chip => 16,
        EnemyType::Lime => 8,
    }
}

/// An enemy's colour.
pub fn enemy_color(t: EnemyType) -> (c: u32)
    ensures
        c == (match t {
            EnemyType::Chip => 0xc2b280ffu32,
            EnemyType::Lime => 0x00ff00ffu32,
        }),
{
    match t {
        EnemyType::Chip => 0xc2b280ff,
        EnemyType::Lime => 0x00ff00ff,
    }
}

/// The integer part of the game's state.
#[derive(Clone, Copy, Debug, PartialEq, Eq, Structural)]
pub struct Counters {
    pub target_angle: i32,
    pub current_angle: i32,
    pub calorie_count: u32,
    pub force_lightning_cooldown: u32,
    pub game_over: bool,
    pub game_tick: usize,
}

/// `x / 5` rounded towards zero, as integer division does.
pub open spec fn trunc_div5(x: int) -> int {
    if x >= 0 {
        x / 5
    } else {
        -((-x) / 5)
    }
}

/// The saber's angle one frame later: it moves a fifth of the way, rounded
/// towards zero, to its target.
pub open spec fn spec_ease(current: int, target: int) -> int {
    current + trunc_div5(target - current)
}

/// Eases `current` towards `target`.
pub fn ease_angle(current: i32, target: i32) -> (next: i32)
    requires
        fits_i32(target - current),
    ensures
        next == spec_ease(current as int, target as int),
{
    let mut current = current;
    if current != target {
        let diff = target - current;
        let step = diff / 5;
        current = current + step;
        let gap = current as i64 - target as i64;
        let gap = if gap < 0 {
            -gap
        } else {
            gap
        };
        if gap < 1 {
            current = target;
        }
    }
    current
}

/// The lightning fires on a press when it is charged.
pub open spec fn spec_lightning_fires(cooldown: u32, pressed: bool) -> bool {
    pressed && cooldown == 0
}

/// The cooldown one frame later: full on firing (less the frame itself),
/// else one less, down to zero.
pub open spec fn spec_cooldown_next(cooldown: u32, pressed: bool) -> u32 {
    if spec_lightning_fires(cooldown, pressed) {
        (LIGHTNING_COOLDOWN - 1) as u32
    } else if cooldown > 0 {
        (cooldown - 1) as u32
    } else {
        0
    }
}

/// The cooldown after a run of frames with the given presses.
pub open spec fn cooldown_run(cooldown: u32, presses: Seq<bool>) -> u32
    decreases presses.len(),
{
    if presses.len() == 0 {
        cooldown
    } else {
        cooldown_run(spec_cooldown_next(cooldown, presses[0]), presses.drop_first())
    }
}

/// Whether the lightning fires on some frame of a run.
pub open spec fn fires_during(cooldown: u32, presses: Seq<bool>) -> bool
    decreases presses.len(),
{
    if presses.len() == 0 {
        false
    } else {
        spec_lightning_fires(cooldown, presses[0]) || fires_during(
            spec_cooldown_next(cooldown, presses[0]),
            presses.drop_first(),
        )
    }
}

impl Counters {
    /// The cooldown never exceeds its full length.
    pub open spec fn wf(self) -> bool {
        self.force_lightning_cooldown <= LIGHTNING_COOLDOWN
    }

    /// The counters at the start of the first game.
    pub fn new() -> (c: Counters)
        ensures
            c == (Counters {
                target_angle: 0,
                current_angle: 0,
                calorie_count: 0,
                force_lightning_cooldown: 0,
                game_over: false,
                game_tick: 0,
            }),
            c.wf(),
    {
        Counters {
            target_angle: 0,
            current_angle: 0,
            calorie_count: 0,
            force_lightning_cooldown: 0,
            game_over: false,
            game_tick: 0,
        }
    }

    /// Starts a frame: the game is over once the calorie limit is reached.
    /// Returns whether the game is over.
    pub fn begin_frame(&mut self) -> (over: bool)
        ensures
            *final(self) == (Counters {
                game_over: old(self).game_over || old(self).calorie_count >= CALORIE_LIMIT,
                ..*old(self)
            }),
            over == final(self).game_over,
    {
        if self.calorie_count >= CALORIE_LIMIT {
            self.game_over = true;
        }
        self.game_over
    }

    /// A frame of the game-over screen: pressing the restart button starts a
    /// new game at tick `now`. Returns whether it did.
    pub fn game_over_input(&mut self, restart_pressed: bool, now: usize) -> (restarted: bool)
        ensures
            restarted == restart_pressed,
            restart_pressed ==> *final(self) == (Counters {
                target_angle: 0,
                current_angle: 0,
                calorie_count: 0,
                force_lightning_cooldown: 0,
                game_over: false,
                game_tick: now,
            }),
            !restart_pressed ==> *final(self) == *old(self),
    {
        if restart_pressed {
            self.game_tick = now;
            self.calorie_count = 0;
            self.target_angle = 0;
            self.current_angle = 0;
            self.force_lightning_cooldown = 0;
            self.game_over = false;
        }
        restart_pressed
    }

    /// The saber's new target after this frame's input.
    pub open spec fn spec_target(self, flip_pressed: bool) -> int {
        if flip_pressed {
            self.target_angle + HALF_TURN
        } else {
            self.target_angle as int
        }
    }

    /// Turning the saber computes without `i32` overflow.
    pub open spec fn turn_defined(self, flip_pressed: bool) -> bool {
        fits_i32(self.spec_target(flip_pressed)) && fits_i32(
            self.spec_target(flip_pressed) - self.current_angle,
        )
    }

    /// Whether [`Counters::turn_saber`] can run on this input.
    pub fn turn_is_defined(&self, flip_pressed: bool) -> (ok: bool)
        ensures
            ok == self.turn_defined(flip_pressed),
    {
        let t: i64 = if flip_pressed {
            self.target_angle as i64 + HALF_TURN as i64
        } else {
            self.target_angle as i64
        };
        let d = t - self.current_angle as i64;
        i32::MIN as i64 <= t && t <= i32::MAX as i64 && i32::MIN as i64 <= d && d <= i32::MAX as i64
    }

    /// A press turns the saber's target by half a turn; the saber then eases
    /// towards its target.
    pub fn turn_saber(&mut self, flip_pressed: bool)
        requires
            old(self).turn_defined(flip_pressed),
        ensures
            final(self).target_angle == old(self).spec_target(flip_pressed),
            final(self).current_angle == spec_ease(
                old(self).current_angle as int,
                old(self).spec_target(flip_pressed),
            ),
            *final(self) == (Counters {
                target_angle: final(self).target_angle,
                current_angle: final(self).current_angle,
                ..*old(self)
            }),
    {
        if flip_pressed {
            self.target_angle = self.target_angle + HALF_TURN;
        }
        self.current_angle = ease_angle(self.current_angle, self.target_angle);
    }

    /// Force lightning: it fires on a press when it is charged, and then
    /// needs [`LIGHTNING_COOLDOWN`] frames to recharge; the cooldown runs down
    /// by one every frame. Returns whether it fired.
    pub fn force_lightning(&mut self, pressed: bool) -> (fired: bool)
        ensures
            fired == (pressed && old(self).force_lightning_cooldown == 0),
            fired ==> final(self).force_lightning_cooldown == 299,
            !fired && old(self).force_lightning_cooldown == 0
                ==> final(self).force_lightning_cooldown == 0,
            old(self).force_lightning_cooldown > 0 ==> final(self).force_lightning_cooldown
                == old(self).force_lightning_cooldown - 1,
            fired == spec_lightning_fires(old(self).force_lightning_cooldown, pressed),
            final(self).force_lightning_cooldown == spec_cooldown_next(
                old(self).force_lightning_cooldown,
                pressed,
            ),
            *final(self) == (Counters {
                force_lightning_cooldown: final(self).force_lightning_cooldown,
                ..*old(self)
            }),
            old(self).wf() ==> final(self).wf(),
    {
        let fired = pressed && self.force_lightning_cooldown == 0;
        if fired {
            self.force_lightning_cooldown = LIGHTNING_COOLDOWN;
        }
        if self.force_lightning_cooldown > 0 {
            self.force_lightning_cooldown = self.force_lightning_cooldown - 1;
        }
        fired
    }

    /// The player eats an enemy.
    pub fn eat(&mut self, t: EnemyType)
        requires
            old(self).calorie_count + spec_calories(t) <= u32::MAX,
        ensures
            *final(self) == (Counters {
                calorie_count: (old(self).calorie_count + spec_calories(t)) as u32,
                ..*old(self)
            }),
    {
        self.calorie_count = self.calorie_count + calories(t);
    }

    /// The recharge time shown while the lightning recharges, in whole
    /// seconds.
    pub fn cooldown_seconds(&self) -> (s: Option<u32>)
        ensures
            s == if self.force_lightning_cooldown > 0 {
                Some((self.force_lightning_cooldown / 60) as u32)
            } else {
                None
            },
    {
        if self.force_lightning_cooldown > 0 {
            Some(self.force_lightning_cooldown / 60)
        } else {
            None
        }
    }
}

/// Seconds since the game started, as shown on screen (the count is cut to
/// 32 bits).
pub fn elapsed_seconds(now: usize, game_tick: usize) -> (s: u32)
    requires
        game_tick <= now,
    ensures
        s == ((now - game_tick) / FPS as int) as u32,
{
    ((now - game_tick) / FPS) as u32
}

/// The left edge of the timer text: further left once it needs three digits.
pub fn timer_x(seconds: u32) -> (x: i32)
    ensures
        x == if seconds > 99 {
            264i32
        } else {
            270i32
        },
{
    if seconds > 99 {
        264
    } else {
        270
    }
}

/// A new enemy: its kind and where on the screen's border it appears.
#[derive(Clone, Copy, Debug, PartialEq, Eq, Structural)]
pub struct Spawn {
    pub enemy_type: EnemyType,
    pub x: u32,
    pub y: u32,
}

/// The enemy that four random numbers give: the first decides whether one
/// appears (one in [`SPAWN_ODDS`]), the second its kind (a lime one time in
/// three, else a chip), the third the side of the screen (top, bottom, left,
/// right) and the fourth the place along that side.
pub open spec fn spec_spawn(chance: u32, kind: u32, side: u32, offset: u32) -> Option<Spawn> {
    if chance % SPAWN_ODDS != 0 {
        None
    } else {
        let t = if kind % 3 > 0 {
            EnemyType::Chip
        } else {
            EnemyType::Lime
        };
        let (x, y) = match side % 4 {
            0 => ((offset % SCREEN_W) as u32, 0u32),
            1 => ((offset % SCREEN_W) as u32, SCREEN_H),
            2 => (0u32, (offset % SCREEN_H) as u32),
            _ => (SCREEN_W, (offset % SCREEN_H) as u32),
        };
        Some(Spawn { enemy_type: t, x, y })
    }
}

/// The enemy that the random numbers `chance`, `kind`, `side` and `offset`
/// give.
pub fn spawn_from_rolls(chance: u32, kind: u32, side: u32, offset: u32) -> (s: Option<Spawn>)
    ensures
        s == spec_spawn(chance, kind, side, offset),
{
    if chance % SPAWN_ODDS != 0 {
        return None;
    }
    let enemy_type = if kind % 3 > 0 {
        EnemyType::Chip
    } else {
        EnemyType::Lime
    };
    let s = side % 4;
    let (x, y) = if s == 0 {
        (offset % SCREEN_W, 0)
    } else if s == 1 {
        (offset % SCREEN_W, SCREEN_H)
    } else if s == 2 {
        (0, offset % SCREEN_H)
    } else {
        (SCREEN_W, offset % SCREEN_H)
    };
    Some(Spawn { enemy_type, x, y })
}

/// Draws this frame's random numbers from `draws` and returns the enemy they
/// give, if any. The numbers after the first are drawn only when an enemy
/// appears: the first number decides (one in [`SPAWN_ODDS`]), the second the
/// kind (a lime when it is a multiple of three, else a chip), the third the
/// side (top, bottom, left, right by its remainder mod 4) and the fourth the
/// place along that side.
pub fn roll_spawn_from(draws: &mut Draws) -> (s: Option<Spawn>)
    ensures
        ({
            let d = old(draws).drawn();
            let n = final(draws).drawn();
            let i = d.len() as int;
            &&& n.len() > d.len()
            &&& n.subrange(0, i) == d
            &&& (s is Some) == (n[i] % 30 == 0)
            &&& n[i] % 30 != 0 ==> n.len() == d.len() + 1
            &&& n[i] % 30 == 0 ==> n.len() == d.len() + 4
            &&& n[i] % 30 == 0 ==> s == spec_spawn(n[i], n[i + 1], n[i + 2], n[i + 3])
            &&& s matches Some(sp) ==> {
                &&& (sp.enemy_type == EnemyType::Lime) == (n[i + 1] % 3 == 0)
                &&& n[i + 2] % 4 == 0 ==> sp.x == n[i + 3] % 320 && sp.y == 0
                &&& n[i + 2] % 4 == 1 ==> sp.x == n[i + 3] % 320 && sp.y == 240
                &&& n[i + 2] % 4 == 2 ==> sp.x == 0 && sp.y == n[i + 3] % 240
                &&& n[i + 2] % 4 == 3 ==> sp.x == 320 && sp.y == n[i + 3] % 240
            }
        }),
{
    let ghost d = draws.drawn();
    let chance = draws.draw();
    if chance % SPAWN_ODDS != 0 {
        return None;
    }
    let kind = draws.draw();
    let side = draws.draw();
    let offset = draws.draw();
    proof {
        let n = draws.drawn();
        let i = d.len() as int;
        assert(n[i] == chance && n[i + 1] == kind && n[i + 2] == side && n[i + 3] == offset);
        assert(n.subrange(0, i) =~= d);
    }
    spawn_from_rolls(chance, kind, side, offset)
}

/// Draws this frame's random numbers from the host and returns the enemy they
/// give, if any, as [`roll_spawn_from`] does.
pub fn roll_spawn() -> (s: Option<Spawn>)
    ensures
        exists|chance: u32, kind: u32, side: u32, offset: u32|
            s == spec_spawn(chance, kind, side, offset),
{
    let mut draws = Draws::new();
    let s = roll_spawn_from(&mut draws);
    proof {
        let n = draws.drawn();
        if n[0] % 30 == 0 {
            assert(s == spec_spawn(n[0], n[1], n[2], n[3]));
        } else {
            assert(s == spec_spawn(n[0], 0, 0, 0));
        }
    }
    s
}

/// Law: the saber never overshoots its target; within four degrees of it the
/// saber stops moving, and further away every frame brings it strictly
/// closer; it lands exactly on its target only if it was there already.
pub proof fn ease_approaches_target(current: int, target: int)
    ensures
        ({
            let next = spec_ease(current, target);
            &&& current <= target ==> current <= next <= target
            &&& target <= current ==> target <= next <= current
            &&& abs(target - current) < 5 ==> next == current
            &&& abs(target - current) >= 5 ==> abs(target - next) < abs(target - current)
            &&& (next == target) == (current == target)
        }),
{
}

/// Law: a charging lightning cannot fire, whatever is pressed: during as
/// many frames as the cooldown reads, it does not fire and the cooldown runs
/// down by one per frame.
pub proof fn lightning_waits_out_cooldown(cooldown: u32, presses: Seq<bool>)
    requires
        presses.len() <= cooldown,
    ensures
        !fires_during(cooldown, presses),
        cooldown_run(cooldown, presses) == cooldown - presses.len(),
    decreases presses.len(),
{
    if presses.len() > 0 {
        lightning_waits_out_cooldown(spec_cooldown_next(cooldown, presses[0]), presses.drop_first());
    }
}

/// Law: after it fires, the lightning is unavailable for exactly the next
/// `LIGHTNING_COOLDOWN - 1` frames and then fires on the first press: it
/// fires at most once in any `LIGHTNING_COOLDOWN` consecutive frames.
pub proof fn lightning_period(presses: Seq<bool>)
    requires
        presses.len() == LIGHTNING_COOLDOWN - 1,
    ensures
        spec_cooldown_next(0, true) == LIGHTNING_COOLDOWN - 1,
        !fires_during(spec_cooldown_next(0, true), presses),
        spec_lightning_fires(cooldown_run(spec_cooldown_next(0, true), presses), true),
{
    lightning_waits_out_cooldown(spec_cooldown_next(0, true), presses);
}

/// Law: a frame keeps the cooldown within its full length.
pub proof fn cooldown_stays_bounded(cooldown: u32, pressed: bool)
    requires
        cooldown <= LIGHTNING_COOLDOWN,
    ensures
        spec_cooldown_next(cooldown, pressed) < LIGHTNING_COOLDOWN,
{
}

/// Law: enemies appear on one frame in [`SPAWN_ODDS`] rolls, on the screen's
/// border, and are limes exactly when the kind roll is a multiple of three.
pub proof fn spawns_on_border(chance: u32, kind: u32, side: u32, offset: u32)
    ensures
        spec_spawn(chance, kind, side, offset) is Some == (chance % SPAWN_ODDS == 0),
        spec_spawn(chance, kind, side, offset) matches Some(s) ==> {
            &&& s.x <= SCREEN_W && s.y <= SCREEN_H
            &&& s.x == 0 || s.x == SCREEN_W || s.y == 0 || s.y == SCREEN_H
            &&& (s.enemy_type == EnemyType::Lime) == (kind % 3 == 0)
        },
{
}

/// Law: the lightning fires exactly on a press while the cooldown is zero and
/// then reads 299; a charged lightning that is not used stays charged (the
/// cooldown is refilled only on a frame where it fires); a charging one runs
/// down by exactly one per frame, pressed or not.
pub proof fn lightning_rules(cooldown: u32, pressed: bool)
    ensures
        spec_lightning_fires(cooldown, pressed) == (pressed && cooldown == 0),
        pressed && cooldown == 0 ==> spec_cooldown_next(cooldown, pressed) == 299,
        !pressed && cooldown == 0 ==> spec_cooldown_next(cooldown, pressed) == 0,
        cooldown > 0 ==> spec_cooldown_next(cooldown, pressed) == cooldown - 1,
{
}

/// Law: the enemy four random numbers give, stated number by number: one
/// appears exactly when the first is a multiple of 30; it is a lime exactly
/// when the second is a multiple of 3; the third picks the top, bottom, left
/// or right edge by its remainder mod 4, and the fourth the place along it.
pub proof fn spawn_rolls_decide(chance: u32, kind: u32, side: u32, offset: u32)
    ensures
        (spec_spawn(chance, kind, side, offset) is Some) == (chance % 30 == 0),
        spec_spawn(chance, kind, side, offset) matches Some(sp) ==> {
            &&& (sp.enemy_type == EnemyType::Lime) == (kind % 3 == 0)
            &&& side % 4 == 0 ==> sp.x == offset % 320 && sp.y == 0
            &&& side % 4 == 1 ==> sp.x == offset % 320 && sp.y == 240
            &&& side % 4 == 2 ==> sp.x == 0 && sp.y == offset % 240
            &&& side % 4 == 3 ==> sp.x == 320 && sp.y == offset % 240
        },
{
}

/// Law: each frame the saber moves a fifth of the remaining angle, the fifth
/// rounded towards zero, and a press turns its target by exactly 180 degrees.
pub proof fn saber_turn_rules(c: Counters, current: int, target: int)
    ensures
        target >= current ==> spec_ease(current, target) == current + (target - current) / 5,
        target < current ==> spec_ease(current, target) == current - (current - target) / 5,
        c.spec_target(true) == c.target_angle + 180,
        c.spec_target(false) == c.target_angle,
{
}

/// Law: eating a chip adds 25 calories and eating a lime adds 50.
pub proof fn calorie_values()
    ensures
        spec_calories(EnemyType::Chip) == 25,
        spec_calories(EnemyType::Lime) == 50,
{
}

} // verus!
