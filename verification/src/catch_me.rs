//! "Catch Me If You Can": two players chase each other's cursor.
//! Clicking while the two cursor boxes touch scores a hit for the other
//! player; after ten hits a clicking race decides when the bout restarts.

use vstd::prelude::*;
use crate::arith::{abs, fits_i32};

verus! {

/// An axis-aligned box: top-left corner `(x, y)`, width `w`, height `h`.
#[derive(Clone, Copy, Debug, PartialEq, Eq, Structural)]
pub struct Rectangle {
    pub x: i32,
    pub y: i32,
    pub w: i32,
    pub h: i32,
}

/// The overlap product along one axis: `(b - a - a_len) * (a - b - b_len)`.
pub open spec fn axis_product(a: int, a_len: int, b: int, b_len: int) -> int {
    (b - a - a_len) * (a - b - b_len)
}

/// Every intermediate value of the overlap product along one axis fits in `i32`.
pub open spec fn axis_defined(a: int, a_len: int, b: int, b_len: int) -> bool {
    &&& fits_i32(b - a)
    &&& fits_i32(b - a - a_len)
    &&& fits_i32(a - b)
    &&& fits_i32(a - b - b_len)
    &&& fits_i32(axis_product(a, a_len, b, b_len))
}

/// The collision test of two rectangles computes without `i32` overflow.
pub open spec fn collision_defined(a: Rectangle, b: Rectangle) -> bool {
    &&& axis_defined(a.x as int, a.w as int, b.x as int, b.w as int)
    &&& axis_defined(a.y as int, a.h as int, b.y as int, b.h as int)
}

/// The collision test: the overlap product is non-negative on both axes.
pub open spec fn spec_rect_collision(a: Rectangle, b: Rectangle) -> bool {
    &&& axis_product(a.x as int, a.w as int, b.x as int, b.w as int) >= 0
    &&& axis_product(a.y as int, a.h as int, b.y as int, b.h as int) >= 0
}

/// The closed spans `[a, a + a_len]` and `[b, b + b_len]` share a point.
pub open spec fn spans_touch(a: int, a_len: int, b: int, b_len: int) -> bool {
    b <= a + a_len && a <= b + b_len
}

/// Whether two rectangles collide, by the sign of the overlap products.
pub fn rect_collision(rect_a: &Rectangle, rect_b: &Rectangle) -> (hit: bool)
    requires
        collision_defined(*rect_a, *rect_b),
    ensures
        hit == spec_rect_collision(*rect_a, *rect_b),
{
    let horizontal_overlap = (rect_b.x - rect_a.x - rect_a.w) * (rect_a.x - rect_b.x - rect_b.w)
        >= 0;
    let vertical_overlap = (rect_b.y - rect_a.y - rect_a.h) * (rect_a.y - rect_b.y - rect_b.h)
        >= 0;
    horizontal_overlap && vertical_overlap
}

/// Law: the collision test does not depend on the order of its arguments,
/// and neither does whether it can be computed.
pub proof fn rect_collision_symmetric(a: Rectangle, b: Rectangle)
    ensures
        spec_rect_collision(a, b) == spec_rect_collision(b, a),
        collision_defined(a, b) == collision_defined(b, a),
{
    let (ax, aw, bx, bw) = (a.x as int, a.w as int, b.x as int, b.w as int);
    let (ay, ah, by, bh) = (a.y as int, a.h as int, b.y as int, b.h as int);
    assert((bx - ax - aw) * (ax - bx - bw) == (ax - bx - bw) * (bx - ax - aw)) by (nonlinear_arith);
    assert((by - ay - ah) * (ay - by - bh) == (ay - by - bh) * (by - ay - ah)) by (nonlinear_arith);
}

proof fn lemma_axis_product_is_touch(a: int, a_len: int, b: int, b_len: int)
    requires
        a_len + b_len > 0,
    ensures
        (axis_product(a, a_len, b, b_len) >= 0) == spans_touch(a, a_len, b, b_len),
{
    let p = b - a - a_len;
    let q = a - b - b_len;
    assert(p + q < 0);
    assert(p > 0 && q < 0 ==> p * q < 0) by (nonlinear_arith);
    assert(p < 0 && q > 0 ==> p * q < 0) by (nonlinear_arith);
    assert(p <= 0 && q <= 0 ==> p * q >= 0) by (nonlinear_arith);
}

/// Law: for boxes whose sizes add up to something positive on each axis, the
/// collision test holds exactly when the closed boxes overlap (share a point).
pub proof fn rect_collision_is_overlap(a: Rectangle, b: Rectangle)
    requires
        a.w + b.w > 0,
        a.h + b.h > 0,
    ensures
        spec_rect_collision(a, b) == (spans_touch(a.x as int, a.w as int, b.x as int, b.w as int)
            && spans_touch(a.y as int, a.h as int, b.y as int, b.h as int)),
{
    lemma_axis_product_is_touch(a.x as int, a.w as int, b.x as int, b.w as int);
    lemma_axis_product_is_touch(a.y as int, a.h as int, b.y as int, b.h as int);
}

/// The colour blend ends: cyan `(0x00, 0xFF, 0xFF)` at weight 0 and magenta
/// `(0xFF, 0x00, 0xFF)` at weight 16.
pub open spec fn cyan() -> (int, int, int) {
    (0x00, 0xFF, 0xFF)
}

pub open spec fn magenta() -> (int, int, int) {
    (0xFF, 0x00, 0xFF)
}

/// The difference `a - b` clamped to `[-8, 8]`.
pub open spec fn clamped_diff(a: int, b: int) -> int {
    let d = a - b;
    if d < -8 {
        -8
    } else if d > 8 {
        8
    } else {
        d
    }
}

/// How far, in sixteenths, the colour lies from cyan towards magenta: `0..=16`.
pub open spec fn blend_weight(a: int, b: int) -> int {
    clamped_diff(a, b) + 8
}

/// One channel of the linear blend at weight `k` (sixteenths), rounded down.
/// The blend weights are multiples of 1/16, so every product and sum of the
/// blend is an exact binary fraction and the truncating conversion to a byte
/// is exactly this floor division.
pub open spec fn blend_channel(from: int, to: int, k: int) -> int {
    ((16 - k) * from + k * to) / 16
}

/// The red, green and blue bytes of the colour for scores `a` and `b`.
pub open spec fn color_channels(a: int, b: int) -> (int, int, int) {
    let k = blend_weight(a, b);
    (
        blend_channel(cyan().0, magenta().0, k),
        blend_channel(cyan().1, magenta().1, k),
        blend_channel(cyan().2, magenta().2, k),
    )
}

/// An RGBA colour packed as `0xRRGGBBAA`.
pub open spec fn pack_rgba(r: int, g: int, b: int, alpha: int) -> int {
    r * 0x1000000 + g * 0x10000 + b * 0x100 + alpha
}

/// The opaque colour between cyan and magenta for the scores `a` and `b`.
pub open spec fn spec_interpolate_color(a: int, b: int) -> int {
    let (r, g, bl) = color_channels(a, b);
    pack_rgba(r, g, bl, 0xFF)
}

proof fn lemma_pack(r: u32, g: u32, b: u32)
    requires
        r < 256,
        g < 256,
        b < 256,
    ensures
        (r << 24u32) | (g << 16u32) | (b << 8u32) | 0xffu32 == r * 0x1000000 + g * 0x10000 + b
            * 0x100 + 0xff,
{
    assert((r << 24u32) | (g << 16u32) | (b << 8u32) | 0xffu32 == r * 0x1000000 + g * 0x10000 + b
        * 0x100 + 0xff) by (bit_vector)
        requires
            r < 256,
            g < 256,
            b < 256,
    ;
}

/// One channel of the blend, computed on a weight `k` in `0..=16`.
fn blend_byte(from: u32, to: u32, k: u32) -> (c: u32)
    requires
        from <= 0xFF,
        to <= 0xFF,
        k <= 16,
    ensures
        c == blend_channel(from as int, to as int, k as int),
        c <= 0xFF,
{
    assert((16 - k) * from <= 16 * 0xFF) by (nonlinear_arith)
        requires
            k <= 16,
            from <= 0xFF,
    ;
    assert(k * to <= 16 * 0xFF) by (nonlinear_arith)
        requires
            k <= 16,
            to <= 0xFF,
    ;
    assert((16 - k) * from + k * to <= 16 * 0xFF) by (nonlinear_arith)
        requires
            k <= 16,
            from <= 0xFF,
            to <= 0xFF,
    ;
    ((16 - k) * from + k * to) / 16
}

/// The background colour of the clicking race: cyan while player two leads by
/// eight or more clicks, magenta while player one does, and a linear blend in
/// between; always opaque.
pub fn interpolate_color(a: i32, b: i32) -> (color: u32)
    requires
        fits_i32(a - b),
    ensures
        color == spec_interpolate_color(a as int, b as int),
{
    let min_diff: i32 = -8;
    let max_diff: i32 = 8;
    let d = a - b;
    let diff: i32 = if d < min_diff {
        min_diff
    } else if d > max_diff {
        max_diff
    } else {
        d
    };
    let k: u32 = (diff - min_diff) as u32;
    let r = blend_byte(0x00, 0xFF, k);
    let g = blend_byte(0xFF, 0x00, k);
    let bl = blend_byte(0xFF, 0xFF, k);
    proof {
        lemma_pack(r, g, bl);
    }
    (r << 24u32) | (g << 16u32) | (bl << 8u32) | 0xffu32
}

/// Law: every channel of the race colour is a byte, blue is always full, and
/// the colour depends on the two scores only through their difference.
pub proof fn interpolate_color_channels(a: int, b: int, c: int)
    ensures
        0 <= color_channels(a, b).0 <= 0xFF,
        0 <= color_channels(a, b).1 <= 0xFF,
        color_channels(a, b).2 == 0xFF,
        spec_interpolate_color(a + c, b + c) == spec_interpolate_color(a, b),
{
    let k = blend_weight(a, b);
    assert(0 <= k <= 16);
    assert((16 - k) * 0xFF + k * 0xFF == 16 * 0xFF);
}

/// Law: a lead of eight or more for the first score gives pure magenta, a
/// lead of eight or more for the second gives pure cyan, and a tie gives the
/// midpoint `0x7F7FFFFF`.
pub proof fn interpolate_color_landmarks(a: int, b: int)
    ensures
        a - b >= 8 ==> spec_interpolate_color(a, b) == 0xFF00FFFF,
        a - b <= -8 ==> spec_interpolate_color(a, b) == 0x00FFFFFF,
        a == b ==> spec_interpolate_color(a, b) == 0x7F7FFFFF,
{
}

/// Law: swapping the two scores swaps the red and green channels.
pub proof fn interpolate_color_mirror(a: int, b: int)
    ensures
        color_channels(b, a) == (color_channels(a, b).1, color_channels(a, b).0, color_channels(
            a,
            b,
        ).2),
{
    assert(blend_weight(b, a) == 16 - blend_weight(a, b));
}

/// Law: the larger the first score's lead, the redder and the less green the
/// colour (red never decreases, green never increases).
pub proof fn interpolate_color_monotone(a: int, b: int, a2: int, b2: int)
    requires
        a - b <= a2 - b2,
    ensures
        color_channels(a, b).0 <= color_channels(a2, b2).0,
        color_channels(a, b).1 >= color_channels(a2, b2).1,
{
    let k = blend_weight(a, b);
    let k2 = blend_weight(a2, b2);
    assert(k <= k2);
    vstd::arithmetic::div_mod::lemma_div_is_ordered(k * 0xFF, k2 * 0xFF, 16);
    vstd::arithmetic::div_mod::lemma_div_is_ordered((16 - k2) * 0xFF, (16 - k) * 0xFF, 16);
}

/// Colours used by the game.
pub const PLAYER_ONE_COLOR: u32 = 0xff00ffff;

pub const PLAYER_TWO_COLOR: u32 = 0xffffffff;

pub const RESTART_COLOR: u32 = 0x000000ff;

/// Width and height of a cursor's box (the size of one large-font digit).
pub const CURSOR_W: i32 = 6;

pub const CURSOR_H: i32 = 7;

/// Hits that end a bout.
pub const WINNING_HITS: i32 = 10;

/// The persistent state of the game.
#[derive(Clone, Copy, Debug, PartialEq, Eq, Structural)]
pub struct GameState {
    pub p0_hits: i32,
    pub p1_hits: i32,
    pub p0_cps: i32,
    pub p1_cps: i32,
}

/// One player's mouse this frame: its position and whether its left button
/// was just pressed.
#[derive(Clone, Copy, Debug, PartialEq, Eq, Structural)]
pub struct Cursor {
    pub x: i32,
    pub y: i32,
    pub just_pressed: bool,
}

/// What a text draw shows.
#[derive(Clone, Copy, Debug, PartialEq, Eq, Structural)]
pub enum Label {
    /// A score, shown as its decimal digit.
    Digit(i32),
    /// "Player 1 wins!"
    PlayerOneWins,
    /// "Player 2 wins!"
    PlayerTwoWins,
}

/// One drawing action of a frame, in the order the frame performs them.
#[derive(Clone, Copy, Debug, PartialEq, Eq, Structural)]
pub enum DrawCommand {
    /// Fill the screen with a colour.
    Clear(u32),
    /// Draw a label in the large font with its top-left corner at `(x, y)`.
    Text { label: Label, x: i32, y: i32, color: u32 },
}

impl GameState {
    /// Every counter is non-negative: the states a game reaches from its start.
    pub open spec fn wf(self) -> bool {
        self.p0_hits >= 0 && self.p1_hits >= 0 && self.p0_cps >= 0 && self.p1_cps >= 0
    }

    /// The state a new game starts in.
    pub fn new() -> (s: GameState)
        ensures
            s == (GameState { p0_hits: 0, p1_hits: 0, p0_cps: 0, p1_cps: 0 }),
            s.wf(),
    {
        GameState { p0_hits: 0, p1_hits: 0, p0_cps: 0, p1_cps: 0 }
    }
}

/// The box around a cursor: it ends at the cursor's tip.
pub open spec fn spec_cursor_rect(c: Cursor) -> Rectangle {
    Rectangle { x: (c.x - CURSOR_W) as i32, y: (c.y - CURSOR_H) as i32, w: CURSOR_W, h: CURSOR_H }
}

/// The two cursors' boxes touch this frame.
pub open spec fn cursors_collide(m0: Cursor, m1: Cursor) -> bool {
    spec_rect_collision(spec_cursor_rect(m0), spec_cursor_rect(m1))
}

/// Hits of this frame: a click of player one while the boxes touch is a hit
/// for player two (`p1_hits`), and the other way round.
pub open spec fn after_hits(s: GameState, m0: Cursor, m1: Cursor) -> GameState {
    let hit = cursors_collide(m0, m1);
    GameState {
        p1_hits: if m0.just_pressed && hit {
            (s.p1_hits + 1) as i32
        } else {
            s.p1_hits
        },
        p0_hits: if m1.just_pressed && hit {
            (s.p0_hits + 1) as i32
        } else {
            s.p0_hits
        },
        ..s
    }
}

/// A bout is over once either player has ten hits.
pub open spec fn bout_over(s: GameState) -> bool {
    s.p0_hits >= WINNING_HITS || s.p1_hits >= WINNING_HITS
}

/// The clicking race: once the bout is over, every click counts.
pub open spec fn after_race(s: GameState, m0: Cursor, m1: Cursor) -> GameState {
    if bout_over(s) {
        GameState {
            p0_cps: if m0.just_pressed {
                (s.p0_cps + 1) as i32
            } else {
                s.p0_cps
            },
            p1_cps: if m1.just_pressed {
                (s.p1_cps + 1) as i32
            } else {
                s.p1_cps
            },
            ..s
        }
    } else {
        s
    }
}

/// The race is decided once one player is more than eight clicks ahead.
pub open spec fn race_decided(s: GameState) -> bool {
    abs(s.p0_cps - s.p1_cps) > 8
}

/// The restart clears both hit counts and the first player's click count; the
/// second player's click count is left as it is.
pub open spec fn restarted(s: GameState) -> GameState {
    GameState { p0_hits: 0, p1_hits: 0, p0_cps: 0, ..s }
}

/// The state after one frame.
pub open spec fn spec_next_state(s: GameState, m0: Cursor, m1: Cursor) -> GameState {
    let s2 = after_race(after_hits(s, m0, m1), m0, m1);
    if race_decided(s2) {
        restarted(s2)
    } else {
        s2
    }
}

/// The digit shown for a hit count: the count, capped at nine.
pub open spec fn shown_digit(hits: i32) -> i32 {
    if hits < 9 {
        hits
    } else {
        9
    }
}

/// The score labels, drawn at each player's cursor box: the first player's
/// label first when that player leads, else the second player's first.
pub open spec fn score_draws(s: GameState, r0: Rectangle, r1: Rectangle) -> Seq<DrawCommand> {
    let d0 = DrawCommand::Text {
        label: Label::Digit(shown_digit(s.p0_hits)),
        x: r0.x,
        y: r0.y,
        color: PLAYER_ONE_COLOR,
    };
    let d1 = DrawCommand::Text {
        label: Label::Digit(shown_digit(s.p1_hits)),
        x: r1.x,
        y: r1.y,
        color: PLAYER_TWO_COLOR,
    };
    if s.p0_hits > s.p1_hits {
        seq![d0, d1]
    } else {
        seq![d1, d0]
    }
}

/// The win messages, centred on the screen.
pub open spec fn win_draws(s: GameState) -> Seq<DrawCommand> {
    let two = if s.p0_hits >= WINNING_HITS {
        seq![DrawCommand::Text { label: Label::PlayerTwoWins, x: 80, y: 128, color: PLAYER_TWO_COLOR }]
    } else {
        Seq::empty()
    };
    let one = if s.p1_hits >= WINNING_HITS {
        seq![DrawCommand::Text { label: Label::PlayerOneWins, x: 80, y: 128, color: PLAYER_TWO_COLOR }]
    } else {
        Seq::empty()
    };
    two + one
}

/// What one frame draws, in order.
pub open spec fn spec_frame_draws(s: GameState, m0: Cursor, m1: Cursor) -> Seq<DrawCommand> {
    let s1 = after_hits(s, m0, m1);
    let s2 = after_race(s1, m0, m1);
    let race = if bout_over(s1) {
        seq![DrawCommand::Clear(spec_interpolate_color(s2.p0_cps as int, s2.p1_cps as int) as u32)]
    } else {
        Seq::empty()
    };
    let restart = if race_decided(s2) {
        seq![DrawCommand::Clear(RESTART_COLOR)]
    } else {
        Seq::empty()
    };
    race + score_draws(s2, spec_cursor_rect(m0), spec_cursor_rect(m1)) + win_draws(s2) + restart
}

/// The frame computes without `i32` overflow: the cursor boxes, the
/// collision test, the hit and click counts, and the click difference and
/// its absolute value all fit.
pub open spec fn step_defined(s: GameState, m0: Cursor, m1: Cursor) -> bool {
    let s1 = after_hits(s, m0, m1);
    let s2 = after_race(s1, m0, m1);
    &&& fits_i32(m0.x - CURSOR_W) && fits_i32(m0.y - CURSOR_H)
    &&& fits_i32(m1.x - CURSOR_W) && fits_i32(m1.y - CURSOR_H)
    &&& collision_defined(spec_cursor_rect(m0), spec_cursor_rect(m1))
    &&& (m0.just_pressed && cursors_collide(m0, m1) ==> s.p1_hits < i32::MAX)
    &&& (m1.just_pressed && cursors_collide(m0, m1) ==> s.p0_hits < i32::MAX)
    &&& (bout_over(s1) && m0.just_pressed ==> s1.p0_cps < i32::MAX)
    &&& (bout_over(s1) && m1.just_pressed ==> s1.p1_cps < i32::MAX)
    &&& fits_i32(s2.p0_cps - s2.p1_cps)
    &&& s2.p0_cps - s2.p1_cps != i32::MIN
}

fn cursor_rect(c: &Cursor) -> (r: Rectangle)
    requires
        fits_i32(c.x - CURSOR_W),
        fits_i32(c.y - CURSOR_H),
    ensures
        r == spec_cursor_rect(*c),
{
    Rectangle { x: c.x - CURSOR_W, y: c.y - CURSOR_H, w: CURSOR_W, h: CURSOR_H }
}

fn digit(hits: i32) -> (d: i32)
    ensures
        d == shown_digit(hits),
{
    if hits < 9 {
        hits
    } else {
        9
    }
}

/// One frame of the game: scores hits, runs the clicking race once a bout is
/// over, restarts when the race is decided, and returns what to draw.
pub fn step(state: &mut GameState, m0: &Cursor, m1: &Cursor) -> (draws: Vec<DrawCommand>)
    requires
        step_defined(*old(state), *m0, *m1),
    ensures
        *final(state) == spec_next_state(*old(state), *m0, *m1),
        draws@ == spec_frame_draws(*old(state), *m0, *m1),
{
    let ghost s0 = *state;
    let mut draws: Vec<DrawCommand> = Vec::new();
    let rect_m0 = cursor_rect(m0);
    let rect_m1 = cursor_rect(m1);
    let collided = rect_collision(&rect_m0, &rect_m1);

    if m0.just_pressed && collided {
        state.p1_hits = state.p1_hits + 1;
    }
    if m1.just_pressed && collided {
        state.p0_hits = state.p0_hits + 1;
    }
    assert(*state == after_hits(s0, *m0, *m1));

    let over = state.p0_hits >= WINNING_HITS || state.p1_hits >= WINNING_HITS;
    if over {
        if m0.just_pressed {
            state.p0_cps = state.p0_cps + 1;
        }
        if m1.just_pressed {
            state.p1_cps = state.p1_cps + 1;
        }
        draws.push(DrawCommand::Clear(interpolate_color(state.p0_cps, state.p1_cps)));
    }
    let ghost s2 = *state;
    assert(s2 == after_race(after_hits(s0, *m0, *m1), *m0, *m1));

    let d0 = DrawCommand::Text {
        label: Label::Digit(digit(state.p0_hits)),
        x: rect_m0.x,
        y: rect_m0.y,
        color: PLAYER_ONE_COLOR,
    };
    let d1 = DrawCommand::Text {
        label: Label::Digit(digit(state.p1_hits)),
        x: rect_m1.x,
        y: rect_m1.y,
        color: PLAYER_TWO_COLOR,
    };
    if state.p0_hits > state.p1_hits {
        draws.push(d0);
        draws.push(d1);
    } else {
        draws.push(d1);
        draws.push(d0);
    }
    if state.p0_hits >= WINNING_HITS {
        draws.push(
            DrawCommand::Text { label: Label::PlayerTwoWins, x: 80, y: 128, color: PLAYER_TWO_COLOR },
        );
    }
    if state.p1_hits >= WINNING_HITS {
        draws.push(
            DrawCommand::Text { label: Label::PlayerOneWins, x: 80, y: 128, color: PLAYER_TWO_COLOR },
        );
    }

    let diff = state.p0_cps - state.p1_cps;
    let gap = if diff < 0 {
        -diff
    } else {
        diff
    };
    if gap > 8 {
        state.p0_hits = 0;
        state.p1_hits = 0;
        state.p0_cps = 0;
        draws.push(DrawCommand::Clear(RESTART_COLOR));
    }
    assert(draws@ =~= spec_frame_draws(s0, *m0, *m1));
    draws
}

fn fits(v: i128) -> (b: bool)
    ensures
        b == fits_i32(v as int),
{
    i32::MIN as i128 <= v && v <= i32::MAX as i128
}

fn axis_is_defined(a: i32, a_len: i32, b: i32, b_len: i32) -> (ok: bool)
    ensures
        ok == axis_defined(a as int, a_len as int, b as int, b_len as int),
{
    let (a, a_len, b, b_len) = (a as i128, a_len as i128, b as i128, b_len as i128);
    let p = b - a - a_len;
    let q = a - b - b_len;
    assert(-0x4_0000_0000 <= p <= 0x4_0000_0000 && -0x4_0000_0000 <= q <= 0x4_0000_0000);
    assert(-0x10_0000_0000_0000_0000 <= p * q <= 0x10_0000_0000_0000_0000) by (nonlinear_arith)
        requires
            -0x4_0000_0000 <= p <= 0x4_0000_0000,
            -0x4_0000_0000 <= q <= 0x4_0000_0000,
    ;
    fits(b - a) && fits(p) && fits(a - b) && fits(q) && fits(p * q)
}

/// Whether [`step`] can run on these inputs, that is whether the frame
/// computes without `i32` overflow.
pub fn step_is_defined(state: &GameState, m0: &Cursor, m1: &Cursor) -> (ok: bool)
    ensures
        ok == step_defined(*state, *m0, *m1),
{
    if !(fits(m0.x as i128 - CURSOR_W as i128) && fits(m0.y as i128 - CURSOR_H as i128) && fits(
        m1.x as i128 - CURSOR_W as i128,
    ) && fits(m1.y as i128 - CURSOR_H as i128)) {
        return false;
    }
    let r0 = cursor_rect(m0);
    let r1 = cursor_rect(m1);
    if !(axis_is_defined(r0.x, r0.w, r1.x, r1.w) && axis_is_defined(r0.y, r0.h, r1.y, r1.h)) {
        return false;
    }
    let collided = rect_collision(&r0, &r1);
    let mut s = *state;
    if m0.just_pressed && collided {
        if s.p1_hits == i32::MAX {
            return false;
        }
        s.p1_hits = s.p1_hits + 1;
    }
    if m1.just_pressed && collided {
        if s.p0_hits == i32::MAX {
            return false;
        }
        s.p0_hits = s.p0_hits + 1;
    }
    assert(s == after_hits(*state, *m0, *m1));
    if s.p0_hits >= WINNING_HITS || s.p1_hits >= WINNING_HITS {
        if m0.just_pressed {
            if s.p0_cps == i32::MAX {
                return false;
            }
            s.p0_cps = s.p0_cps + 1;
        }
        if m1.just_pressed {
            if s.p1_cps == i32::MAX {
                return false;
            }
            s.p1_cps = s.p1_cps + 1;
        }
    }
    let diff = s.p0_cps as i128 - s.p1_cps as i128;
    fits(diff) && diff != i32::MIN as i128
}

/// Law: a frame keeps every counter non-negative.
pub proof fn step_keeps_wf(s: GameState, m0: Cursor, m1: Cursor)
    requires
        s.wf(),
        step_defined(s, m0, m1),
    ensures
        spec_next_state(s, m0, m1).wf(),
{
}

/// Law: the shown scores are digits whenever the counters are non-negative.
pub proof fn shown_digits_are_digits(s: GameState, m0: Cursor, m1: Cursor)
    requires
        s.wf(),
        step_defined(s, m0, m1),
    ensures
        ({
            let s2 = after_race(after_hits(s, m0, m1), m0, m1);
            0 <= shown_digit(s2.p0_hits) <= 9 && 0 <= shown_digit(s2.p1_hits) <= 9
        }),
{
}

/// Law: a hit count grows by at most one per frame and only through a click of
/// the other player while the cursors touch; otherwise it stays, or drops to
/// zero when the race restarts the game.
pub proof fn hits_change_only_by_a_touching_click(s: GameState, m0: Cursor, m1: Cursor)
    requires
        s.wf(),
        step_defined(s, m0, m1),
    ensures
        ({
            let n = spec_next_state(s, m0, m1);
            &&& n.p1_hits == s.p1_hits + 1 ==> m0.just_pressed && cursors_collide(m0, m1)
            &&& n.p0_hits == s.p0_hits + 1 ==> m1.just_pressed && cursors_collide(m0, m1)
            &&& n.p1_hits == 0 || n.p1_hits == s.p1_hits || n.p1_hits == s.p1_hits + 1
            &&& n.p0_hits == 0 || n.p0_hits == s.p0_hits || n.p0_hits == s.p0_hits + 1
        }),
{
}

/// Law: clicks count towards the race only once a bout is over, and a race
/// won by more than eight clicks restarts the game, which then shows the
/// restart colour last.
pub proof fn race_and_restart(s: GameState, m0: Cursor, m1: Cursor)
    requires
        step_defined(s, m0, m1),
    ensures
        ({
            let s1 = after_hits(s, m0, m1);
            let s2 = after_race(s1, m0, m1);
            let n = spec_next_state(s, m0, m1);
            let d = spec_frame_draws(s, m0, m1);
            &&& !bout_over(s1) ==> s2.p0_cps == s.p0_cps && s2.p1_cps == s.p1_cps
            &&& race_decided(s2) ==> n.p0_hits == 0 && n.p1_hits == 0 && n.p0_cps == 0
                && n.p1_cps == s2.p1_cps && d.last() == DrawCommand::Clear(RESTART_COLOR)
            &&& !race_decided(s2) ==> n == s2
        }),
{
    let s1 = after_hits(s, m0, m1);
    let s2 = after_race(s1, m0, m1);
    let race = if bout_over(s1) {
        seq![DrawCommand::Clear(spec_interpolate_color(s2.p0_cps as int, s2.p1_cps as int) as u32)]
    } else {
        Seq::empty()
    };
    let body = race + score_draws(s2, spec_cursor_rect(m0), spec_cursor_rect(m1)) + win_draws(s2);
    if race_decided(s2) {
        assert(spec_frame_draws(s, m0, m1) == body + seq![DrawCommand::Clear(RESTART_COLOR)]);
    }
}

/// Law: inside the blend range the colour is the exact linear blend of the
/// click difference `d = a - b`: red `(d + 8) * 255 / 16`, green
/// `(8 - d) * 255 / 16`, blue and alpha full; outside it the colour is pure
/// magenta (first player ahead) or pure cyan.
pub proof fn interpolate_color_is_linear_blend(a: int, b: int)
    ensures
        -8 <= a - b <= 8 ==> spec_interpolate_color(a, b) == ((a - b + 8) * 255) / 16
            * 0x1000000 + ((8 - (a - b)) * 255) / 16 * 0x10000 + 0xFFFF,
        -8 < a - b < 8 ==> 0 < color_channels(a, b).0 < 255 && 0 < color_channels(a, b).1 < 255,
        a - b > 8 ==> spec_interpolate_color(a, b) == 0xFF00FFFF,
        a - b < -8 ==> spec_interpolate_color(a, b) == 0x00FFFFFF,
{
    let d = a - b;
    if -8 <= d <= 8 {
        assert(blend_weight(a, b) == d + 8);
        assert((16 - (d + 8)) * 0xFF + (d + 8) * 0xFF == 16 * 0xFF);
    }
}

/// Law: after the hits and clicks of a frame, the game restarts exactly when
/// one player's click count exceeds the other's by more than eight, whichever
/// player leads: both hit counts and the first click count go to zero, the
/// second click count is kept, and the restart colour is drawn last;
/// otherwise the state after the clicks stays and nothing black is drawn last.
pub proof fn restart_on_lead_over_eight(s: GameState, m0: Cursor, m1: Cursor)
    requires
        step_defined(s, m0, m1),
    ensures
        ({
            let s1 = after_hits(s, m0, m1);
            let over = s1.p0_hits >= 10 || s1.p1_hits >= 10;
            let c0 = s.p0_cps + (if over && m0.just_pressed {
                1int
            } else {
                0
            });
            let c1 = s.p1_cps + (if over && m1.just_pressed {
                1int
            } else {
                0
            });
            let n = spec_next_state(s, m0, m1);
            let d = spec_frame_draws(s, m0, m1);
            &&& (c0 - c1 > 8 || c1 - c0 > 8) ==> n.p0_hits == 0 && n.p1_hits == 0 && n.p0_cps
                == 0 && n.p1_cps == c1 && d.last() == DrawCommand::Clear(0x000000ff)
            &&& !(c0 - c1 > 8 || c1 - c0 > 8) ==> n.p0_hits == s1.p0_hits && n.p1_hits
                == s1.p1_hits && n.p0_cps == c0 && n.p1_cps == c1 && d.last()
                != DrawCommand::Clear(0x000000ff)
        }),
{
    let s1 = after_hits(s, m0, m1);
    let s2 = after_race(s1, m0, m1);
    let race = if bout_over(s1) {
        seq![DrawCommand::Clear(spec_interpolate_color(s2.p0_cps as int, s2.p1_cps as int) as u32)]
    } else {
        Seq::empty()
    };
    let body = race + score_draws(s2, spec_cursor_rect(m0), spec_cursor_rect(m1)) + win_draws(s2);
    if race_decided(s2) {
        assert(spec_frame_draws(s, m0, m1) == body + seq![DrawCommand::Clear(RESTART_COLOR)]);
    } else {
        let w = win_draws(s2);
        assert(spec_frame_draws(s, m0, m1) == body);
        if w.len() > 0 {
            assert(body.last() == w.last());
        } else {
            assert(body =~= race + score_draws(s2, spec_cursor_rect(m0), spec_cursor_rect(m1)));
        }
    }
}

/// Law: a click by one player while the two cursor boxes touch scores one hit
/// for the other player (or, when that frame's race restarts the game, the
/// counts are cleared); the cursor boxes end at the cursor, six wide and seven
/// high.
pub proof fn touching_click_scores(s: GameState, m0: Cursor, m1: Cursor)
    requires
        step_defined(s, m0, m1),
    ensures
        spec_cursor_rect(m0) == (Rectangle { x: (m0.x - 6) as i32, y: (m0.y - 7) as i32, w: 6, h: 7 }),
        ({
            let n = spec_next_state(s, m0, m1);
            let s1 = after_hits(s, m0, m1);
            let hit = cursors_collide(m0, m1);
            &&& s1.p1_hits == s.p1_hits + (if m0.just_pressed && hit {
                1int
            } else {
                0
            })
            &&& s1.p0_hits == s.p0_hits + (if m1.just_pressed && hit {
                1int
            } else {
                0
            })
            &&& n.p1_hits == s1.p1_hits || n.p1_hits == 0
            &&& n.p0_hits == s1.p0_hits || n.p0_hits == 0
        }),
{
}

/// Law: after the optional race colour, a frame draws the two score labels,
/// each at its player's cursor box and showing the hit count capped at nine:
/// the first player's in magenta and first when that player leads, the second
/// player's in white; "Player 2 wins!" is drawn exactly when the first
/// player's count reaches ten and "Player 1 wins!" exactly when the second's
/// does.
pub proof fn frame_labels(s: GameState, m0: Cursor, m1: Cursor)
    requires
        step_defined(s, m0, m1),
    ensures
        ({
            let s1 = after_hits(s, m0, m1);
            let d = spec_frame_draws(s, m0, m1);
            let k: int = if s1.p0_hits >= 10 || s1.p1_hits >= 10 {
                1
            } else {
                0
            };
            let l0 = DrawCommand::Text {
                label: Label::Digit(if s1.p0_hits < 9 {
                    s1.p0_hits
                } else {
                    9
                }),
                x: (m0.x - 6) as i32,
                y: (m0.y - 7) as i32,
                color: 0xff00ffff,
            };
            let l1 = DrawCommand::Text {
                label: Label::Digit(if s1.p1_hits < 9 {
                    s1.p1_hits
                } else {
                    9
                }),
                x: (m1.x - 6) as i32,
                y: (m1.y - 7) as i32,
                color: 0xffffffff,
            };
            let two = DrawCommand::Text { label: Label::PlayerTwoWins, x: 80, y: 128, color: 0xffffffff };
            let one = DrawCommand::Text { label: Label::PlayerOneWins, x: 80, y: 128, color: 0xffffffff };
            &&& k == 1 ==> d[0] == DrawCommand::Clear(
                spec_interpolate_color(
                    after_race(s1, m0, m1).p0_cps as int,
                    after_race(s1, m0, m1).p1_cps as int,
                ) as u32,
            )
            &&& s1.p0_hits > s1.p1_hits ==> d[k] == l0 && d[k + 1] == l1
            &&& s1.p0_hits <= s1.p1_hits ==> d[k] == l1 && d[k + 1] == l0
            &&& d.contains(two) == (s1.p0_hits >= 10)
            &&& d.contains(one) == (s1.p1_hits >= 10)
        }),
{
    let s1 = after_hits(s, m0, m1);
    let s2 = after_race(s1, m0, m1);
    let d = spec_frame_draws(s, m0, m1);
    let race = if bout_over(s1) {
        seq![DrawCommand::Clear(spec_interpolate_color(s2.p0_cps as int, s2.p1_cps as int) as u32)]
    } else {
        Seq::empty()
    };
    let sc = score_draws(s2, spec_cursor_rect(m0), spec_cursor_rect(m1));
    let w = win_draws(s2);
    let restart = if race_decided(s2) {
        seq![DrawCommand::Clear(RESTART_COLOR)]
    } else {
        Seq::empty()
    };
    assert(d == race + sc + w + restart);
    let two = DrawCommand::Text { label: Label::PlayerTwoWins, x: 80, y: 128, color: 0xffffffff };
    let one = DrawCommand::Text { label: Label::PlayerOneWins, x: 80, y: 128, color: 0xffffffff };
    let k = race.len() as int;
    assert(d[k] == sc[0] && d[k + 1] == sc[1]);
    if s1.p0_hits >= 10 {
        assert(d[k + 2] == two);
    }
    if s1.p1_hits >= 10 {
        let j = k + 2 + (if s1.p0_hits >= 10 { 1int } else { 0 });
        assert(d[j] == one);
    }
    if !(s1.p0_hits >= 10) {
        assert forall|i: int| 0 <= i < d.len() implies d[i] != two by {
            if i >= k + 2 && i < k + 2 + w.len() {
                assert(d[i] == w[i - k - 2]);
            }
        }
    }
    if !(s1.p1_hits >= 10) {
        assert forall|i: int| 0 <= i < d.len() implies d[i] != one by {
            if i >= k + 2 && i < k + 2 + w.len() {
                assert(d[i] == w[i - k - 2]);
            }
        }
    }
}

} // verus!
