use arcade::catch_me::{
    step, step_is_defined, Cursor, DrawCommand, GameState, Label, PLAYER_ONE_COLOR,
    PLAYER_TWO_COLOR, RESTART_COLOR,
};
use arcade::{interpolate_color, rect_collision, Rectangle};

fn r(x: i32, y: i32, w: i32, h: i32) -> Rectangle {
    Rectangle { x, y, w, h }
}

#[test]
fn collision_when_boxes_overlap() {
    assert!(rect_collision(&r(0, 0, 6, 7), &r(3, 3, 6, 7)));
}

#[test]
fn collision_when_edges_touch() {
    assert!(rect_collision(&r(0, 0, 6, 7), &r(6, 7, 6, 7)));
}

#[test]
fn no_collision_when_apart_on_one_axis() {
    assert!(!rect_collision(&r(0, 0, 6, 7), &r(7, 0, 6, 7)));
    assert!(!rect_collision(&r(0, 0, 6, 7), &r(0, 8, 6, 7)));
    assert!(!rect_collision(&r(0, 0, 6, 7), &r(-7, 0, 6, 7)));
}

#[test]
fn collision_is_symmetric_on_examples() {
    let a = r(10, 20, 6, 7);
    for (x, y) in [(4, 13), (16, 27), (17, 20), (10, 28), (12, 22)] {
        let b = r(x, y, 6, 7);
        assert_eq!(rect_collision(&a, &b), rect_collision(&b, &a));
    }
}

#[test]
fn collision_of_negative_sizes_is_the_product_test() {
    // Both widths -1 at the same x: the product (1 * 1) is non-negative.
    assert!(rect_collision(&r(0, 0, -1, -1), &r(0, 0, -1, -1)));
}

#[test]
fn color_exact_values() {
    assert_eq!(interpolate_color(0, 0), 0x7F7FFFFF);
    assert_eq!(interpolate_color(3, 0), 0xAF4FFFFF);
    assert_eq!(interpolate_color(-3, 0), 0x4FAFFFFF);
    assert_eq!(interpolate_color(1, 0), 0x8F6FFFFF);
}

#[test]
fn color_extremes_are_magenta_and_cyan() {
    assert_eq!(interpolate_color(8, 0), 0xFF00FFFF);
    assert_eq!(interpolate_color(100, 3), 0xFF00FFFF);
    assert_eq!(interpolate_color(0, 8), 0x00FFFFFF);
    assert_eq!(interpolate_color(-50, 50), 0x00FFFFFF);
}

#[test]
fn color_depends_only_on_difference_and_mirrors() {
    for d in -10..=10 {
        let c = interpolate_color(d, 0);
        assert_eq!(c, interpolate_color(d + 40, 40));
        assert_eq!(c & 0xFFFF, 0xFFFF);
        let m = interpolate_color(0, d);
        assert_eq!((c >> 24) & 0xFF, (m >> 16) & 0xFF);
        assert_eq!((c >> 16) & 0xFF, (m >> 24) & 0xFF);
    }
}

#[test]
fn color_is_monotone() {
    let mut prev = interpolate_color(-9, 0);
    for d in -8..=9 {
        let c = interpolate_color(d, 0);
        assert!(c >> 24 >= prev >> 24);
        assert!((c >> 16) & 0xFF <= (prev >> 16) & 0xFF);
        prev = c;
    }
}

fn cursor(x: i32, y: i32, just_pressed: bool) -> Cursor {
    Cursor { x, y, just_pressed }
}

#[test]
fn click_on_touching_cursor_scores_for_other_player() {
    let mut s = GameState::new();
    let m0 = cursor(100, 100, true);
    let m1 = cursor(102, 101, false);
    assert!(step_is_defined(&s, &m0, &m1));
    let d = step(&mut s, &m0, &m1);
    assert_eq!(s, GameState { p0_hits: 0, p1_hits: 1, p0_cps: 0, p1_cps: 0 });
    assert_eq!(
        d,
        vec![
            DrawCommand::Text { label: Label::Digit(1), x: 96, y: 94, color: PLAYER_TWO_COLOR },
            DrawCommand::Text { label: Label::Digit(0), x: 94, y: 93, color: PLAYER_ONE_COLOR },
        ]
    );
}

#[test]
fn click_away_from_other_cursor_scores_nothing() {
    let mut s = GameState::new();
    let d = step(&mut s, &cursor(10, 10, true), &cursor(200, 200, true));
    assert_eq!(s, GameState::new());
    assert_eq!(d.len(), 2);
}

#[test]
fn leader_is_drawn_first() {
    let mut s = GameState { p0_hits: 4, p1_hits: 2, p0_cps: 0, p1_cps: 0 };
    let d = step(&mut s, &cursor(10, 10, false), &cursor(200, 200, false));
    assert_eq!(
        d,
        vec![
            DrawCommand::Text { label: Label::Digit(4), x: 4, y: 3, color: PLAYER_ONE_COLOR },
            DrawCommand::Text { label: Label::Digit(2), x: 194, y: 193, color: PLAYER_TWO_COLOR },
        ]
    );
}

#[test]
fn tenth_hit_ends_bout_and_starts_race() {
    let mut s = GameState { p0_hits: 9, p1_hits: 3, p0_cps: 0, p1_cps: 0 };
    let d = step(&mut s, &cursor(50, 50, false), &cursor(51, 51, true));
    assert_eq!(s, GameState { p0_hits: 10, p1_hits: 3, p0_cps: 0, p1_cps: 1 });
    assert_eq!(
        d,
        vec![
            DrawCommand::Clear(interpolate_color(0, 1)),
            DrawCommand::Text { label: Label::Digit(9), x: 44, y: 43, color: PLAYER_ONE_COLOR },
            DrawCommand::Text { label: Label::Digit(3), x: 45, y: 44, color: PLAYER_TWO_COLOR },
            DrawCommand::Text { label: Label::PlayerTwoWins, x: 80, y: 128, color: PLAYER_TWO_COLOR },
        ]
    );
}

#[test]
fn decided_race_restarts_but_keeps_second_clicks() {
    let mut s = GameState { p0_hits: 1, p1_hits: 10, p0_cps: 8, p1_cps: 0 };
    let d = step(&mut s, &cursor(10, 10, true), &cursor(200, 200, false));
    assert_eq!(s, GameState { p0_hits: 0, p1_hits: 0, p0_cps: 0, p1_cps: 0 });
    assert_eq!(d.first(), Some(&DrawCommand::Clear(0xFF00FFFF)));
    assert_eq!(d.last(), Some(&DrawCommand::Clear(RESTART_COLOR)));
    assert!(d.contains(&DrawCommand::Text {
        label: Label::PlayerOneWins,
        x: 80,
        y: 128,
        color: PLAYER_TWO_COLOR
    }));

    let mut t = GameState { p0_hits: 0, p1_hits: 0, p0_cps: 0, p1_cps: 12 };
    let d = step(&mut t, &cursor(10, 10, false), &cursor(200, 200, false));
    assert_eq!(t, GameState { p0_hits: 0, p1_hits: 0, p0_cps: 0, p1_cps: 12 });
    assert_eq!(d.last(), Some(&DrawCommand::Clear(RESTART_COLOR)));
}

#[test]
fn overflowing_frames_are_not_defined() {
    let s = GameState::new();
    assert!(!step_is_defined(&s, &cursor(i32::MIN, 0, false), &cursor(0, 0, false)));
    assert!(!step_is_defined(&s, &cursor(i32::MAX, 0, false), &cursor(-100_000, 0, false)));
    let full = GameState { p0_hits: 0, p1_hits: i32::MAX, p0_cps: 0, p1_cps: 0 };
    assert!(!step_is_defined(&full, &cursor(5, 5, true), &cursor(5, 5, false)));
    assert!(step_is_defined(&full, &cursor(5, 5, false), &cursor(5, 5, false)));
    let race = GameState { p0_hits: 10, p1_hits: 0, p0_cps: 0, p1_cps: i32::MAX };
    assert!(!step_is_defined(&race, &cursor(5, 5, false), &cursor(500, 500, true)));
    assert!(step_is_defined(&race, &cursor(5, 5, false), &cursor(500, 500, false)));
}
