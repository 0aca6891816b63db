use arcade::darth_chips::{
    calories, ease_angle, elapsed_seconds, enemy_color, radius, roll_spawn, spawn_from_rolls,
    timer_x, Counters, EnemyType, Spawn, CALORIE_LIMIT, LIGHTNING_COOLDOWN, SCREEN_H, SCREEN_W,
};

#[test]
fn saber_eases_and_stops_short() {
    let steps: Vec<i32> = (0..20)
        .scan(0, |a, _| {
            *a = ease_angle(*a, 180);
            Some(*a)
        })
        .collect();
    assert_eq!(&steps[..4], &[36, 64, 87, 105]);
    assert_eq!(*steps.last().unwrap(), 176);
    assert_eq!(ease_angle(176, 180), 176);
    assert_eq!(ease_angle(0, -7), -1);
    assert_eq!(ease_angle(0, -4), 0);
    assert_eq!(ease_angle(90, 90), 90);
}

#[test]
fn turning_flips_target_by_half_turn() {
    let mut c = Counters::new();
    assert!(c.turn_is_defined(true));
    c.turn_saber(true);
    assert_eq!((c.target_angle, c.current_angle), (180, 36));
    c.turn_saber(false);
    assert_eq!((c.target_angle, c.current_angle), (180, 64));
    let mut high = Counters { target_angle: i32::MAX, ..Counters::new() };
    assert!(!high.turn_is_defined(true));
    high.current_angle = -10;
    assert!(!high.turn_is_defined(false));
}

#[test]
fn lightning_fires_then_recharges() {
    let mut c = Counters::new();
    assert!(c.force_lightning(true));
    assert_eq!(c.force_lightning_cooldown, LIGHTNING_COOLDOWN - 1);
    for k in 1..LIGHTNING_COOLDOWN {
        assert!(!c.force_lightning(true));
        assert_eq!(c.force_lightning_cooldown, LIGHTNING_COOLDOWN - 1 - k);
    }
    assert!(c.force_lightning(true));
    assert!(!Counters::new().force_lightning(false));
}

#[test]
fn cooldown_display_in_seconds() {
    let mut c = Counters::new();
    assert_eq!(c.cooldown_seconds(), None);
    c.force_lightning_cooldown = 299;
    assert_eq!(c.cooldown_seconds(), Some(4));
    c.force_lightning_cooldown = 59;
    assert_eq!(c.cooldown_seconds(), Some(0));
}

#[test]
fn calories_end_the_game_until_restart() {
    let mut c = Counters::new();
    for _ in 0..79 {
        c.eat(EnemyType::Chip);
    }
    assert_eq!(c.calorie_count, 1975);
    assert!(!c.begin_frame());
    c.eat(EnemyType::Lime);
    assert_eq!(c.calorie_count, CALORIE_LIMIT + 25);
    assert!(c.begin_frame());
    assert!(!c.game_over_input(false, 500));
    assert!(c.game_over);
    c.target_angle = 360;
    assert!(c.game_over_input(true, 500));
    assert_eq!(c, Counters { game_tick: 500, ..Counters::new() });
    assert!(!c.begin_frame());
}

#[test]
fn enemy_kinds() {
    assert_eq!((calories(EnemyType::Chip), calories(EnemyType::Lime)), (25, 50));
    assert_eq!((radius(EnemyType::Chip), radius(EnemyType::Lime)), (16, 8));
    assert_eq!(enemy_color(EnemyType::Chip), 0xc2b280ff);
    assert_eq!(enemy_color(EnemyType::Lime), 0x00ff00ff);
}

#[test]
fn spawn_rolls() {
    assert_eq!(spawn_from_rolls(1, 0, 0, 0), None);
    assert_eq!(spawn_from_rolls(29, 0, 0, 0), None);
    assert_eq!(
        spawn_from_rolls(0, 1, 0, 500),
        Some(Spawn { enemy_type: EnemyType::Chip, x: 180, y: 0 })
    );
    assert_eq!(
        spawn_from_rolls(60, 2, 1, 7),
        Some(Spawn { enemy_type: EnemyType::Chip, x: 7, y: 240 })
    );
    assert_eq!(
        spawn_from_rolls(30, 3, 2, 250),
        Some(Spawn { enemy_type: EnemyType::Lime, x: 0, y: 10 })
    );
    assert_eq!(
        spawn_from_rolls(90, 6, 7, 241),
        Some(Spawn { enemy_type: EnemyType::Lime, x: 320, y: 1 })
    );
}

#[test]
fn rolled_spawns_lie_on_the_border() {
    for _ in 0..50 {
        if let Some(s) = roll_spawn() {
            assert!(s.x <= SCREEN_W && s.y <= SCREEN_H);
            assert!(s.x == 0 || s.x == SCREEN_W || s.y == 0 || s.y == SCREEN_H);
        }
    }
}

#[test]
fn timer() {
    assert_eq!(elapsed_seconds(3659, 59), 60);
    assert_eq!(elapsed_seconds(100, 100), 0);
    assert_eq!(elapsed_seconds(159, 100), 0);
    assert_eq!(timer_x(99), 270);
    assert_eq!(timer_x(100), 264);
}
