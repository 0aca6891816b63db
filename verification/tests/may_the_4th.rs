use arcade::may_the_4th::{enemy_from_rolls, Counters, EnemySpawn, START_LIVES};

#[test]
fn first_spawn_waits_for_frame_62() {
    let mut c = Counters::new();
    for _ in 0..61 {
        c.end_frame();
    }
    assert_eq!(c.frame, 61);
    assert!(!c.spawn_due());
    c.end_frame();
    assert!(c.spawn_due());
    let e = c.try_spawn();
    assert!(e.is_some());
    let e = e.unwrap();
    assert!(e.x < 320 && (1..=3).contains(&e.dy));
    assert_eq!(c.last_enemy_spawn, 62);
    assert!(c.try_spawn().is_none());
}

#[test]
fn score_quickens_spawns_up_to_sixty() {
    let c = Counters { frame: 12, lives: 3, score: 50, last_enemy_spawn: 0 };
    assert!(c.spawn_due());
    let c = Counters { frame: 11, ..c };
    assert!(!c.spawn_due());
    let c = Counters { frame: 2, lives: 3, score: 60, last_enemy_spawn: 0 };
    assert!(c.spawn_due());
    let c = Counters { score: 1000, ..c };
    assert!(c.spawn_due());
    let c = Counters { frame: 1, ..c };
    assert!(!c.spawn_due());
}

#[test]
fn enemy_rolls() {
    assert_eq!(enemy_from_rolls(0, 0), EnemySpawn { x: 0, dy: 1 });
    assert_eq!(enemy_from_rolls(650, 5), EnemySpawn { x: 10, dy: 3 });
    assert_eq!(enemy_from_rolls(u32::MAX, u32::MAX), EnemySpawn { x: 255, dy: 1 });
}

#[test]
fn fire_restarts_only_after_game_over() {
    let mut c = Counters { frame: 5, lives: 2, score: 7, last_enemy_spawn: 3 };
    assert!(!c.fire());
    assert_eq!(c, Counters { frame: 5, lives: 2, score: 7, last_enemy_spawn: 3 });
    c.lose_life();
    c.lose_life();
    c.lose_life();
    assert_eq!(c.lives, -1);
    assert_eq!(c.life_markers(), None);
    assert!(c.fire());
    assert_eq!(c, Counters { frame: 5, lives: START_LIVES, score: 0, last_enemy_spawn: 3 });
}

#[test]
fn life_markers_from_the_right() {
    let c = Counters::new();
    assert_eq!(c.life_markers(), Some(vec![300, 280, 260]));
    let one = Counters { lives: 1, ..c };
    assert_eq!(one.life_markers(), Some(vec![300]));
    let zero = Counters { lives: 0, ..c };
    assert_eq!(zero.life_markers(), None);
}

#[test]
fn scoring() {
    let mut c = Counters::new();
    c.score_hit();
    c.score_hit();
    assert_eq!(c.score, 2);
}
