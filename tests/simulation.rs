use wave_shooter::bullet::{despawn_projectile, move_bullets, Bullet};
use wave_shooter::enemy::{bullet_enemy_collision_system, move_enemies, Enemy};
use wave_shooter::game::{setup_game, TickInput, SHOT_CAPACITY};
use wave_shooter::geometry::{isqrt, normalize, Collider, Direction, Point};
use wave_shooter::level::{
    advance_level, display_ui, spawn_enemies, spawn_enemies_at, update_level_info, update_time_scale,
    EnemiesLeft, Hud, LevelInfo,
};
use wave_shooter::player::{move_player, spawn_projectile, Player};
use wave_shooter::timer::Timer;

fn finished(duration_us: u64) -> Timer {
    Timer { duration_us, elapsed_us: duration_us, paused: false }
}

fn level(level_number: u64, total_enemies: u64, enemy_health: u32) -> LevelInfo {
    LevelInfo {
        level_number,
        total_enemies,
        enemy_spawn_timer: Timer { duration_us: 1_000_000, elapsed_us: 400_000, paused: true },
        enemy_health,
        time_scale: 1000,
        level_transition_timer: finished(3_000_000),
        spawned: total_enemies,
    }
}

fn player_with(shot_limit: u32) -> Player {
    Player {
        position: Point { x: 0, y: -300_000 },
        movement_speed: 1000,
        shot_cooldown: finished(500_000),
        shot_limit,
    }
}

fn up_bullet(x: i32, y: i32) -> Bullet {
    Bullet { position: Point { x, y }, direction: Direction { x: 0, y: 1000 } }
}

#[test]
fn level_advance_from_level_one() {
    let mut li = level(1, 1, 1);
    let mut el = EnemiesLeft { prev: 1, curr: 0, next: 2 };
    let advanced = update_level_info(&mut li, &mut el, 16_000);
    assert!(advanced);
    assert_eq!(el, EnemiesLeft { prev: 1, curr: 2, next: 3 });
    assert_eq!(li.level_number, 2);
    assert_eq!(li.enemy_health, 1);
    assert_eq!(li.total_enemies, 2);
    assert_eq!(li.spawned, 0);
    assert_eq!(li.enemy_spawn_timer, Timer { duration_us: 1_000_000, elapsed_us: 0, paused: false });
}

#[test]
fn level_advance_onto_fifth_level_clamps_next() {
    let mut li = level(4, 1, 1);
    let mut el = EnemiesLeft { prev: 1, curr: 0, next: 2 };
    assert!(update_level_info(&mut li, &mut el, 16_000));
    assert_eq!(li.level_number, 5);
    assert_eq!(li.enemy_health, 2);
    assert_eq!(el, EnemiesLeft { prev: 1, curr: 0, next: 1 });
    assert_eq!(li.total_enemies, 0);
}

#[test]
fn level_advance_onto_fifth_level_reduces_next_by_five() {
    let mut li = level(4, 3, 2);
    let mut el = EnemiesLeft { prev: 2, curr: 0, next: 8 };
    advance_level(&mut li, &mut el);
    assert_eq!(li.level_number, 5);
    assert_eq!(li.enemy_health, 3);
    assert_eq!(el, EnemiesLeft { prev: 3, curr: 3, next: 6 });
    assert_eq!(li.total_enemies, 3);
}

#[test]
fn level_advance_on_tenth_level_spikes_again() {
    let mut li = level(9, 10, 2);
    let mut el = EnemiesLeft { prev: 6, curr: 0, next: 16 };
    advance_level(&mut li, &mut el);
    assert_eq!(li.level_number, 10);
    assert_eq!(li.enemy_health, 3);
    assert_eq!(el, EnemiesLeft { prev: 10, curr: 11, next: 21 });
}

#[test]
fn clearing_starts_by_pausing_spawns_and_restarting_the_pause() {
    let mut li = level(3, 5, 1);
    li.enemy_spawn_timer.paused = false;
    let mut el = EnemiesLeft { prev: 3, curr: 0, next: 8 };
    let advanced = update_level_info(&mut li, &mut el, 16_000);
    assert!(!advanced);
    assert!(li.enemy_spawn_timer.paused);
    assert_eq!(li.level_transition_timer.elapsed_us, 16_000);
    assert_eq!(li.level_number, 3);
    assert_eq!(el, EnemiesLeft { prev: 3, curr: 0, next: 8 });
}

#[test]
fn active_level_is_left_alone() {
    let mut li = level(3, 5, 1);
    li.level_transition_timer.elapsed_us = 100;
    let before = li;
    let mut el = EnemiesLeft { prev: 3, curr: 2, next: 8 };
    assert!(!update_level_info(&mut li, &mut el, 16_000));
    assert_eq!(li, before);
    assert_eq!(el, EnemiesLeft { prev: 3, curr: 2, next: 8 });
}

#[test]
fn projectile_moves_at_normal_speed() {
    let mut bullets = vec![up_bullet(0, 400_000)];
    move_bullets(&mut bullets, 100_000, 1000);
    assert_eq!(bullets[0].position, Point { x: 0, y: 450_000 });
}

#[test]
fn projectile_moves_at_half_speed_while_slowed() {
    let mut li = level(1, 1, 1);
    update_time_scale(&mut li, true);
    assert_eq!(li.time_scale, 500);
    let mut bullets = vec![up_bullet(0, 400_000)];
    move_bullets(&mut bullets, 100_000, li.time_scale);
    assert_eq!(bullets[0].position, Point { x: 0, y: 425_000 });
    update_time_scale(&mut li, false);
    assert_eq!(li.time_scale, 1000);
}

#[test]
fn projectile_direction_is_kept_by_motion() {
    let d = Direction { x: -600, y: 800 };
    let mut bullets = vec![Bullet { position: Point { x: 1_000, y: 2_000 }, direction: d }];
    move_bullets(&mut bullets, 1_000_000, 1000);
    assert_eq!(bullets[0].direction, d);
    assert_eq!(bullets[0].position, Point { x: 1_000 - 300_000, y: 2_000 + 400_000 });
}

#[test]
fn enemy_with_one_health_dies_with_the_projectile() {
    let mut bullets = vec![up_bullet(0, 0)];
    let mut enemies = vec![Enemy {
        position: Point { x: 30_000, y: 0 },
        movement_speed: 75,
        direction: Direction { x: 0, y: -1000 },
        health: 1,
    }];
    let mut el = EnemiesLeft { prev: 1, curr: 1, next: 2 };
    let mut player = player_with(2);
    bullet_enemy_collision_system(&mut bullets, &mut enemies, &mut el, &mut player);
    assert!(bullets.is_empty());
    assert!(enemies.is_empty());
    assert_eq!(el, EnemiesLeft { prev: 1, curr: 0, next: 2 });
    assert_eq!(player.shot_limit, 3);
}

#[test]
fn sturdier_enemy_loses_one_health_per_hit() {
    let enemy = Enemy {
        position: Point { x: 0, y: 0 },
        movement_speed: 75,
        direction: Direction { x: 0, y: -1000 },
        health: 3,
    };
    let mut bullets = vec![up_bullet(0, 10_000), up_bullet(0, -10_000), up_bullet(200_000, 0)];
    let mut enemies = vec![enemy];
    let mut el = EnemiesLeft { prev: 1, curr: 4, next: 2 };
    let mut player = player_with(0);
    bullet_enemy_collision_system(&mut bullets, &mut enemies, &mut el, &mut player);
    assert_eq!(bullets, vec![up_bullet(200_000, 0)]);
    assert_eq!(enemies.len(), 1);
    assert_eq!(enemies[0].health, 1);
    assert_eq!(el.curr, 4);
    assert_eq!(player.shot_limit, 2);
}

#[test]
fn projectile_hits_only_the_first_overlapping_enemy() {
    let e = |x: i32| Enemy {
        position: Point { x, y: 0 },
        movement_speed: 75,
        direction: Direction { x: 0, y: -1000 },
        health: 1,
    };
    let mut bullets = vec![up_bullet(0, 0)];
    let mut enemies = vec![e(-20_000), e(20_000)];
    let mut el = EnemiesLeft { prev: 1, curr: 2, next: 2 };
    let mut player = player_with(2);
    bullet_enemy_collision_system(&mut bullets, &mut enemies, &mut el, &mut player);
    assert_eq!(enemies, vec![e(20_000)]);
    assert_eq!(el.curr, 1);
}

#[test]
fn boxes_that_touch_collide() {
    let a = Collider { center: Point { x: 0, y: 0 }, half_width: 25_000, half_height: 10_000 };
    let touching = Collider { center: Point { x: 60_000, y: 45_000 }, half_width: 35_000, half_height: 35_000 };
    let apart = Collider { center: Point { x: 60_001, y: 0 }, half_width: 35_000, half_height: 35_000 };
    assert!(a.intersects(&touching));
    assert!(!a.intersects(&apart));
}

#[test]
fn projectile_past_half_width_is_reaped_and_recycled() {
    let mut bullets = vec![up_bullet(500_001, 0), up_bullet(0, 0)];
    let mut player = player_with(1);
    despawn_projectile(&mut bullets, &mut player, 500_000, 400_000);
    assert_eq!(bullets, vec![up_bullet(0, 0)]);
    assert_eq!(player.shot_limit, 2);
}

#[test]
fn projectile_on_the_edge_stays() {
    let mut bullets = vec![up_bullet(-500_000, 400_000), up_bullet(0, -400_001)];
    let mut player = player_with(1);
    despawn_projectile(&mut bullets, &mut player, 500_000, 400_000);
    assert_eq!(bullets, vec![up_bullet(-500_000, 400_000)]);
    assert_eq!(player.shot_limit, 2);
}

#[test]
fn reaping_twice_removes_once() {
    let mut bullets = vec![up_bullet(0, 900_000), up_bullet(0, 0), up_bullet(-700_000, 0)];
    let mut player = player_with(0);
    despawn_projectile(&mut bullets, &mut player, 500_000, 400_000);
    assert_eq!(bullets, vec![up_bullet(0, 0)]);
    assert_eq!(player.shot_limit, 2);
    despawn_projectile(&mut bullets, &mut player, 500_000, 400_000);
    assert_eq!(bullets, vec![up_bullet(0, 0)]);
    assert_eq!(player.shot_limit, 2);
}

#[test]
fn enemy_weaves_above_the_threshold() {
    let e = Enemy {
        position: Point { x: 0, y: 0 },
        movement_speed: 75,
        direction: Direction { x: 0, y: -1000 },
        health: 1,
    };
    let mut straight = vec![e];
    move_enemies(&mut straight, 0, 1_000_000, 1000);
    assert_eq!(straight[0].position, Point { x: 0, y: -75_000 });
    let mut weaving = vec![e];
    move_enemies(&mut weaving, 1000, 1_000_000, 1000);
    assert_eq!(weaving[0].position, Point { x: 75_000, y: -75_000 });
    let mut slowed = vec![e];
    move_enemies(&mut slowed, -500, 1_000_000, 500);
    assert_eq!(slowed[0].position, Point { x: -18_750, y: -37_500 });
    assert_eq!(slowed[0].direction, e.direction);
}

#[test]
fn enemy_below_the_threshold_heads_straight_down() {
    let e = Enemy {
        position: Point { x: 10_000, y: -200_000 },
        movement_speed: 75,
        direction: Direction { x: 600, y: -800 },
        health: 2,
    };
    let mut enemies = vec![e];
    move_enemies(&mut enemies, 1000, 1_000_000, 1000);
    assert_eq!(enemies[0].position, Point { x: 10_000, y: -275_000 });
    assert_eq!(enemies[0].health, 2);
}

#[test]
fn square_roots_round_down() {
    assert_eq!(isqrt(0), 0);
    assert_eq!(isqrt(10), 3);
    assert_eq!(isqrt(16), 4);
    assert_eq!(isqrt((1u128 << 68) - 1), (1u64 << 34) - 1);
    assert_eq!(isqrt(1u128 << 68), 1u64 << 34);
}

#[test]
fn normalize_gives_unit_directions() {
    assert_eq!(normalize(3_000, 4_000), Some(Direction { x: 600, y: 800 }));
    assert_eq!(normalize(-3, 4), Some(Direction { x: -600, y: 800 }));
    assert_eq!(normalize(0, -750_000), Some(Direction { x: 0, y: -1000 }));
    assert_eq!(normalize(0, 0), None);
}

#[test]
fn timer_counts_down_pauses_and_resets() {
    let mut t = Timer::new(1_000);
    assert!(!t.finished());
    t.tick(400);
    assert_eq!(t.elapsed_us, 400);
    t.pause();
    t.tick(400);
    assert_eq!(t.elapsed_us, 400);
    t.unpause();
    t.tick(5_000);
    assert_eq!(t.elapsed_us, 1_000);
    assert!(t.finished());
    t.reset();
    assert_eq!(t.elapsed_us, 0);
    assert!(Timer::new_finished(7).finished());
}

fn ready_level() -> LevelInfo {
    LevelInfo {
        level_number: 2,
        total_enemies: 2,
        enemy_spawn_timer: finished(1_000_000),
        enemy_health: 4,
        time_scale: 1000,
        level_transition_timer: finished(3_000_000),
        spawned: 1,
    }
}

#[test]
fn spawn_when_both_timers_have_finished() {
    let mut li = ready_level();
    let mut enemies = Vec::new();
    spawn_enemies_at(&mut li, &mut enemies, Point { x: 0, y: -300_000 }, 0, 16_000);
    assert_eq!(
        enemies,
        vec![Enemy {
            position: Point { x: 0, y: 500_000 },
            movement_speed: 75,
            direction: Direction { x: 0, y: -1000 },
            health: 4,
        }]
    );
    assert_eq!(li.spawned, 2);
    assert_eq!(li.enemy_spawn_timer.elapsed_us, 0);
    // The level's enemies have all been sent: the timer only advances.
    li.enemy_spawn_timer = finished(1_000_000);
    spawn_enemies_at(&mut li, &mut enemies, Point { x: 0, y: -300_000 }, 0, 16_000);
    assert_eq!(enemies.len(), 1);
}

#[test]
fn no_spawn_while_the_spawn_timer_runs() {
    let mut li = ready_level();
    li.enemy_spawn_timer.elapsed_us = 100;
    let mut enemies = Vec::new();
    spawn_enemies_at(&mut li, &mut enemies, Point { x: 0, y: -300_000 }, 0, 16_000);
    assert!(enemies.is_empty());
    assert_eq!(li.enemy_spawn_timer.elapsed_us, 16_100);
    assert_eq!(li.spawned, 1);
}

#[test]
fn no_spawn_during_the_pause_between_levels() {
    let mut li = ready_level();
    li.level_transition_timer.elapsed_us = 0;
    let mut enemies = Vec::new();
    spawn_enemies_at(&mut li, &mut enemies, Point { x: 0, y: -300_000 }, 0, 16_000);
    assert!(enemies.is_empty());
}

#[test]
fn no_enemy_without_a_direction() {
    let mut li = ready_level();
    let mut enemies = Vec::new();
    spawn_enemies_at(&mut li, &mut enemies, Point { x: 7, y: 450_000 }, 7, 16_000);
    assert!(enemies.is_empty());
    assert_eq!(li.spawned, 1);
    assert_eq!(li.enemy_spawn_timer.elapsed_us, 0);
}

#[test]
fn random_spawn_columns_stay_inside_the_margin() {
    let mut seen = Vec::new();
    for _ in 0..20 {
        let mut li = ready_level();
        let mut enemies = Vec::new();
        spawn_enemies(&mut li, &mut enemies, Point { x: 0, y: -300_000 }, 540_000, 16_000);
        assert_eq!(enemies.len(), 1);
        let x = enemies[0].position.x;
        assert!(-515_000 <= x && x < 515_000);
        assert_eq!(enemies[0].position.y, 500_000);
        seen.push(x);
    }
    assert!(seen.iter().any(|x| *x != seen[0]));
}

#[test]
fn narrow_view_spawns_in_the_middle() {
    let mut li = ready_level();
    let mut enemies = Vec::new();
    spawn_enemies(&mut li, &mut enemies, Point { x: 0, y: -300_000 }, 20_000, 16_000);
    assert_eq!(enemies[0].position.x, 0);
}

#[test]
fn firing_spends_a_shot() {
    let mut player = player_with(3);
    let mut bullets = Vec::new();
    spawn_projectile(&mut player, &mut bullets, Point { x: 0, y: 0 }, true, 16_000);
    assert_eq!(bullets, vec![up_bullet(0, -299_900)]);
    assert_eq!(player.shot_limit, 2);
    assert_eq!(player.shot_cooldown.elapsed_us, 16_000);
    // Cooling down: no second shot.
    spawn_projectile(&mut player, &mut bullets, Point { x: 0, y: 0 }, true, 16_000);
    assert_eq!(bullets.len(), 1);
    assert_eq!(player.shot_cooldown.elapsed_us, 32_000);
}

#[test]
fn no_shot_without_shots_left_or_direction() {
    let mut player = player_with(0);
    let mut bullets = Vec::new();
    spawn_projectile(&mut player, &mut bullets, Point { x: 0, y: 0 }, true, 16_000);
    assert!(bullets.is_empty());
    assert_eq!(player.shot_cooldown.elapsed_us, 500_000);
    let mut player = player_with(3);
    spawn_projectile(&mut player, &mut bullets, Point { x: 0, y: -299_900 }, true, 16_000);
    assert!(bullets.is_empty());
    assert_eq!(player.shot_limit, 3);
    assert_eq!(player.shot_cooldown.elapsed_us, 16_000);
}

#[test]
fn wheel_moves_the_player_inside_the_view_only() {
    let mut player = player_with(3);
    move_player(&mut player, &vec![2], 540_000, 100_000, 500);
    assert_eq!(player.position, Point { x: 100_000, y: -300_000 });
    player.position.x = 600_000;
    move_player(&mut player, &vec![-1], 540_000, 100_000, 1000);
    assert_eq!(player.position.x, 600_000);
}

#[test]
fn each_wheel_event_checks_the_view_edge() {
    let mut player = player_with(3);
    player.position.x = 530_000;
    move_player(&mut player, &vec![1, 1], 540_000, 100_000, 1000);
    assert_eq!(player.position.x, 630_000);
    move_player(&mut player, &vec![], 540_000, 100_000, 1000);
    assert_eq!(player.position.x, 630_000);
    player.position.x = 0;
    move_player(&mut player, &vec![1, -3, 1], 540_000, 100_000, 1000);
    assert_eq!(player.position.x, -100_000);
}

#[test]
fn two_projectiles_on_a_dying_enemy_spend_only_one() {
    let mut bullets = vec![up_bullet(0, 5_000), up_bullet(0, -5_000)];
    let mut enemies = vec![Enemy {
        position: Point { x: 0, y: 0 },
        movement_speed: 75,
        direction: Direction { x: 0, y: -1000 },
        health: 1,
    }];
    let mut el = EnemiesLeft { prev: 1, curr: 3, next: 2 };
    let mut player = player_with(1);
    bullet_enemy_collision_system(&mut bullets, &mut enemies, &mut el, &mut player);
    assert!(enemies.is_empty());
    assert_eq!(bullets, vec![up_bullet(0, -5_000)]);
    assert_eq!(el.curr, 2);
    assert_eq!(player.shot_limit, 2);
}

#[test]
fn hud_shows_level_total_and_scale() {
    let li = level(7, 13, 2);
    assert_eq!(display_ui(&li), Hud { level_number: 7, total_enemies: 13, time_scale: 1000 });
}

#[test]
fn setup_starts_on_level_one() {
    let g = setup_game();
    assert_eq!(g.level_info.level_number, 1);
    assert_eq!(g.enemies_left, EnemiesLeft { prev: 1, curr: 1, next: 2 });
    assert_eq!(g.player.shot_limit, SHOT_CAPACITY);
    assert!(g.enemies.is_empty() && g.bullets.is_empty());
    assert_eq!(g.player.movement_speed, 1000);
    assert_eq!(g.player.shot_cooldown, Timer::new(500_000));
    assert_eq!(g.level_info.enemy_spawn_timer, Timer::new(1_000_000));
    assert_eq!(g.level_info.level_transition_timer, finished(3_000_000));
    assert_eq!(g.cursor, Point { x: 0, y: -200_000 });
}

#[test]
fn ticks_keep_health_positive_and_count_down_monotonically() {
    let mut g = setup_game();
    let mut saw_enemy = false;
    for i in 0..3_000u32 {
        let weave = ((i % 2_000) as i32) - 1_000;
        let input = TickInput {
            dt_us: 16_667,
            fire: true,
            slowdown: i % 7 == 0,
            cursor_moved: Some(Point { x: ((i % 200) as i32 - 100) * 3_000, y: 400_000 }),
            wheel: Vec::new(),
            half_width: 540_000,
            half_height: 460_000,
            weave,
        };
        let before = g.enemies_left.curr;
        let advanced = g.tick(&input);
        assert!(g.enemies.iter().all(|e| e.health >= 1));
        assert_eq!(g.player.shot_limit as usize + g.bullets.len(), SHOT_CAPACITY as usize);
        if g.enemies_left.curr > before {
            assert!(advanced);
        }
        saw_enemy |= !g.enemies.is_empty();
    }
    assert!(saw_enemy);
}

fn quiet_input(dt_us: u32) -> TickInput {
    TickInput {
        dt_us,
        fire: false,
        slowdown: false,
        cursor_moved: None,
        wheel: Vec::new(),
        half_width: 540_000,
        half_height: 460_000,
        weave: 0,
    }
}

#[test]
fn cleared_level_waits_for_the_pause_then_advances() {
    let mut g = setup_game();
    g.enemies_left.curr = 0;
    g.level_info.spawned = 1;
    let mut advanced_at = None;
    for i in 0..6 {
        if g.tick(&quiet_input(1_000_000)) {
            advanced_at = Some(i);
            break;
        }
        assert!(g.level_info.enemy_spawn_timer.paused);
        assert!(g.enemies.is_empty());
    }
    assert_eq!(advanced_at, Some(3));
    assert_eq!(g.level_info.level_number, 2);
    assert_eq!(g.enemies_left, EnemiesLeft { prev: 1, curr: 2, next: 3 });
    assert!(!g.level_info.enemy_spawn_timer.paused);
}

#[test]
fn first_enemy_appears_after_the_spawn_interval() {
    let mut g = setup_game();
    assert!(!g.tick(&quiet_input(600_000)));
    assert!(g.enemies.is_empty());
    g.tick(&quiet_input(600_000));
    assert!(g.enemies.is_empty());
    g.tick(&quiet_input(16_000));
    assert_eq!(g.enemies.len(), 1);
    assert_eq!(g.level_info.spawned, 1);
    assert_eq!(g.enemies[0].health, 1);
    // The level's single enemy has been sent.
    for _ in 0..100 {
        g.tick(&quiet_input(100_000));
    }
    assert_eq!(g.level_info.spawned, 1);
    assert_eq!(g.enemies_left.curr, 1);
}
