//! Wave bookkeeping: enemy counters, level progression, spawning and the
//! time scale.

use rand::Rng;
use vstd::prelude::*;
use crate::enemy::Enemy;
use crate::geometry::{unit_toward, Point};
use crate::timer::Timer;

verus! {

/// Enemy counters across levels.
#[derive(Clone, Copy, Debug, PartialEq, Eq, Structural)]
pub struct EnemiesLeft {
    /// Enemies assigned to the previous level.
    pub prev: u64,
    /// Enemies of the current level still to be killed.
    pub curr: u64,
    /// Enemies to assign to the next level.
    pub next: u64,
}

/// The state of the current level.
#[derive(Clone, Copy, Debug, PartialEq, Eq, Structural)]
pub struct LevelInfo {
    pub level_number: u64,
    /// Enemies assigned to this level.
    pub total_enemies: u64,
    pub enemy_spawn_timer: Timer,
    /// Health of each enemy spawned in this level.
    pub enemy_health: u32,
    /// Time scale in thousandths: 1000 is normal speed.
    pub time_scale: u32,
    /// The pause between a cleared level and the next one.
    pub level_transition_timer: Timer,
    /// Enemies spawned so far in this level; spawning stops at `total_enemies`.
    pub spawned: u64,
}


/// The values shown on the heads-up display.
#[derive(Clone, Copy, Debug, PartialEq, Eq, Structural)]
pub struct Hud {
    pub level_number: u64,
    pub total_enemies: u64,
    /// In thousandths.
    pub time_scale: u32,
}

/// What the heads-up display shows: the level number, the level's enemy
/// total and the time scale.
pub fn display_ui(level_info: &LevelInfo) -> (h: Hud)
    ensures
        h == (Hud {
            level_number: level_info.level_number,
            total_enemies: level_info.total_enemies,
            time_scale: level_info.time_scale,
        }),
{
    Hud {
        level_number: level_info.level_number,
        total_enemies: level_info.total_enemies,
        time_scale: level_info.time_scale,
    }
}

/// Time scale while the slowdown input is held, in thousandths.
pub const SLOW_TIME_SCALE: u32 = 500;
/// Normal time scale, in thousandths.
pub const NORMAL_TIME_SCALE: u32 = 1000;

/// Every this many levels enemies get one more health and the next wave
/// is five enemies smaller.
pub const SPIKE_PERIOD: u64 = 5;
pub const SPIKE_REDUCTION: u64 = 5;

/// Margin kept free of spawns across the view's width, in milli-units.
pub const SPAWN_BUFFER: i32 = 50_000;
/// Height at which enemies appear, in milli-units.
pub const SPAWN_Y: i32 = 500_000;
/// Enemies aim this far above the player, in milli-units.
pub const AIM_OFFSET_Y: i32 = 50_000;
/// Enemy speed, in world units per second.
pub const ENEMY_SPEED: u32 = 75;

pub open spec fn sat_add_u64(a: int, b: int) -> u64 {
    if a + b > u64::MAX {
        u64::MAX
    } else {
        (a + b) as u64
    }
}

pub open spec fn sat_sub_u64(a: int, b: int) -> u64 {
    if a - b < 0 {
        0
    } else {
        (a - b) as u64
    }
}

pub open spec fn time_scale_for(slowdown_held: bool) -> u32 {
    if slowdown_held {
        SLOW_TIME_SCALE
    } else {
        NORMAL_TIME_SCALE
    }
}

/// Sets the time scale: slow while the slowdown input is held, else normal.
pub fn update_time_scale(level_info: &mut LevelInfo, slowdown_held: bool)
    ensures
        *final(level_info) == (LevelInfo { time_scale: time_scale_for(slowdown_held), ..*old(level_info) }),
{
    if slowdown_held {
        level_info.time_scale = SLOW_TIME_SCALE;
    } else {
        level_info.time_scale = NORMAL_TIME_SCALE;
    }
}

/// The state after a cleared level gives way to the next one. Counts
/// saturate instead of wrapping, and the spike reduction stops at zero.
pub open spec fn next_level(li: LevelInfo, el: EnemiesLeft) -> (LevelInfo, EnemiesLeft) {
    let level = sat_add_u64(li.level_number as int, 1);
    let spike = level % SPIKE_PERIOD == 0;
    let prev = li.total_enemies;
    let health = if spike && li.enemy_health < u32::MAX {
        (li.enemy_health + 1) as u32
    } else {
        li.enemy_health
    };
    let curr = if spike {
        sat_sub_u64(el.next as int, SPIKE_REDUCTION as int)
    } else {
        el.next
    };
    let next = sat_add_u64(curr as int, prev as int);
    (
        LevelInfo {
            level_number: level,
            total_enemies: curr,
            enemy_health: health,
            enemy_spawn_timer: Timer { elapsed_us: 0, paused: false, ..li.enemy_spawn_timer },
            spawned: 0,
            ..li
        },
        EnemiesLeft { prev, curr, next },
    )
}

/// Moves on to the next level: the level number goes up by one; `prev`
/// takes the finished level's total; every fifth level enemy health rises
/// by one and `next` drops by five; then `curr` takes `next`, `next` becomes
/// `curr + prev`, the level's total is `curr`, and spawning restarts.
pub fn advance_level(level_info: &mut LevelInfo, enemies_left: &mut EnemiesLeft)
    ensures
        (*final(level_info), *final(enemies_left)) == next_level(*old(level_info), *old(enemies_left)),
{
    level_info.level_number = level_info.level_number.saturating_add(1);
    enemies_left.prev = level_info.total_enemies;
    if level_info.level_number % SPIKE_PERIOD == 0 {
        if level_info.enemy_health < u32::MAX {
            level_info.enemy_health = level_info.enemy_health + 1;
        }
        enemies_left.next = enemies_left.next.saturating_sub(SPIKE_REDUCTION);
    }
    enemies_left.curr = enemies_left.next;
    enemies_left.next = enemies_left.curr.saturating_add(enemies_left.prev);
    level_info.total_enemies = enemies_left.curr;
    level_info.spawned = 0;
    level_info.enemy_spawn_timer.reset();
    level_info.enemy_spawn_timer.unpause();
}

/// The wave director after one tick of `dt_us` microseconds.
pub open spec fn directed(li: LevelInfo, el: EnemiesLeft, dt_us: int) -> (LevelInfo, EnemiesLeft) {
    if el.curr == 0 {
        let transition = if li.enemy_spawn_timer.paused {
            li.level_transition_timer
        } else {
            li.level_transition_timer.restarted()
        };
        let clearing = LevelInfo {
            enemy_spawn_timer: Timer { paused: true, ..li.enemy_spawn_timer },
            level_transition_timer: transition,
            ..li
        };
        if transition.is_finished() {
            next_level(clearing, el)
        } else {
            (LevelInfo { level_transition_timer: transition.ticked(dt_us), ..clearing }, el)
        }
    } else {
        (li, el)
    }
}

/// The wave director. While enemies remain nothing changes. Once `curr` is
/// zero the level is clearing: on the first such tick the spawn timer is
/// paused and the transition timer restarts; the transition timer then runs,
/// and when it has finished the next level begins (see `advance_level`).
/// Returns whether the next level began.
pub fn update_level_info(level_info: &mut LevelInfo, enemies_left: &mut EnemiesLeft, dt_us: u32) -> (advanced: bool)
    requires
        old(level_info).level_transition_timer.wf(),
    ensures
        advanced == (old(enemies_left).curr == 0 && (if old(level_info).enemy_spawn_timer.paused {
            old(level_info).level_transition_timer
        } else {
            old(level_info).level_transition_timer.restarted()
        }).is_finished()),
        (*final(level_info), *final(enemies_left)) == directed(
            *old(level_info),
            *old(enemies_left),
            dt_us as int,
        ),
        final(level_info).level_transition_timer.wf(),
{
    if enemies_left.curr == 0 {
        if !level_info.enemy_spawn_timer.paused {
            level_info.level_transition_timer.reset();
        }
        level_info.enemy_spawn_timer.pause();
        if level_info.level_transition_timer.finished() {
            advance_level(level_info, enemies_left);
            return true;
        } else {
            level_info.level_transition_timer.tick(dt_us as u64);
        }
    }
    false
}

/// Spawning is open when both timers have finished and the level still has
/// enemies to send.
pub open spec fn spawn_open(li: LevelInfo) -> bool {
    li.enemy_spawn_timer.is_finished() && li.level_transition_timer.is_finished() && li.spawned
        < li.total_enemies
}

/// The enemy that appears at `x`, aimed just above the player; none when
/// the aim point coincides with the spawn point.
pub open spec fn enemy_at(li: LevelInfo, player_position: Point, x: int) -> Option<Enemy> {
    match unit_toward(player_position.x - x, player_position.y + AIM_OFFSET_Y - SPAWN_Y) {
        Some(d) => Some(
            Enemy {
                position: Point { x: x as i32, y: SPAWN_Y },
                movement_speed: ENEMY_SPEED,
                direction: d,
                health: li.enemy_health,
            },
        ),
        None => None,
    }
}

/// The spawn controller's outcome when the spawn column is `x`.
pub open spec fn spawn_outcome(li: LevelInfo, es: Seq<Enemy>, player_position: Point, x: int, dt_us: int) -> (
    LevelInfo,
    Seq<Enemy>,
) {
    if spawn_open(li) {
        let li1 = LevelInfo { enemy_spawn_timer: li.enemy_spawn_timer.restarted(), ..li };
        match enemy_at(li, player_position, x) {
            Some(e) => (LevelInfo { spawned: (li.spawned + 1) as u64, ..li1 }, es.push(e)),
            None => (li1, es),
        }
    } else {
        (LevelInfo { enemy_spawn_timer: li.enemy_spawn_timer.ticked(dt_us), ..li }, es)
    }
}

/// The columns where an enemy may appear in a view of half width
/// `half_width`: the half-open span `SPAWN_BUFFER` narrower than the view,
/// or the centre when the view is no wider than the margin.
pub open spec fn spawn_column_allowed(half_width: int, x: int) -> bool {
    let half_span = half_width - SPAWN_BUFFER / 2;
    if half_span > 0 {
        -half_span <= x < half_span
    } else {
        x == 0
    }
}

/// The spawn controller for a spawn column already chosen: when spawning is
/// open, an enemy appears at `(x, SPAWN_Y)` with the level's health and
/// the spawn timer restarts; otherwise the spawn timer advances.
pub fn spawn_enemies_at(
    level_info: &mut LevelInfo,
    enemies: &mut Vec<Enemy>,
    player_position: Point,
    x: i32,
    dt_us: u32,
)
    requires
        old(level_info).enemy_spawn_timer.wf(),
    ensures
        (*final(level_info), final(enemies)@) == spawn_outcome(
            *old(level_info),
            old(enemies)@,
            player_position,
            x as int,
            dt_us as int,
        ),
{
    if level_info.enemy_spawn_timer.finished() && level_info.level_transition_timer.finished()
        && level_info.spawned < level_info.total_enemies {
        let vx: i64 = (player_position.x as i64) - (x as i64);
        let vy: i64 = (player_position.y as i64) + (AIM_OFFSET_Y as i64) - (SPAWN_Y as i64);
        match crate::geometry::normalize(vx, vy) {
            Some(d) => {
                enemies.push(
                    Enemy {
                        position: Point { x, y: SPAWN_Y },
                        movement_speed: ENEMY_SPEED,
                        direction: d,
                        health: level_info.enemy_health,
                    },
                );
                level_info.spawned = level_info.spawned + 1;
            },
            None => {},
        }
        level_info.enemy_spawn_timer.reset();
    } else {
        level_info.enemy_spawn_timer.tick(dt_us as u64);
    }
}

/// Relies on rand's `thread_rng().gen_range(lo..hi)`: a value drawn from the
/// half-open range `lo..hi`, which panics when that range is empty.
#[verifier::external_body]
fn random_in_range(lo: i32, hi: i32) -> (r: i32)
    requires
        lo < hi,
    ensures
        lo <= r < hi,
{
    rand::thread_rng().gen_range(lo..hi)
}

/// The spawn controller: when spawning is open it draws a random column
/// within the view, less the margin, and spawns there as `spawn_enemies_at`
/// does.
pub fn spawn_enemies(
    level_info: &mut LevelInfo,
    enemies: &mut Vec<Enemy>,
    player_position: Point,
    half_width: i32,
    dt_us: u32,
)
    requires
        old(level_info).enemy_spawn_timer.wf(),
    ensures
        exists|x: int|
            spawn_column_allowed(half_width as int, x) && (*final(level_info), final(enemies)@)
                == #[trigger] spawn_outcome(*old(level_info), old(enemies)@, player_position, x, dt_us as int),
{
    let half_span: i64 = (half_width as i64) - (SPAWN_BUFFER as i64) / 2;
    let x: i32 = if half_span > 0 && level_info.enemy_spawn_timer.finished()
        && level_info.level_transition_timer.finished() && level_info.spawned < level_info.total_enemies {
        random_in_range(-(half_span as i32), half_span as i32)
    } else if half_span > 0 {
        -(half_span as i32)
    } else {
        0
    };
    spawn_enemies_at(level_info, enemies, player_position, x, dt_us);
    assert(spawn_column_allowed(half_width as int, x as int));
}

} // verus!
