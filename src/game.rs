//! The whole simulation state and its per-tick pipeline.

use vstd::prelude::*;
use crate::bullet::{despawn_projectile, kept_in_view, lemma_kept_in_view_from, move_bullets, all_moved, reap_outcome, Bullet};
use crate::enemy::{bullet_enemy_collision_system, collision_outcome, lemma_resolve_kept_from, move_enemies, resolve, Enemy, WEAVE_ONE};
use crate::geometry::Point;
use crate::level::{
    directed, sat_add_u64, spawn_column_allowed, spawn_enemies, spawn_outcome, time_scale_for, update_level_info,
    update_time_scale, EnemiesLeft, LevelInfo, NORMAL_TIME_SCALE,
};
use crate::player::{fire_outcome, move_player, spawn_projectile, wheeled_all, Player};
use crate::timer::Timer;

verus! {

/// Shots the player may have in flight at once.
pub const SHOT_CAPACITY: u32 = 3;
/// Where the player starts, in milli-units.
pub const PLAYER_START_Y: i32 = -300_000;
/// Player movement speed, in world units per second per wheel line.
pub const PLAYER_SPEED: u32 = 1000;
pub const SHOT_COOLDOWN_US: u64 = 500_000;
pub const SPAWN_INTERVAL_US: u64 = 1_000_000;
pub const LEVEL_TRANSITION_US: u64 = 3_000_000;
/// Where the cursor is taken to be before it first moves, in milli-units.
pub const CURSOR_START_Y: i32 = -200_000;

/// Everything the simulation owns.
pub struct Game {
    pub player: Player,
    pub enemies: Vec<Enemy>,
    pub bullets: Vec<Bullet>,
    pub level_info: LevelInfo,
    pub enemies_left: EnemiesLeft,
    /// The last known cursor position, in world milli-units.
    pub cursor: Point,
}

/// What the environment hands the simulation each tick.
#[derive(Clone, Debug)]
pub struct TickInput {
    /// Time since the last tick, in microseconds.
    pub dt_us: u32,
    /// The fire button is held.
    pub fire: bool,
    /// The slowdown button is held.
    pub slowdown: bool,
    /// The cursor's new world position, if it moved.
    pub cursor_moved: Option<Point>,
    /// Wheel events since the last tick, in lines scrolled, in order.
    pub wheel: Vec<i32>,
    /// Half the view's width and height, in milli-units.
    pub half_width: i32,
    pub half_height: i32,
    /// The sine of `2 * pi * t`, in thousandths, where `t` is the game's
    /// elapsed time in seconds: the phase of the enemies' weave.
    pub weave: i32,
}

/// The simulation state as values.
pub struct GameView {
    pub player: Player,
    pub enemies: Seq<Enemy>,
    pub bullets: Seq<Bullet>,
    pub level_info: LevelInfo,
    pub enemies_left: EnemiesLeft,
    pub cursor: Point,
}

impl View for Game {
    type V = GameView;

    open spec fn view(&self) -> GameView {
        GameView {
            player: self.player,
            enemies: self.enemies@,
            bullets: self.bullets@,
            level_info: self.level_info,
            enemies_left: self.enemies_left,
            cursor: self.cursor,
        }
    }
}

/// The state after one tick, when a spawn happening this tick uses column `x`.
pub open spec fn tick_outcome(g: GameView, input: TickInput, x: int) -> GameView {
    let li0 = LevelInfo { time_scale: time_scale_for(input.slowdown), ..g.level_info };
    let cursor = match input.cursor_moved {
        Some(p) => p,
        None => g.cursor,
    };
    let scale = li0.time_scale as int;
    let dt = input.dt_us as int;
    let walked = wheeled_all(g.player, input.wheel@, input.half_width as int, dt, scale);
    let (armed, fired) = fire_outcome(walked, g.bullets, cursor, input.fire, dt);
    let flown = all_moved(fired, dt, scale);
    let advanced = crate::enemy::all_moved(g.enemies, input.weave as int, dt, scale);
    let (missed, survivors, counted, credited) = collision_outcome(flown, advanced, g.enemies_left, armed);
    let (in_view, player) = reap_outcome(missed, credited, input.half_width as int, input.half_height as int);
    let (spawn_li, spawned) = spawn_outcome(li0, survivors, player.position, x, dt);
    let (level_info, enemies_left) = directed(spawn_li, counted, dt);
    GameView { player, enemies: spawned, bullets: in_view, level_info, enemies_left, cursor }
}

/// The count of enemies left never rises within a level: a tick after
/// which it is higher is a tick in which the next level began.
pub proof fn lemma_curr_rises_only_on_advance(g: GameView, input: TickInput, x: int)
    ensures
        tick_outcome(g, input, x).enemies_left.curr > g.enemies_left.curr ==> tick_outcome(
            g,
            input,
            x,
        ).level_info.level_number == sat_add_u64(g.level_info.level_number as int, 1)
            && tick_outcome(g, input, x).enemies_left.curr == tick_outcome(g, input, x).level_info.total_enemies,
{
}

impl Game {
    /// The invariant kept from tick to tick: timers are well formed, the time
    /// scale is at most normal, every live enemy has positive health, the
    /// player's remaining shots and the projectiles in flight add up to the
    /// shot capacity, and the enemies still to kill are those not yet spawned
    /// plus those alive.
    pub open spec fn wf(self) -> bool {
        &&& self.player.shot_cooldown.wf()
        &&& self.player.shot_limit + self.bullets@.len() == SHOT_CAPACITY
        &&& self.level_info.enemy_spawn_timer.wf()
        &&& self.level_info.level_transition_timer.wf()
        &&& self.level_info.time_scale <= 1000
        &&& self.level_info.enemy_health >= 1
        &&& forall|i: int| 0 <= i < self.enemies@.len() ==> #[trigger] self.enemies@[i].health >= 1
        &&& self.level_info.spawned <= self.level_info.total_enemies
        &&& self.enemies_left.curr + self.level_info.spawned == self.level_info.total_enemies
            + self.enemies@.len()
    }
}

/// A projectile's direction never changes: after moving, resolving hits
/// against `es` and the bounds reaper, each projectile left has the
/// direction of one of the projectiles `bs` it started from.
pub proof fn lemma_directions_kept(
    bs: Seq<Bullet>,
    es: Seq<Enemy>,
    dt_us: int,
    scale: int,
    half_width: int,
    half_height: int,
)
    ensures
        forall|j: int|
            0 <= j < kept_in_view(resolve(all_moved(bs, dt_us, scale), es).0, half_width, half_height).len()
                ==> exists|i: int|
                0 <= i < bs.len() && #[trigger] kept_in_view(
                    resolve(all_moved(bs, dt_us, scale), es).0,
                    half_width,
                    half_height,
                )[j].direction == bs[i].direction,
{
    let moved = all_moved(bs, dt_us, scale);
    let hit = resolve(moved, es).0;
    let out = kept_in_view(hit, half_width, half_height);
    lemma_resolve_kept_from(moved, es);
    lemma_kept_in_view_from(hit, half_width, half_height);
    assert forall|j: int| 0 <= j < out.len() implies exists|i: int|
        0 <= i < bs.len() && #[trigger] out[j].direction == bs[i].direction by {
        let k = choose|k: int| 0 <= k < hit.len() && out[j] == hit[k];
        let i = choose|i: int| 0 <= i < moved.len() && hit[k] == moved[i];
        assert(moved[i] == bs[i].moved(dt_us, scale));
    }
}

/// The starting state: level one with one enemy to send, the player at the
/// bottom with a full set of shots.
pub fn setup_game() -> (g: Game)
    ensures
        g.wf(),
        g.player == (Player {
            position: Point { x: 0, y: PLAYER_START_Y },
            movement_speed: PLAYER_SPEED,
            shot_cooldown: Timer { duration_us: SHOT_COOLDOWN_US, elapsed_us: 0, paused: false },
            shot_limit: SHOT_CAPACITY,
        }),
        g.level_info == (LevelInfo {
            level_number: 1,
            total_enemies: 1,
            enemy_spawn_timer: Timer { duration_us: SPAWN_INTERVAL_US, elapsed_us: 0, paused: false },
            enemy_health: 1,
            time_scale: NORMAL_TIME_SCALE,
            level_transition_timer: Timer {
                duration_us: LEVEL_TRANSITION_US,
                elapsed_us: LEVEL_TRANSITION_US,
                paused: false,
            },
            spawned: 0,
        }),
        g.enemies_left == (EnemiesLeft { prev: 1, curr: 1, next: 2 }),
        g.cursor == (Point { x: 0, y: CURSOR_START_Y }),
        g.enemies@.len() == 0,
        g.bullets@.len() == 0,
{
    Game {
        player: Player {
            position: Point { x: 0, y: PLAYER_START_Y },
            movement_speed: PLAYER_SPEED,
            shot_cooldown: Timer::new(SHOT_COOLDOWN_US),
            shot_limit: SHOT_CAPACITY,
        },
        enemies: Vec::new(),
        bullets: Vec::new(),
        level_info: LevelInfo {
            level_number: 1,
            total_enemies: 1,
            enemy_spawn_timer: Timer::new(SPAWN_INTERVAL_US),
            enemy_health: 1,
            time_scale: NORMAL_TIME_SCALE,
            level_transition_timer: Timer::new_finished(LEVEL_TRANSITION_US),
            spawned: 0,
        },
        enemies_left: EnemiesLeft { prev: 1, curr: 1, next: 2 },
        cursor: Point { x: 0, y: CURSOR_START_Y },
    }
}

impl Game {
    /// One simulation step, in order: time scale, cursor, player movement,
    /// firing, projectile and enemy motion, collisions, the bounds reaper,
    /// spawning, and the wave director. Returns whether a new level began.
    pub fn tick(&mut self, input: &TickInput) -> (advanced: bool)
        requires
            old(self).wf(),
            -WEAVE_ONE <= input.weave <= WEAVE_ONE,
        ensures
            exists|x: int|
                spawn_column_allowed(input.half_width as int, x) && final(self)@ == #[trigger] tick_outcome(
                    old(self)@,
                    *input,
                    x,
                ),
            final(self).wf(),
            final(self).level_info.time_scale == time_scale_for(input.slowdown),
            final(self).cursor == match input.cursor_moved {
                Some(p) => p,
                None => old(self).cursor,
            },
            final(self).enemies_left.curr > old(self).enemies_left.curr ==> advanced,
            advanced ==> final(self).enemies@.len() == 0 && final(self).level_info.spawned == 0
                && final(self).enemies_left.curr == final(self).level_info.total_enemies,
    {
        update_time_scale(&mut self.level_info, input.slowdown);
        match input.cursor_moved {
            Some(p) => {
                self.cursor = p;
            },
            None => {},
        }
        let scale = self.level_info.time_scale;
        let dt = input.dt_us;
        move_player(&mut self.player, &input.wheel, input.half_width, dt, scale);
        spawn_projectile(&mut self.player, &mut self.bullets, self.cursor, input.fire, dt);
        move_bullets(&mut self.bullets, dt, scale);
        move_enemies(&mut self.enemies, input.weave, dt, scale);
        bullet_enemy_collision_system(&mut self.bullets, &mut self.enemies, &mut self.enemies_left, &mut self.player);
        despawn_projectile(&mut self.bullets, &mut self.player, input.half_width, input.half_height);
        let ghost li1 = self.level_info;
        let ghost es2 = self.enemies@;
        spawn_enemies(&mut self.level_info, &mut self.enemies, self.player.position, input.half_width, dt);
        let ghost x = choose|x: int|
            spawn_column_allowed(input.half_width as int, x) && (self.level_info, self.enemies@)
                == #[trigger] spawn_outcome(li1, es2, self.player.position, x, dt as int);
        let advanced = update_level_info(&mut self.level_info, &mut self.enemies_left, dt);
        assert(self@ == tick_outcome(old(self)@, *input, x));
        advanced
    }
}

} // verus!
