//! The player: lateral movement and firing.

use vstd::prelude::*;
use crate::geometry::{advance_coord, clamp_i32, normalize, stepped, unit_toward, Direction, Point};
use crate::timer::Timer;
use crate::bullet::Bullet;

verus! {

/// Half the height of the player's ship, in milli-units; shots leave from its top.
pub const PLAYER_HALF_HEIGHT: i32 = 100;

/// The player's ship.
#[derive(Clone, Copy, Debug, PartialEq, Eq, Structural)]
pub struct Player {
    pub position: Point,
    /// World units per second per wheel line.
    pub movement_speed: u32,
    pub shot_cooldown: Timer,
    /// Shots that may still be fired while the projectiles in flight stay alive.
    pub shot_limit: u32,
}

impl Player {
    /// Where a shot leaves the ship: the middle of its top edge.
    pub open spec fn muzzle(self) -> Point {
        Point { x: self.position.x, y: clamp_i32(self.position.y + PLAYER_HALF_HEIGHT) }
    }

    /// The projectile a shot toward `cursor` would be, if the cursor is not
    /// at the muzzle itself.
    pub open spec fn shot_toward(self, cursor: Point) -> Option<Bullet> {
        let m = self.muzzle();
        match unit_toward(cursor.x - m.x, cursor.y - m.y) {
            Some(d) => Some(Bullet { position: m, direction: d }),
            None => None,
        }
    }

    /// Whether the ship moves this tick: only while it is within the view.
    pub open spec fn may_move(self, half_width: int) -> bool {
        -half_width <= self.position.x <= half_width
    }

    /// The ship after `wheel` lines of scrolling.
    pub open spec fn wheeled(self, wheel: int, half_width: int, dt_us: int, scale: int) -> Player {
        if self.may_move(half_width) {
            Player {
                position: Point {
                    x: stepped(self.position.x as int, self.movement_speed as int, dt_us, scale, wheel * WHEEL_UNIT),
                    y: self.position.y,
                },
                ..self
            }
        } else {
            self
        }
    }
}

/// The ship after each wheel event of `events` in turn; each moves it only
/// while it is still within the view.
pub open spec fn wheeled_all(p: Player, events: Seq<i32>, half_width: int, dt_us: int, scale: int) -> Player
    decreases events.len(),
{
    if events.len() == 0 {
        p
    } else {
        wheeled_all(p, events.drop_last(), half_width, dt_us, scale).wheeled(
            events.last() as int,
            half_width,
            dt_us,
            scale,
        )
    }
}

/// The player and the projectiles after the fire step.
pub open spec fn fire_outcome(p: Player, bs: Seq<Bullet>, cursor: Point, fire: bool, dt_us: int) -> (
    Player,
    Seq<Bullet>,
) {
    let ready = p.shot_cooldown.is_finished() && p.shot_limit != 0;
    let shot = if ready && fire {
        p.shot_toward(cursor)
    } else {
        None
    };
    (
        Player {
            shot_limit: if shot is Some {
                (p.shot_limit - 1) as u32
            } else {
                p.shot_limit
            },
            shot_cooldown: if ready {
                p.shot_cooldown.restarted().ticked(dt_us)
            } else {
                p.shot_cooldown.ticked(dt_us)
            },
            ..p
        },
        match shot {
            Some(b) => bs.push(b),
            None => bs,
        },
    )
}

/// One million: a wheel line as a motion component.
pub const WHEEL_UNIT: i64 = 1_000_000;

/// Moves the ship sideways for each wheel event in turn, by the event's lines
/// of scrolling at its movement speed, scaled by the elapsed time and the
/// time scale; an event finding the ship already outside the view's half
/// width leaves it where it is.
pub fn move_player(player: &mut Player, wheel: &Vec<i32>, half_width: i32, dt_us: u32, time_scale: u32)
    requires
        time_scale <= 1000,
    ensures
        *final(player) == wheeled_all(*old(player), wheel@, half_width as int, dt_us as int, time_scale as int),
        final(player).position.y == old(player).position.y,
        final(player).movement_speed == old(player).movement_speed,
        final(player).shot_cooldown == old(player).shot_cooldown,
        final(player).shot_limit == old(player).shot_limit,
{
    let n = wheel.len();
    let mut i: usize = 0;
    while i < n
        invariant
            n == wheel@.len(),
            i <= n,
            time_scale <= 1000,
            *player == wheeled_all(*old(player), wheel@.take(i as int), half_width as int, dt_us as int, time_scale as int),
            player.position.y == old(player).position.y,
            player.movement_speed == old(player).movement_speed,
            player.shot_cooldown == old(player).shot_cooldown,
            player.shot_limit == old(player).shot_limit,
        decreases n - i,
    {
        proof {
            assert(wheel@.take(i + 1).drop_last() =~= wheel@.take(i as int));
        }
        let x = player.position.x as i64;
        let hw = half_width as i64;
        if -hw <= x && x <= hw {
            let comp = (wheel[i] as i64) * WHEEL_UNIT;
            player.position.x = advance_coord(player.position.x, player.movement_speed, dt_us, time_scale, comp);
        }
        i = i + 1;
    }
    proof {
        assert(wheel@.take(n as int) =~= wheel@);
    }
}

/// Fires toward `cursor` when the cooldown has run out, a shot is left and
/// `fire` is held; a cursor on the muzzle gives no direction and no shot.
/// Whenever the cooldown had run out with a shot left, it restarts; then it
/// advances by `dt_us`.
pub fn spawn_projectile(player: &mut Player, bullets: &mut Vec<Bullet>, cursor: Point, fire: bool, dt_us: u32)
    requires
        old(player).shot_cooldown.wf(),
    ensures
        (*final(player), final(bullets)@) == fire_outcome(*old(player), old(bullets)@, cursor, fire, dt_us as int),
        final(player).shot_cooldown.wf(),
{
    if player.shot_cooldown.finished() && player.shot_limit != 0 {
        if fire {
            let top: i64 = (player.position.y as i64) + (PLAYER_HALF_HEIGHT as i64);
            let top_y: i32 = if top > i32::MAX as i64 { i32::MAX } else { top as i32 };
            let muzzle = Point { x: player.position.x, y: top_y };
            let vx: i64 = (cursor.x as i64) - (muzzle.x as i64);
            let vy: i64 = (cursor.y as i64) - (muzzle.y as i64);
            match normalize(vx, vy) {
                Some(d) => {
                    bullets.push(Bullet { position: muzzle, direction: d });
                    player.shot_limit = player.shot_limit - 1;
                },
                None => {},
            }
        }
        player.shot_cooldown.reset();
    }
    player.shot_cooldown.tick(dt_us as u64);
}

} // verus!
