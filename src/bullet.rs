//! Projectiles: straight-line motion and removal once they leave the view.

use vstd::prelude::*;
use crate::geometry::{advance_coord, axis_step, clamp_i32, lemma_half_scale_halves_step, stepped, trunc_div, Collider, Direction, Point, DIR_ONE};
use crate::player::Player;

verus! {

/// Projectile speed, in world units per second.
pub const BULLET_SPEED: u32 = 500;

/// Half extents of a projectile's hit box, in milli-units.
pub const BULLET_HALF_WIDTH: i32 = 25_000;
pub const BULLET_HALF_HEIGHT: i32 = 10_000;

/// A projectile. Its direction is fixed when it is fired.
#[derive(Clone, Copy, Debug, PartialEq, Eq, Structural)]
pub struct Bullet {
    pub position: Point,
    pub direction: Direction,
}

impl Bullet {
    /// The projectile after `dt_us` microseconds under time scale `scale`.
    pub open spec fn moved(self, dt_us: int, scale: int) -> Bullet {
        Bullet {
            position: Point {
                x: stepped(self.position.x as int, BULLET_SPEED as int, dt_us, scale, self.direction.x * DIR_ONE),
                y: stepped(self.position.y as int, BULLET_SPEED as int, dt_us, scale, self.direction.y * DIR_ONE),
            },
            direction: self.direction,
        }
    }

    /// Inside the closed view rectangle centred on the origin.
    pub open spec fn in_view(self, half_width: int, half_height: int) -> bool {
        -half_width <= self.position.x <= half_width && -half_height <= self.position.y <= half_height
    }

    pub open spec fn hitbox(self) -> Collider {
        Collider { center: self.position, half_width: BULLET_HALF_WIDTH, half_height: BULLET_HALF_HEIGHT }
    }

    pub fn collider(&self) -> (c: Collider)
        ensures
            c == self.hitbox(),
    {
        Collider { center: self.position, half_width: BULLET_HALF_WIDTH, half_height: BULLET_HALF_HEIGHT }
    }

    pub fn advanced(&self, dt_us: u32, time_scale: u32) -> (b: Bullet)
        requires
            time_scale <= 1000,
        ensures
            b == self.moved(dt_us as int, time_scale as int),
    {
        let comp_x = (self.direction.x as i64) * 1000;
        let comp_y = (self.direction.y as i64) * 1000;
        let x = advance_coord(self.position.x, BULLET_SPEED, dt_us, time_scale, comp_x);
        let y = advance_coord(self.position.y, BULLET_SPEED, dt_us, time_scale, comp_y);
        Bullet { position: Point { x, y }, direction: self.direction }
    }
}

/// Every projectile moved by one step.
pub open spec fn all_moved(s: Seq<Bullet>, dt_us: int, scale: int) -> Seq<Bullet> {
    s.map_values(|b: Bullet| b.moved(dt_us, scale))
}

/// The projectiles of `s` that are in view, in their order.
pub open spec fn kept_in_view(s: Seq<Bullet>, half_width: int, half_height: int) -> Seq<Bullet>
    decreases s.len(),
{
    if s.len() == 0 {
        Seq::empty()
    } else {
        let rest = kept_in_view(s.drop_last(), half_width, half_height);
        if s.last().in_view(half_width, half_height) {
            rest.push(s.last())
        } else {
            rest
        }
    }
}

/// The projectiles and the player after the bounds reaper: those out of
/// view are gone, and each gives one shot back.
pub open spec fn reap_outcome(bs: Seq<Bullet>, p: Player, half_width: int, half_height: int) -> (
    Seq<Bullet>,
    Player,
) {
    let kept = kept_in_view(bs, half_width, half_height);
    (kept, Player { shot_limit: (p.shot_limit + bs.len() - kept.len()) as u32, ..p })
}

/// Moves every projectile along its direction at `BULLET_SPEED`, scaled by
/// the elapsed time and the time scale. Directions are left as they are.
pub fn move_bullets(bullets: &mut Vec<Bullet>, dt_us: u32, time_scale: u32)
    requires
        time_scale <= 1000,
    ensures
        final(bullets)@ == all_moved(old(bullets)@, dt_us as int, time_scale as int),
        final(bullets)@.len() == old(bullets)@.len(),
        forall|i: int|
            0 <= i < old(bullets)@.len() ==> #[trigger] final(bullets)@[i].direction
                == old(bullets)@[i].direction,
{
    let mut out: Vec<Bullet> = Vec::new();
    let n = bullets.len();
    let mut i: usize = 0;
    while i < n
        invariant
            n == bullets@.len(),
            i <= n,
            time_scale <= 1000,
            out@ == all_moved(bullets@.take(i as int), dt_us as int, time_scale as int),
        decreases n - i,
    {
        let b = bullets[i].advanced(dt_us, time_scale);
        out.push(b);
        proof {
            assert(bullets@.take(i + 1) == bullets@.take(i as int).push(bullets@[i as int]));
            assert(out@ =~= all_moved(bullets@.take(i + 1), dt_us as int, time_scale as int));
        }
        i = i + 1;
    }
    proof {
        assert(bullets@.take(n as int) =~= bullets@);
    }
    *bullets = out;
}

/// Each projectile the bounds reaper keeps is one it was given, unchanged.
pub proof fn lemma_kept_in_view_from(s: Seq<Bullet>, hw: int, hh: int)
    ensures
        forall|j: int|
            0 <= j < kept_in_view(s, hw, hh).len() ==> exists|i: int|
                0 <= i < s.len() && #[trigger] kept_in_view(s, hw, hh)[j] == s[i],
    decreases s.len(),
{
    if s.len() > 0 {
        let t = s.drop_last();
        lemma_kept_in_view_from(t, hw, hh);
        let rest = kept_in_view(t, hw, hh);
        assert forall|j: int| 0 <= j < kept_in_view(s, hw, hh).len() implies exists|i: int|
            0 <= i < s.len() && #[trigger] kept_in_view(s, hw, hh)[j] == s[i] by {
            if j < rest.len() {
                let i = choose|i: int| 0 <= i < t.len() && rest[j] == t[i];
                assert(kept_in_view(s, hw, hh)[j] == s[i]);
            } else {
                assert(kept_in_view(s, hw, hh)[j] == s[s.len() - 1]);
            }
        }
    }
}

/// Slow motion halves a projectile's travel: at half time scale each
/// coordinate moves by its normal-speed displacement halved, rounded toward
/// zero.
pub proof fn lemma_slow_motion_halves_travel(b: Bullet, dt_us: int)
    requires
        0 <= dt_us,
    ensures
        b.moved(dt_us, 500).position.x == clamp_i32(
            b.position.x + trunc_div(axis_step(BULLET_SPEED as int, dt_us, 1000, b.direction.x * DIR_ONE), 2),
        ),
        b.moved(dt_us, 500).position.y == clamp_i32(
            b.position.y + trunc_div(axis_step(BULLET_SPEED as int, dt_us, 1000, b.direction.y * DIR_ONE), 2),
        ),
        b.moved(dt_us, 500).direction == b.direction,
{
    lemma_half_scale_halves_step(BULLET_SPEED as int, dt_us, b.direction.x * DIR_ONE);
    lemma_half_scale_halves_step(BULLET_SPEED as int, dt_us, b.direction.y * DIR_ONE);
}

/// What the bounds reaper keeps is all in view.
pub proof fn lemma_kept_all_in_view(s: Seq<Bullet>, hw: int, hh: int)
    ensures
        forall|i: int|
            0 <= i < kept_in_view(s, hw, hh).len() ==> #[trigger] kept_in_view(s, hw, hh)[i].in_view(hw, hh),
    decreases s.len(),
{
    if s.len() > 0 {
        let rest = kept_in_view(s.drop_last(), hw, hh);
        lemma_kept_all_in_view(s.drop_last(), hw, hh);
        if s.last().in_view(hw, hh) {
            assert forall|i: int| 0 <= i < rest.push(s.last()).len() implies #[trigger] rest.push(
                s.last(),
            )[i].in_view(hw, hh) by {
                if i < rest.len() {
                    assert(rest.push(s.last())[i] == rest[i]);
                }
            }
        }
    }
}

/// The bounds reaper keeps a sequence that is all in view as it is.
pub proof fn lemma_kept_when_all_in_view(s: Seq<Bullet>, hw: int, hh: int)
    requires
        forall|i: int| 0 <= i < s.len() ==> #[trigger] s[i].in_view(hw, hh),
    ensures
        kept_in_view(s, hw, hh) == s,
    decreases s.len(),
{
    if s.len() > 0 {
        let t = s.drop_last();
        assert forall|i: int| 0 <= i < t.len() implies #[trigger] t[i].in_view(hw, hh) by {
            assert(t[i] == s[i]);
        }
        lemma_kept_when_all_in_view(t, hw, hh);
        assert(s.last().in_view(hw, hh));
        assert(t.push(s.last()) =~= s);
    }
}

/// Running the bounds reaper a second time removes nothing: a projectile that
/// was removed is not removed again, and the shot budget is not credited twice.
pub proof fn lemma_reap_idempotent(s: Seq<Bullet>, half_width: int, half_height: int)
    ensures
        kept_in_view(kept_in_view(s, half_width, half_height), half_width, half_height)
            == kept_in_view(s, half_width, half_height),
{
    lemma_kept_all_in_view(s, half_width, half_height);
    lemma_kept_when_all_in_view(kept_in_view(s, half_width, half_height), half_width, half_height);
}

/// The bounds reaper: removes every projectile outside the view rectangle of
/// half extents `half_width` by `half_height`, and gives the player back one
/// shot for each projectile removed.
pub fn despawn_projectile(bullets: &mut Vec<Bullet>, player: &mut Player, half_width: i32, half_height: i32)
    requires
        old(player).shot_limit + old(bullets)@.len() <= u32::MAX,
    ensures
        (final(bullets)@, *final(player)) == reap_outcome(old(bullets)@, *old(player), half_width as int, half_height as int),
        final(bullets)@ == kept_in_view(old(bullets)@, half_width as int, half_height as int),
        forall|j: int|
            0 <= j < final(bullets)@.len() ==> exists|i: int|
                0 <= i < old(bullets)@.len() && #[trigger] final(bullets)@[j] == old(bullets)@[i],
        final(player).shot_limit == old(player).shot_limit + old(bullets)@.len() - final(bullets)@.len(),
        final(player).position == old(player).position,
        final(player).movement_speed == old(player).movement_speed,
        final(player).shot_cooldown == old(player).shot_cooldown,
        forall|i: int|
            0 <= i < final(bullets)@.len() ==> #[trigger] final(bullets)@[i].in_view(
                half_width as int,
                half_height as int,
            ),
{
    let mut out: Vec<Bullet> = Vec::new();
    let n = bullets.len();
    let mut i: usize = 0;
    while i < n
        invariant
            n == bullets@.len(),
            i <= n,
            out@ == kept_in_view(bullets@.take(i as int), half_width as int, half_height as int),
            out@.len() <= i,
        decreases n - i,
    {
        let b = bullets[i];
        let x = b.position.x as i64;
        let y = b.position.y as i64;
        let hw = half_width as i64;
        let hh = half_height as i64;
        proof {
            assert(bullets@.take(i + 1).drop_last() =~= bullets@.take(i as int));
        }
        if -hw <= x && x <= hw && -hh <= y && y <= hh {
            out.push(b);
        }
        i = i + 1;
    }
    proof {
        assert(bullets@.take(n as int) =~= bullets@);
        lemma_kept_all_in_view(bullets@, half_width as int, half_height as int);
        lemma_kept_in_view_from(bullets@, half_width as int, half_height as int);
    }
    let removed = (n - out.len()) as u32;
    player.shot_limit = player.shot_limit + removed;
    *bullets = out;
}

} // verus!
