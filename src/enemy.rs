//! Enemies: two-phase motion and projectile hits.

use vstd::prelude::*;
use crate::geometry::{advance_coord, stepped, Collider, Direction, Point, DIR_ONE};
use crate::bullet::Bullet;
use crate::level::{sat_sub_u64, EnemiesLeft};
use crate::player::Player;

verus! {

/// Below this height (milli-units) an enemy stops weaving and heads straight down.
pub const Y_DESCEND: i32 = -175_000;

/// Half extents of an enemy's hit box, in milli-units.
pub const ENEMY_HALF_WIDTH: i32 = 35_000;
pub const ENEMY_HALF_HEIGHT: i32 = 35_000;

/// A weave value of one: the sine of the weave phase is given in thousandths.
pub const WEAVE_ONE: i32 = 1000;

/// An enemy. It is alive while in the store, and then its health is positive.
#[derive(Clone, Copy, Debug, PartialEq, Eq, Structural)]
pub struct Enemy {
    pub position: Point,
    /// World units per second.
    pub movement_speed: u32,
    /// The approach direction chosen at spawn.
    pub direction: Direction,
    pub health: u32,
}

impl Enemy {
    /// Displacement direction in millionths: straight down once below
    /// `Y_DESCEND`; above it, forward plus `weave` times the lateral axis.
    pub open spec fn displacement(self, weave: int) -> (int, int) {
        if self.position.y < Y_DESCEND {
            (0, -(DIR_ONE * DIR_ONE))
        } else {
            (
                self.direction.x * DIR_ONE - weave * self.direction.y,
                self.direction.y * DIR_ONE + weave * self.direction.x,
            )
        }
    }

    pub open spec fn moved(self, weave: int, dt_us: int, scale: int) -> Enemy {
        let (cx, cy) = self.displacement(weave);
        Enemy {
            position: Point {
                x: stepped(self.position.x as int, self.movement_speed as int, dt_us, scale, cx),
                y: stepped(self.position.y as int, self.movement_speed as int, dt_us, scale, cy),
            },
            ..self
        }
    }

    pub open spec fn hitbox(self) -> Collider {
        Collider { center: self.position, half_width: ENEMY_HALF_WIDTH, half_height: ENEMY_HALF_HEIGHT }
    }

    /// The enemy after one hit, when it survives it.
    pub open spec fn damaged(self) -> Enemy {
        Enemy { health: (self.health - 1) as u32, ..self }
    }

    pub fn collider(&self) -> (c: Collider)
        ensures
            c == self.hitbox(),
    {
        Collider { center: self.position, half_width: ENEMY_HALF_WIDTH, half_height: ENEMY_HALF_HEIGHT }
    }

    pub fn advanced(&self, weave: i32, dt_us: u32, time_scale: u32) -> (e: Enemy)
        requires
            -WEAVE_ONE <= weave <= WEAVE_ONE,
            time_scale <= 1000,
        ensures
            e == self.moved(weave as int, dt_us as int, time_scale as int),
    {
        let (cx, cy): (i64, i64) = if self.position.y < Y_DESCEND {
            (0, -1_000_000)
        } else {
            let dx = self.direction.x as i64;
            let dy = self.direction.y as i64;
            let w = weave as i64;
            assert(-0x1_0000_0000_0000 <= w * dy <= 0x1_0000_0000_0000) by (nonlinear_arith)
                requires
                    -1000 <= w <= 1000,
                    -0x8000_0000 <= dy <= 0x8000_0000,
            ;
            assert(-0x1_0000_0000_0000 <= w * dx <= 0x1_0000_0000_0000) by (nonlinear_arith)
                requires
                    -1000 <= w <= 1000,
                    -0x8000_0000 <= dx <= 0x8000_0000,
            ;
            (dx * 1000 - w * dy, dy * 1000 + w * dx)
        };
        let x = advance_coord(self.position.x, self.movement_speed, dt_us, time_scale, cx);
        let y = advance_coord(self.position.y, self.movement_speed, dt_us, time_scale, cy);
        Enemy { position: Point { x, y }, ..*self }
    }
}

/// Every enemy moved by one step.
pub open spec fn all_moved(s: Seq<Enemy>, weave: int, dt_us: int, scale: int) -> Seq<Enemy> {
    s.map_values(|e: Enemy| e.moved(weave, dt_us, scale))
}

/// Moves every enemy by its displacement direction times its speed, the
/// elapsed time and the time scale. `weave` is the sine of the weave phase,
/// in thousandths, for the current elapsed game time.
pub fn move_enemies(enemies: &mut Vec<Enemy>, weave: i32, dt_us: u32, time_scale: u32)
    requires
        -WEAVE_ONE <= weave <= WEAVE_ONE,
        time_scale <= 1000,
    ensures
        final(enemies)@ == all_moved(old(enemies)@, weave as int, dt_us as int, time_scale as int),
{
    let mut out: Vec<Enemy> = Vec::new();
    let n = enemies.len();
    let mut i: usize = 0;
    while i < n
        invariant
            n == enemies@.len(),
            i <= n,
            -WEAVE_ONE <= weave <= WEAVE_ONE,
            time_scale <= 1000,
            out@ == all_moved(enemies@.take(i as int), weave as int, dt_us as int, time_scale as int),
        decreases n - i,
    {
        let e = enemies[i].advanced(weave, dt_us, time_scale);
        out.push(e);
        proof {
            assert(enemies@.take(i + 1) == enemies@.take(i as int).push(enemies@[i as int]));
            assert(out@ =~= all_moved(enemies@.take(i + 1), weave as int, dt_us as int, time_scale as int));
        }
        i = i + 1;
    }
    proof {
        assert(enemies@.take(n as int) =~= enemies@);
    }
    *enemies = out;
}

/// The first enemy at index `j` or later whose box overlaps the projectile's,
/// or the length of `es` when there is none.
pub open spec fn first_hit_from(b: Bullet, es: Seq<Enemy>, j: int) -> int
    decreases es.len() - j,
{
    if j >= es.len() {
        es.len() as int
    } else if b.hitbox().overlaps(es[j].hitbox()) {
        j
    } else {
        first_hit_from(b, es, j + 1)
    }
}

/// The enemies after the one at `k` takes a hit: it loses one health, and
/// leaves the store when that was its last.
pub open spec fn after_hit(es: Seq<Enemy>, k: int) -> Seq<Enemy> {
    if es[k].health <= 1 {
        es.remove(k)
    } else {
        es.update(k, es[k].damaged())
    }
}

/// The outcome of resolving projectiles `bs`, in order, against enemies `es`:
/// the projectiles that hit nothing, the enemies left, and the kills.
/// Each projectile hits at most the first enemy it overlaps.
pub open spec fn resolve(bs: Seq<Bullet>, es: Seq<Enemy>) -> (Seq<Bullet>, Seq<Enemy>, nat)
    decreases bs.len(),
{
    if bs.len() == 0 {
        (Seq::empty(), es, 0)
    } else {
        let (kept, es1, kills) = resolve(bs.drop_last(), es);
        let b = bs.last();
        let k = first_hit_from(b, es1, 0);
        if k < es1.len() {
            (kept, after_hit(es1, k), if es1[k].health <= 1 { kills + 1 } else { kills })
        } else {
            (kept.push(b), es1, kills)
        }
    }
}

proof fn lemma_first_hit_range(b: Bullet, es: Seq<Enemy>, j: int)
    requires
        0 <= j <= es.len(),
    ensures
        j <= first_hit_from(b, es, j) <= es.len(),
        first_hit_from(b, es, j) < es.len() ==> b.hitbox().overlaps(es[first_hit_from(b, es, j)].hitbox()),
    decreases es.len() - j,
{
    if j < es.len() && !b.hitbox().overlaps(es[j].hitbox()) {
        lemma_first_hit_range(b, es, j + 1);
    }
}

/// Resolution keeps every enemy's health positive, keeps at most as many
/// projectiles as it was given, and kills at most one enemy per projectile.
pub proof fn lemma_resolve_bounds(bs: Seq<Bullet>, es: Seq<Enemy>)
    requires
        forall|i: int| 0 <= i < es.len() ==> #[trigger] es[i].health >= 1,
    ensures
        resolve(bs, es).0.len() <= bs.len(),
        resolve(bs, es).2 + resolve(bs, es).0.len() <= bs.len(),
        resolve(bs, es).2 <= es.len(),
        resolve(bs, es).1.len() + resolve(bs, es).2 == es.len(),
        forall|i: int| 0 <= i < resolve(bs, es).1.len() ==> #[trigger] resolve(bs, es).1[i].health >= 1,
    decreases bs.len(),
{
    if bs.len() > 0 {
        lemma_resolve_bounds(bs.drop_last(), es);
        let (kept, es1, kills) = resolve(bs.drop_last(), es);
        let b = bs.last();
        lemma_first_hit_range(b, es1, 0);
        let k = first_hit_from(b, es1, 0);
        if k < es1.len() {
            let es2 = after_hit(es1, k);
            assert forall|i: int| 0 <= i < es2.len() implies #[trigger] es2[i].health >= 1 by {
                if es1[k].health <= 1 {
                    if i < k {
                        assert(es2[i] == es1[i]);
                    } else {
                        assert(es2[i] == es1[i + 1]);
                    }
                } else {
                    if i != k {
                        assert(es2[i] == es1[i]);
                    }
                }
            }
        }
    }
}

/// Each projectile that hits nothing is one that was given, unchanged.
pub proof fn lemma_resolve_kept_from(bs: Seq<Bullet>, es: Seq<Enemy>)
    ensures
        forall|j: int|
            0 <= j < resolve(bs, es).0.len() ==> exists|i: int|
                0 <= i < bs.len() && #[trigger] resolve(bs, es).0[j] == bs[i],
    decreases bs.len(),
{
    if bs.len() > 0 {
        let t = bs.drop_last();
        lemma_resolve_kept_from(t, es);
        let kept = resolve(t, es).0;
        assert forall|j: int| 0 <= j < resolve(bs, es).0.len() implies exists|i: int|
            0 <= i < bs.len() && #[trigger] resolve(bs, es).0[j] == bs[i] by {
            if j < kept.len() {
                let i = choose|i: int| 0 <= i < t.len() && kept[j] == t[i];
                assert(resolve(bs, es).0[j] == bs[i]);
            } else {
                assert(resolve(bs, es).0[j] == bs[bs.len() - 1]);
            }
        }
    }
}

/// Projectiles, enemies, counters and player after the collision resolver.
pub open spec fn collision_outcome(bs: Seq<Bullet>, es: Seq<Enemy>, el: EnemiesLeft, p: Player) -> (
    Seq<Bullet>,
    Seq<Enemy>,
    EnemiesLeft,
    Player,
) {
    let (kept, es1, kills) = resolve(bs, es);
    (
        kept,
        es1,
        EnemiesLeft { curr: sat_sub_u64(el.curr as int, kills as int), ..el },
        Player { shot_limit: (p.shot_limit + bs.len() - kept.len()) as u32, ..p },
    )
}

/// The collision resolver. Each projectile, in order, is tested against the
/// enemies; on the first overlap it is destroyed and that enemy loses one
/// health, leaving the store at zero. Each kill lowers `curr` by one (never
/// below zero), and each destroyed projectile gives the player back a shot.
pub fn bullet_enemy_collision_system(
    bullets: &mut Vec<Bullet>,
    enemies: &mut Vec<Enemy>,
    enemies_left: &mut EnemiesLeft,
    player: &mut Player,
)
    requires
        old(player).shot_limit + old(bullets)@.len() <= u32::MAX,
        forall|i: int| 0 <= i < old(enemies)@.len() ==> #[trigger] old(enemies)@[i].health >= 1,
    ensures
        (final(bullets)@, final(enemies)@, *final(enemies_left), *final(player)) == collision_outcome(
            old(bullets)@,
            old(enemies)@,
            *old(enemies_left),
            *old(player),
        ),
        ({
            let (kept, es, kills) = resolve(old(bullets)@, old(enemies)@);
            &&& final(bullets)@ == kept
            &&& final(enemies)@ == es
            &&& final(enemies_left).curr == if old(enemies_left).curr >= kills {
                old(enemies_left).curr - kills
            } else {
                0
            }
            &&& old(enemies)@.len() == final(enemies)@.len() + kills
        }),
        forall|j: int|
            0 <= j < final(bullets)@.len() ==> exists|i: int|
                0 <= i < old(bullets)@.len() && #[trigger] final(bullets)@[j] == old(bullets)@[i],
        final(enemies_left).prev == old(enemies_left).prev,
        final(enemies_left).next == old(enemies_left).next,
        final(enemies_left).curr <= old(enemies_left).curr,
        final(player).shot_limit == old(player).shot_limit + old(bullets)@.len() - final(bullets)@.len(),
        final(player).position == old(player).position,
        final(player).movement_speed == old(player).movement_speed,
        final(player).shot_cooldown == old(player).shot_cooldown,
        forall|i: int| 0 <= i < final(enemies)@.len() ==> #[trigger] final(enemies)@[i].health >= 1,
{
    let ghost es0 = enemies@;
    let mut kept: Vec<Bullet> = Vec::new();
    let mut kills: u64 = 0;
    let n = bullets.len();
    let mut i: usize = 0;
    while i < n
        invariant
            n == bullets@.len(),
            i <= n,
            forall|j: int| 0 <= j < es0.len() ==> #[trigger] es0[j].health >= 1,
            resolve(bullets@.take(i as int), es0) == (kept@, enemies@, kills as nat),
            kills + kept@.len() <= i,
        decreases n - i,
    {
        proof {
            assert(bullets@.take(i + 1).drop_last() =~= bullets@.take(i as int));
            lemma_resolve_bounds(bullets@.take(i as int), es0);
        }
        let b = bullets[i];
        let bc = b.collider();
        let m = enemies.len();
        let mut k: usize = 0;
        while k < m && !bc.intersects(&enemies[k].collider())
            invariant
                m == enemies@.len(),
                k <= m,
                bc == b.hitbox(),
                first_hit_from(b, enemies@, k as int) == first_hit_from(b, enemies@, 0),
            decreases m - k,
        {
            k = k + 1;
        }
        if k < m {
            let e = enemies[k];
            if e.health <= 1 {
                enemies.remove(k);
                kills = kills + 1;
            } else {
                enemies.set(k, Enemy { health: e.health - 1, ..e });
            }
        } else {
            kept.push(b);
        }
        i = i + 1;
    }
    proof {
        assert(bullets@.take(n as int) =~= bullets@);
        lemma_resolve_bounds(bullets@, es0);
        lemma_resolve_kept_from(bullets@, es0);
    }
    let removed = (n - kept.len()) as u32;
    player.shot_limit = player.shot_limit + removed;
    enemies_left.curr = enemies_left.curr.saturating_sub(kills);
    *bullets = kept;
}

} // verus!
