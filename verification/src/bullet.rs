//! Bullets: unlimited-ammo projectiles that fly straight up and are
//! reaped once past the top edge.

use vstd::prelude::*;
use crate::geom::{self, Axis, Vec2, POS_LIMIT, SPEED_LIMIT, DT_LIMIT, UNIT, WINDOW_LIMIT};
use crate::intent::{AssetId, Intent};
use crate::registry::{self, Entity, Registry};

verus! {

/// How far ahead of the player a projectile spawns, in subunits.
pub const FORWARD_OFFSET: i64 = 20 * UNIT;

/// Bullet speed in subunits per millisecond.
pub const BULLET_SPEED: i64 = 300;

/// Bullet collision radius in subunits.
pub const BULLET_RADIUS: i64 = 10 * UNIT;

/// A request to fire a bullet from the given player position.
#[derive(Clone, Copy, Debug, PartialEq, Eq, Structural)]
pub struct ShootBulletEvent(pub Vec2);

/// Shared configuration of every bullet: speed in subunits per
/// millisecond and the collision radius in subunits.
#[derive(Clone, Copy, Debug, PartialEq, Eq, Structural)]
pub struct BulletResource {
    pub speed: i64,
    pub radius: i64,
}

impl BulletResource {
    /// Speed and radius stay within the mover's and window's limits.
    pub open spec fn wf(self) -> bool {
        0 <= self.speed <= SPEED_LIMIT && 0 <= self.radius <= WINDOW_LIMIT
    }

    /// The bullet configuration: 300 units per second, radius 10.
    pub fn new() -> (r: BulletResource)
        ensures
            r.wf(),
            r == (BulletResource { speed: BULLET_SPEED, radius: BULLET_RADIUS }),
    {
        BulletResource { speed: BULLET_SPEED, radius: BULLET_RADIUS }
    }
}

/// Where a projectile fired from `p` appears: a fixed forward offset
/// above the shooter.
pub open spec fn spawn_pos_spec(p: Vec2) -> Vec2 {
    Vec2 { x: p.x, y: (p.y + FORWARD_OFFSET) as i64 }
}

/// Fires a bullet: always succeeds, spawning the bullet ahead of the
/// player and sounding the shot.
pub fn handle_shoot(
    registry: &mut Registry,
    ev: &ShootBulletEvent,
    intents: &mut Vec<Intent>,
) -> (id: u64)
    requires
        old(registry).wf(),
        old(registry).next_id < u64::MAX,
        -WINDOW_LIMIT <= ev.0.x <= WINDOW_LIMIT,
        -WINDOW_LIMIT <= ev.0.y <= WINDOW_LIMIT,
    ensures
        final(registry).wf(),
        id == old(registry).next_id,
        final(registry).next_id == old(registry).next_id + 1,
        final(registry).bullets@ == old(registry).bullets@.push(
            Entity { id, pos: spawn_pos_spec(ev.0) },
        ),
        final(registry).enemies == old(registry).enemies,
        final(registry).bombs == old(registry).bombs,
        final(registry).player == old(registry).player,
        final(intents)@ == old(intents)@ + seq![
            Intent::PlaySound { asset: AssetId::BulletSfx },
            Intent::SpawnVisual { entity: id, asset: AssetId::BulletTile, pos: spawn_pos_spec(ev.0) },
        ],
{
    let pos = Vec2 { x: ev.0.x, y: ev.0.y + FORWARD_OFFSET };
    let id = registry.spawn_bullet(pos);
    intents.push(Intent::PlaySound { asset: AssetId::BulletSfx });
    intents.push(Intent::SpawnVisual { entity: id, asset: AssetId::BulletTile, pos });
    proof {
        assert(intents@ =~= old(intents)@ + seq![
            Intent::PlaySound { asset: AssetId::BulletSfx },
            Intent::SpawnVisual { entity: id, asset: AssetId::BulletTile, pos: spawn_pos_spec(ev.0) },
        ]);
    }
    id
}

/// Advances every bullet straight up by its configured speed.
pub fn move_bullet(bullets: &mut Vec<Entity>, bullet_resource: &BulletResource, dt: u32)
    requires
        bullet_resource.wf(),
        dt <= DT_LIMIT,
        registry::positions_within(old(bullets)@, POS_LIMIT as int),
    ensures
        final(bullets)@.len() == old(bullets)@.len(),
        forall|i: int|
            0 <= i < old(bullets)@.len() ==> #[trigger] final(bullets)@[i] == (Entity {
                id: old(bullets)@[i].id,
                pos: Vec2 {
                    x: old(bullets)@[i].pos.x,
                    y: (old(bullets)@[i].pos.y + bullet_resource.speed * dt) as i64,
                },
            }),
{
    let mut i: usize = 0;
    while i < bullets.len()
        invariant
            i <= bullets@.len(),
            bullets@.len() == old(bullets)@.len(),
            bullet_resource.wf(),
            dt <= DT_LIMIT,
            registry::positions_within(old(bullets)@, POS_LIMIT as int),
            forall|k: int|
                i <= k < old(bullets)@.len() ==> #[trigger] bullets@[k] == old(bullets)@[k],
            forall|k: int|
                0 <= k < i ==> #[trigger] bullets@[k] == (Entity {
                    id: old(bullets)@[k].id,
                    pos: Vec2 {
                        x: old(bullets)@[k].pos.x,
                        y: (old(bullets)@[k].pos.y + bullet_resource.speed * dt) as i64,
                    },
                }),
        decreases bullets@.len() - i,
    {
        let e = bullets[i];
        let pos = geom::move_along(e.pos, Axis::Vertical, bullet_resource.speed, dt);
        bullets.set(i, Entity { id: e.id, pos });
        i = i + 1;
    }
}

/// Reaps every bullet that has left the top of the window, despawning
/// its visual.
pub fn despawn_if_offscreen(bullets: &mut Vec<Entity>, half_height: i64, intents: &mut Vec<Intent>)
    ensures
        final(bullets)@ == registry::mask_filter(
            old(bullets)@,
            registry::reap_keep_mask(old(bullets)@, half_height as int),
        ),
        final(intents)@ == old(intents)@ + registry::reap_intents(
            old(bullets)@,
            half_height as int,
        ),
{
    registry::reap_offscreen(bullets, half_height, intents);
}

} // verus!
