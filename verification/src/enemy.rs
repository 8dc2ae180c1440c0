//! Enemies: horizontally drifting ships that wrap at the window edge
//! and are despawned by bullet or bomb hits.

use vstd::prelude::*;
use crate::bomb::BombResource;
use crate::bullet::BulletResource;
use crate::collision::{self, matching_wf, pair_valid, CollisionOutcome};
use crate::geom::{self, Axis, Vec2, POS_LIMIT, SPEED_LIMIT, DT_LIMIT, UNIT, WINDOW_LIMIT};
use crate::intent::{AssetId, Intent};
use crate::registry::{
    self, filter_entities, lemma_mask_filter_below, lemma_mask_filter_disjoint,
    lemma_mask_filter_distinct, lemma_mask_filter_excludes, lemma_mask_filter_positions,
    mask_filter, positions_within, Entity, Registry,
};

verus! {

/// Where the single enemy spawns: centered, 200 units above the
/// middle.
pub const ENEMY_SPAWN_Y: i64 = 200 * UNIT;

/// Shared configuration of every enemy: drift speed in subunits per
/// millisecond, and health.
#[derive(Clone, Copy, Debug, PartialEq, Eq, Structural)]
pub struct EnemyResource {
    pub speed: i64,
    pub health: u32,
}

impl EnemyResource {
    /// The drift speed stays within the mover's limit.
    pub open spec fn wf(self) -> bool {
        0 <= self.speed <= SPEED_LIMIT
    }

    /// The enemy configuration: 200 units per second, health 100.
    pub fn new() -> (r: EnemyResource)
        ensures
            r.wf(),
            r == (EnemyResource { speed: 200, health: 100 }),
    {
        EnemyResource { speed: 200, health: 100 }
    }
}

/// Spawns the single starting enemy above the middle of the screen.
pub fn spawn_single(registry: &mut Registry, intents: &mut Vec<Intent>) -> (id: u64)
    requires
        old(registry).wf(),
        old(registry).next_id < u64::MAX,
    ensures
        final(registry).wf(),
        id == old(registry).next_id,
        final(registry).next_id == old(registry).next_id + 1,
        final(registry).enemies@ == old(registry).enemies@.push(
            Entity { id, pos: Vec2 { x: 0, y: ENEMY_SPAWN_Y } },
        ),
        final(registry).bullets == old(registry).bullets,
        final(registry).bombs == old(registry).bombs,
        final(registry).player == old(registry).player,
        final(intents)@ == old(intents)@ + seq![
            Intent::SpawnVisual {
                entity: id,
                asset: AssetId::EnemyShip,
                pos: Vec2 { x: 0, y: ENEMY_SPAWN_Y },
            },
        ],
{
    let pos = Vec2 { x: 0, y: ENEMY_SPAWN_Y };
    let id = registry.spawn_enemy(pos);
    intents.push(Intent::SpawnVisual { entity: id, asset: AssetId::EnemyShip, pos });
    proof {
        assert(intents@ =~= old(intents)@ + seq![
            Intent::SpawnVisual { entity: id, asset: AssetId::EnemyShip, pos },
        ]);
    }
    id
}

/// Drifts every enemy to the left by its configured speed.
pub fn move_horizontal(enemies: &mut Vec<Entity>, enemy_resource: &EnemyResource, dt: u32)
    requires
        enemy_resource.wf(),
        dt <= DT_LIMIT,
        positions_within(old(enemies)@, POS_LIMIT as int),
    ensures
        final(enemies)@.len() == old(enemies)@.len(),
        forall|i: int|
            0 <= i < old(enemies)@.len() ==> #[trigger] final(enemies)@[i] == (Entity {
                id: old(enemies)@[i].id,
                pos: Vec2 {
                    x: (old(enemies)@[i].pos.x - enemy_resource.speed * dt) as i64,
                    y: old(enemies)@[i].pos.y,
                },
            }),
{
    let mut i: usize = 0;
    while i < enemies.len()
        invariant
            i <= enemies@.len(),
            enemies@.len() == old(enemies)@.len(),
            enemy_resource.wf(),
            dt <= DT_LIMIT,
            positions_within(old(enemies)@, POS_LIMIT as int),
            forall|k: int|
                i <= k < old(enemies)@.len() ==> #[trigger] enemies@[k] == old(enemies)@[k],
            forall|k: int|
                0 <= k < i ==> #[trigger] enemies@[k] == (Entity {
                    id: old(enemies)@[k].id,
                    pos: Vec2 {
                        x: (old(enemies)@[k].pos.x - enemy_resource.speed * dt) as i64,
                        y: old(enemies)@[k].pos.y,
                    },
                }),
        decreases enemies@.len() - i,
    {
        let e = enemies[i];
        let pos = geom::move_along(e.pos, Axis::Horizontal, -enemy_resource.speed, dt);
        proof {
            assert((-(enemy_resource.speed as int)) * (dt as int) == -((enemy_resource.speed
                as int) * (dt as int))) by (nonlinear_arith);
        }
        enemies.set(i, Entity { id: e.id, pos });
        i = i + 1;
    }
}

/// Wraps every enemy at the window edge: a ship past the half-width
/// teleports one unit inside the opposite edge.
pub fn wrap_enemy_around_window(enemies: &mut Vec<Entity>, half_width: i64)
    requires
        UNIT <= half_width <= WINDOW_LIMIT,
        positions_within(old(enemies)@, POS_LIMIT as int),
    ensures
        final(enemies)@.len() == old(enemies)@.len(),
        forall|i: int|
            0 <= i < old(enemies)@.len() ==> #[trigger] final(enemies)@[i] == (Entity {
                id: old(enemies)@[i].id,
                pos: Vec2 {
                    x: geom::wrap_spec(old(enemies)@[i].pos.x as int, half_width as int) as i64,
                    y: old(enemies)@[i].pos.y,
                },
            }),
{
    let mut i: usize = 0;
    while i < enemies.len()
        invariant
            i <= enemies@.len(),
            enemies@.len() == old(enemies)@.len(),
            UNIT <= half_width <= WINDOW_LIMIT,
            positions_within(old(enemies)@, POS_LIMIT as int),
            forall|k: int|
                i <= k < old(enemies)@.len() ==> #[trigger] enemies@[k] == old(enemies)@[k],
            forall|k: int|
                0 <= k < i ==> #[trigger] enemies@[k] == (Entity {
                    id: old(enemies)@[k].id,
                    pos: Vec2 {
                        x: geom::wrap_spec(
                            old(enemies)@[k].pos.x as int,
                            half_width as int,
                        ) as i64,
                        y: old(enemies)@[k].pos.y,
                    },
                }),
        decreases enemies@.len() - i,
    {
        let e = enemies[i];
        let x = geom::wrap_x(e.pos.x, half_width);
        enemies.set(i, Entity { id: e.id, pos: Vec2 { x, y: e.pos.y } });
        i = i + 1;
    }
}

/// The effects one collision pass emits: for each matched pair, in
/// order, the kind's hit sound and the despawn of projectile and
/// enemy.
pub open spec fn hit_intents(
    enemies: Seq<Entity>,
    projectiles: Seq<Entity>,
    pairs: Seq<(usize, usize)>,
    sfx: AssetId,
) -> Seq<Intent>
    decreases pairs.len(),
{
    if pairs.len() == 0 {
        Seq::empty()
    } else {
        let p = pairs.last();
        hit_intents(enemies, projectiles, pairs.drop_last(), sfx) + seq![
            Intent::PlaySound { asset: sfx },
            Intent::DespawnVisual { entity: projectiles[p.1 as int].id },
            Intent::DespawnVisual { entity: enemies[p.0 as int].id },
        ]
    }
}

/// Resolves one projectile kind against the enemies: matches pairs
/// within the radius, despawns both sides of each pair, and emits the
/// pair's hit sound and despawn intents.
fn check_projectile_collision(
    enemies: &mut Vec<Entity>,
    projectiles: &mut Vec<Entity>,
    radius: i64,
    sfx: AssetId,
    intents: &mut Vec<Intent>,
) -> (out: CollisionOutcome)
    requires
        positions_within(old(enemies)@, POS_LIMIT as int),
        positions_within(old(projectiles)@, POS_LIMIT as int),
        0 <= radius <= WINDOW_LIMIT,
    ensures
        matching_wf(
            old(enemies)@,
            old(projectiles)@,
            radius as int,
            out.enemy_alive@,
            out.projectile_alive@,
            out.pairs@,
        ),
        final(enemies)@ == mask_filter(old(enemies)@, out.enemy_alive@),
        final(projectiles)@ == mask_filter(old(projectiles)@, out.projectile_alive@),
        final(intents)@ == old(intents)@ + hit_intents(
            old(enemies)@,
            old(projectiles)@,
            out.pairs@,
            sfx,
        ),
        positions_within(final(enemies)@, POS_LIMIT as int),
        positions_within(final(projectiles)@, POS_LIMIT as int),
{
    let out = collision::resolve_collisions(enemies, projectiles, radius);
    let mut k: usize = 0;
    while k < out.pairs.len()
        invariant
            k <= out.pairs@.len(),
            matching_wf(
                enemies@,
                projectiles@,
                radius as int,
                out.enemy_alive@,
                out.projectile_alive@,
                out.pairs@,
            ),
            intents@ == old(intents)@ + hit_intents(
                enemies@,
                projectiles@,
                out.pairs@.take(k as int),
                sfx,
            ),
        decreases out.pairs@.len() - k,
    {
        proof {
            assert(out.pairs@.take(k + 1).drop_last() =~= out.pairs@.take(k as int));
            assert(out.pairs@.take(k + 1).last() == out.pairs@[k as int]);
            assert(pair_valid(enemies@, projectiles@, radius as int, out.pairs@[k as int]));
        }
        let (ei, pj) = out.pairs[k];
        intents.push(Intent::PlaySound { asset: sfx });
        intents.push(Intent::DespawnVisual { entity: projectiles[pj].id });
        intents.push(Intent::DespawnVisual { entity: enemies[ei].id });
        proof {
            assert(intents@ =~= old(intents)@ + hit_intents(
                enemies@,
                projectiles@,
                out.pairs@.take(k + 1),
                sfx,
            ));
        }
        k = k + 1;
    }
    proof {
        assert(out.pairs@.take(out.pairs@.len() as int) =~= out.pairs@);
        lemma_mask_filter_positions(enemies@, out.enemy_alive@, POS_LIMIT as int);
        lemma_mask_filter_positions(projectiles@, out.projectile_alive@, POS_LIMIT as int);
    }
    let kept_enemies = filter_entities(enemies, &out.enemy_alive);
    let kept_projectiles = filter_entities(projectiles, &out.projectile_alive);
    *enemies = kept_enemies;
    *projectiles = kept_projectiles;
    out
}

/// Tests every live bullet against every live enemy; each hit
/// despawns both and sounds the bullet hit.
pub fn check_bullet_collision(
    registry: &mut Registry,
    bullet_resource: &BulletResource,
    intents: &mut Vec<Intent>,
) -> (out: CollisionOutcome)
    requires
        old(registry).wf(),
        bullet_resource.wf(),
        positions_within(old(registry).enemies@, POS_LIMIT as int),
        positions_within(old(registry).bullets@, POS_LIMIT as int),
    ensures
        matching_wf(
            old(registry).enemies@,
            old(registry).bullets@,
            bullet_resource.radius as int,
            out.enemy_alive@,
            out.projectile_alive@,
            out.pairs@,
        ),
        final(registry).enemies@ == mask_filter(old(registry).enemies@, out.enemy_alive@),
        final(registry).bullets@ == mask_filter(old(registry).bullets@, out.projectile_alive@),
        final(registry).bombs == old(registry).bombs,
        final(registry).player == old(registry).player,
        final(registry).next_id == old(registry).next_id,
        final(registry).wf(),
        final(intents)@ == old(intents)@ + hit_intents(
            old(registry).enemies@,
            old(registry).bullets@,
            out.pairs@,
            AssetId::BulletHitSfx,
        ),
        positions_within(final(registry).enemies@, POS_LIMIT as int),
        positions_within(final(registry).bullets@, POS_LIMIT as int),
{
    let out = check_projectile_collision(
        &mut registry.enemies,
        &mut registry.bullets,
        bullet_resource.radius,
        AssetId::BulletHitSfx,
        intents,
    );
    proof {
        let r0 = *old(registry);
        lemma_mask_filter_below(r0.enemies@, out.enemy_alive@, r0.next_id as int);
        lemma_mask_filter_below(r0.bullets@, out.projectile_alive@, r0.next_id as int);
        lemma_mask_filter_distinct(r0.enemies@, out.enemy_alive@);
        lemma_mask_filter_distinct(r0.bullets@, out.projectile_alive@);
        lemma_mask_filter_excludes(r0.enemies@, out.enemy_alive@, r0.player.id as int);
        lemma_mask_filter_excludes(r0.bullets@, out.projectile_alive@, r0.player.id as int);
        lemma_mask_filter_disjoint(r0.enemies@, out.enemy_alive@, r0.bullets@);
        lemma_mask_filter_disjoint(
            r0.bullets@,
            out.projectile_alive@,
            mask_filter(r0.enemies@, out.enemy_alive@),
        );
        lemma_mask_filter_disjoint(r0.enemies@, out.enemy_alive@, r0.bombs@);
        lemma_mask_filter_disjoint(r0.bullets@, out.projectile_alive@, r0.bombs@);
    }
    out
}

/// Tests every live bomb against every live enemy; each hit despawns
/// both and sounds the bomb hit.
pub fn check_bomb_collision(
    registry: &mut Registry,
    bomb_resource: &BombResource,
    intents: &mut Vec<Intent>,
) -> (out: CollisionOutcome)
    requires
        old(registry).wf(),
        bomb_resource.wf(),
        positions_within(old(registry).enemies@, POS_LIMIT as int),
        positions_within(old(registry).bombs@, POS_LIMIT as int),
    ensures
        matching_wf(
            old(registry).enemies@,
            old(registry).bombs@,
            bomb_resource.radius as int,
            out.enemy_alive@,
            out.projectile_alive@,
            out.pairs@,
        ),
        final(registry).enemies@ == mask_filter(old(registry).enemies@, out.enemy_alive@),
        final(registry).bombs@ == mask_filter(old(registry).bombs@, out.projectile_alive@),
        final(registry).bullets == old(registry).bullets,
        final(registry).player == old(registry).player,
        final(registry).next_id == old(registry).next_id,
        final(registry).wf(),
        final(intents)@ == old(intents)@ + hit_intents(
            old(registry).enemies@,
            old(registry).bombs@,
            out.pairs@,
            AssetId::BombHitSfx,
        ),
        positions_within(final(registry).enemies@, POS_LIMIT as int),
        positions_within(final(registry).bombs@, POS_LIMIT as int),
{
    let out = check_projectile_collision(
        &mut registry.enemies,
        &mut registry.bombs,
        bomb_resource.radius,
        AssetId::BombHitSfx,
        intents,
    );
    proof {
        let r0 = *old(registry);
        lemma_mask_filter_below(r0.enemies@, out.enemy_alive@, r0.next_id as int);
        lemma_mask_filter_below(r0.bombs@, out.projectile_alive@, r0.next_id as int);
        lemma_mask_filter_distinct(r0.enemies@, out.enemy_alive@);
        lemma_mask_filter_distinct(r0.bombs@, out.projectile_alive@);
        lemma_mask_filter_excludes(r0.enemies@, out.enemy_alive@, r0.player.id as int);
        lemma_mask_filter_excludes(r0.bombs@, out.projectile_alive@, r0.player.id as int);
        lemma_mask_filter_disjoint(r0.enemies@, out.enemy_alive@, r0.bombs@);
        lemma_mask_filter_disjoint(
            r0.bombs@,
            out.projectile_alive@,
            mask_filter(r0.enemies@, out.enemy_alive@),
        );
        lemma_mask_filter_disjoint(r0.enemies@, out.enemy_alive@, r0.bullets@);
        lemma_mask_filter_disjoint(r0.bombs@, out.projectile_alive@, r0.bullets@);
    }
    out
}

} // verus!
