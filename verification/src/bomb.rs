//! Bombs: wide-radius projectiles paid for from a finite stock of
//! charges that is never replenished.

use vstd::prelude::*;
use crate::bullet::{spawn_pos_spec, FORWARD_OFFSET};
use crate::geom::{self, Axis, Vec2, POS_LIMIT, SPEED_LIMIT, DT_LIMIT, UNIT, WINDOW_LIMIT};
use crate::input::{AbilitySlotMap, RawInput, Slot, Ability, ability_edge_spec, SLOT_COUNT};
use crate::intent::{AssetId, Intent};
use crate::player::PlayerResource;
use crate::registry::{self, Entity, Registry};

verus! {

/// Bomb speed in subunits per millisecond.
pub const BOMB_SPEED: i64 = 200;

/// Bomb collision radius in subunits.
pub const BOMB_RADIUS: i64 = 50 * UNIT;

/// A request to fire a bomb from the given player position.
#[derive(Clone, Copy, Debug, PartialEq, Eq, Structural)]
pub struct ShootBombEvent(pub Vec2);

/// Shared configuration of every bomb: speed in subunits per
/// millisecond and the collision radius in subunits.
#[derive(Clone, Copy, Debug, PartialEq, Eq, Structural)]
pub struct BombResource {
    pub speed: i64,
    pub radius: i64,
}

impl BombResource {
    /// Speed and radius stay within the mover's and window's limits.
    pub open spec fn wf(self) -> bool {
        0 <= self.speed <= SPEED_LIMIT && 0 <= self.radius <= WINDOW_LIMIT
    }

    /// The bomb configuration: 200 units per second, radius 50.
    pub fn new() -> (r: BombResource)
        ensures
            r.wf(),
            r == (BombResource { speed: BOMB_SPEED, radius: BOMB_RADIUS }),
    {
        BombResource { speed: BOMB_SPEED, radius: BOMB_RADIUS }
    }
}

/// The bomb count a firing attempt leaves: one charge is spent exactly
/// when the attempt fires, and a fire needs a charge in stock, so the
/// count never goes below zero.
pub open spec fn bomb_fire_spec(activated: bool, bombs: u32) -> u32 {
    if activated && bombs > 0 {
        (bombs - 1) as u32
    } else {
        bombs
    }
}

/// Remapping which slot triggers Bomb changes which physical input
/// raises the bomb edge, and nothing else: the charge left afterwards
/// is the same function of the edge and the stock under every
/// slot-to-ability table, so two tables that raise the edge alike
/// spend alike.
pub proof fn lemma_remap_independence(
    m1: AbilitySlotMap,
    m2: AbilitySlotMap,
    pairs: Seq<(RawInput, Slot)>,
    down: Seq<RawInput>,
    prev: Seq<bool>,
    bombs: u32,
)
    requires
        prev.len() == SLOT_COUNT,
    ensures
        ability_edge_spec(m1, pairs, down, prev, Ability::Bomb) == ability_edge_spec(
            m2,
            pairs,
            down,
            prev,
            Ability::Bomb,
        ) ==> bomb_fire_spec(ability_edge_spec(m1, pairs, down, prev, Ability::Bomb), bombs)
            == bomb_fire_spec(ability_edge_spec(m2, pairs, down, prev, Ability::Bomb), bombs),
{
}

/// Fires a bomb if a charge is in stock: spends the charge, spawns the
/// bomb ahead of the player and sounds the shot; with no charge left
/// it is a no-op and the stock stays at zero. Returns the remaining
/// stock either way.
pub fn handle_shoot(
    registry: &mut Registry,
    player_resource: &mut PlayerResource,
    ev: &ShootBombEvent,
    intents: &mut Vec<Intent>,
) -> (bombs_left: u32)
    requires
        old(registry).wf(),
        old(registry).next_id < u64::MAX,
        -WINDOW_LIMIT <= ev.0.x <= WINDOW_LIMIT,
        -WINDOW_LIMIT <= ev.0.y <= WINDOW_LIMIT,
    ensures
        final(registry).wf(),
        final(player_resource).bombs == bomb_fire_spec(true, old(player_resource).bombs),
        final(player_resource).movement_speed == old(player_resource).movement_speed,
        final(player_resource).health == old(player_resource).health,
        final(player_resource).evades == old(player_resource).evades,
        bombs_left == final(player_resource).bombs,
        old(player_resource).bombs > 0 ==> {
            &&& final(registry).bombs@ == old(registry).bombs@.push(
                Entity { id: old(registry).next_id, pos: spawn_pos_spec(ev.0) },
            )
            &&& final(registry).next_id == old(registry).next_id + 1
            &&& final(intents)@ == old(intents)@ + seq![
                Intent::PlaySound { asset: AssetId::BombSfx },
                Intent::SpawnVisual {
                    entity: old(registry).next_id,
                    asset: AssetId::BombTile,
                    pos: spawn_pos_spec(ev.0),
                },
            ]
        },
        old(player_resource).bombs == 0 ==> {
            &&& *final(registry) == *old(registry)
            &&& final(intents)@ == old(intents)@
        },
        final(registry).enemies == old(registry).enemies,
        final(registry).bullets == old(registry).bullets,
        final(registry).player == old(registry).player,
{
    if player_resource.bombs > 0 {
        player_resource.bombs = player_resource.bombs - 1;
        let pos = Vec2 { x: ev.0.x, y: ev.0.y + FORWARD_OFFSET };
        let id = registry.spawn_bomb(pos);
        intents.push(Intent::PlaySound { asset: AssetId::BombSfx });
        intents.push(Intent::SpawnVisual { entity: id, asset: AssetId::BombTile, pos });
        proof {
            assert(intents@ =~= old(intents)@ + seq![
                Intent::PlaySound { asset: AssetId::BombSfx },
                Intent::SpawnVisual {
                    entity: id,
                    asset: AssetId::BombTile,
                    pos: spawn_pos_spec(ev.0),
                },
            ]);
        }
    }
    player_resource.bombs
}

/// Advances every bomb straight up by its configured speed.
pub fn move_bomb(bombs: &mut Vec<Entity>, bomb_resource: &BombResource, dt: u32)
    requires
        bomb_resource.wf(),
        dt <= DT_LIMIT,
        registry::positions_within(old(bombs)@, POS_LIMIT as int),
    ensures
        final(bombs)@.len() == old(bombs)@.len(),
        forall|i: int|
            0 <= i < old(bombs)@.len() ==> #[trigger] final(bombs)@[i] == (Entity {
                id: old(bombs)@[i].id,
                pos: Vec2 {
                    x: old(bombs)@[i].pos.x,
                    y: (old(bombs)@[i].pos.y + bomb_resource.speed * dt) as i64,
                },
            }),
{
    let mut i: usize = 0;
    while i < bombs.len()
        invariant
            i <= bombs@.len(),
            bombs@.len() == old(bombs)@.len(),
            bomb_resource.wf(),
            dt <= DT_LIMIT,
            registry::positions_within(old(bombs)@, POS_LIMIT as int),
            forall|k: int| i <= k < old(bombs)@.len() ==> #[trigger] bombs@[k] == old(bombs)@[k],
            forall|k: int|
                0 <= k < i ==> #[trigger] bombs@[k] == (Entity {
                    id: old(bombs)@[k].id,
                    pos: Vec2 {
                        x: old(bombs)@[k].pos.x,
                        y: (old(bombs)@[k].pos.y + bomb_resource.speed * dt) as i64,
                    },
                }),
        decreases bombs@.len() - i,
    {
        let e = bombs[i];
        let pos = geom::move_along(e.pos, Axis::Vertical, bomb_resource.speed, dt);
        bombs.set(i, Entity { id: e.id, pos });
        i = i + 1;
    }
}

/// Reaps every bomb that has left the top of the window, despawning
/// its visual.
pub fn despawn_if_offscreen(bombs: &mut Vec<Entity>, half_height: i64, intents: &mut Vec<Intent>)
    ensures
        final(bombs)@ == registry::mask_filter(
            old(bombs)@,
            registry::reap_keep_mask(old(bombs)@, half_height as int),
        ),
        final(intents)@ == old(intents)@ + registry::reap_intents(
            old(bombs)@,
            half_height as int,
        ),
{
    registry::reap_offscreen(bombs, half_height, intents);
}

} // verus!
