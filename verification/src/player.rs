//! The player: its resources, its default bindings, its movement rule
//! and the dispatch from just-activated abilities to events.

use vstd::prelude::*;
use crate::bomb::ShootBombEvent;
use crate::bullet::ShootBulletEvent;
use crate::evade::EvadeEvent;
use crate::geom::{self, Axis, Vec2, POS_LIMIT, SPEED_LIMIT, DT_LIMIT, UNIT, WINDOW_LIMIT};
use crate::input::{
    AbilitySlotMap, ActionData, Ability, Movement, RawInput, Slot, ABILITY_COUNT, SLOT_COUNT,
    movement_pressed, movement_pressed_spec,
};
use crate::registry::Entity;

verus! {

/// Where the player spawns: centered, 200 units below the middle.
pub const PLAYER_SPAWN_Y: i64 = -200 * UNIT;

/// The player's owned resources: movement speed in subunits per
/// millisecond, health, and the finite evade and bomb charges.
#[derive(Clone, Copy, Debug, PartialEq, Eq, Structural)]
pub struct PlayerResource {
    pub movement_speed: i64,
    pub health: u32,
    pub evades: u32,
    pub bombs: u32,
}

impl PlayerResource {
    /// The movement speed stays within the mover's limit.
    pub open spec fn wf(self) -> bool {
        0 <= self.movement_speed <= SPEED_LIMIT
    }

    /// The starting resources: speed 250, health 100, three evades,
    /// three bombs.
    pub fn new() -> (r: PlayerResource)
        ensures
            r.wf(),
            r == (PlayerResource { movement_speed: 250, health: 100, evades: 3, bombs: 3 }),
    {
        PlayerResource { movement_speed: 250, health: 100, evades: 3, bombs: 3 }
    }
}

/// Everything a freshly spawned player carries: its position, its two
/// device binding tables, its slot-to-ability table and the empty
/// pressed-set bookkeeping.
pub struct PlayerBundle {
    pub pos: Vec2,
    pub movement_input_map: Vec<(RawInput, Movement)>,
    pub slot_input_map: Vec<(RawInput, Slot)>,
    pub ability_slot_map: AbilitySlotMap,
    pub prev_slot_pressed: Vec<bool>,
}

/// Spawns the player: centered low on the screen, steered with A/D or
/// the arrow keys, slots bound to mouse buttons and Z/X/Space/Q/W/E,
/// and the default slot-to-ability table (primary shoots, secondary
/// bombs, the first ability slot evades).
pub fn spawn_player() -> (b: PlayerBundle)
    ensures
        b.pos == (Vec2 { x: 0, y: PLAYER_SPAWN_Y }),
        b.movement_input_map@ =~= seq![
            (RawInput::KeyA, Movement::Left),
            (RawInput::KeyD, Movement::Right),
            (RawInput::ArrowLeft, Movement::Left),
            (RawInput::ArrowRight, Movement::Right),
        ],
        b.slot_input_map@ =~= seq![
            (RawInput::Space, Slot::Ability1),
            (RawInput::KeyQ, Slot::Ability2),
            (RawInput::KeyW, Slot::Ability3),
            (RawInput::KeyE, Slot::Ability4),
            (RawInput::MouseLeft, Slot::Primary),
            (RawInput::MouseRight, Slot::Secondary),
            (RawInput::KeyZ, Slot::Primary),
            (RawInput::KeyX, Slot::Secondary),
        ],
        b.ability_slot_map.wf(),
        b.ability_slot_map.spec_get(Slot::Primary) == Some(Ability::ShootBullet),
        b.ability_slot_map.spec_get(Slot::Secondary) == Some(Ability::Bomb),
        b.ability_slot_map.spec_get(Slot::Ability1) == Some(Ability::Evade),
        b.ability_slot_map.spec_get(Slot::Ability2) is None,
        b.ability_slot_map.spec_get(Slot::Ability3) is None,
        b.ability_slot_map.spec_get(Slot::Ability4) is None,
        b.prev_slot_pressed@ =~= seq![false, false, false, false, false, false],
{
    let mut movement_input_map: Vec<(RawInput, Movement)> = Vec::new();
    movement_input_map.push((RawInput::KeyA, Movement::Left));
    movement_input_map.push((RawInput::KeyD, Movement::Right));
    movement_input_map.push((RawInput::ArrowLeft, Movement::Left));
    movement_input_map.push((RawInput::ArrowRight, Movement::Right));

    let mut slot_input_map: Vec<(RawInput, Slot)> = Vec::new();
    slot_input_map.push((RawInput::Space, Slot::Ability1));
    slot_input_map.push((RawInput::KeyQ, Slot::Ability2));
    slot_input_map.push((RawInput::KeyW, Slot::Ability3));
    slot_input_map.push((RawInput::KeyE, Slot::Ability4));
    slot_input_map.push((RawInput::MouseLeft, Slot::Primary));
    slot_input_map.push((RawInput::MouseRight, Slot::Secondary));
    slot_input_map.push((RawInput::KeyZ, Slot::Primary));
    slot_input_map.push((RawInput::KeyX, Slot::Secondary));

    let mut ability_slot_map = AbilitySlotMap::new();
    ability_slot_map.insert(Slot::Primary, Ability::ShootBullet);
    ability_slot_map.insert(Slot::Secondary, Ability::Bomb);
    ability_slot_map.insert(Slot::Ability1, Ability::Evade);

    let mut prev_slot_pressed: Vec<bool> = Vec::new();
    let mut i: usize = 0;
    while i < SLOT_COUNT
        invariant
            i <= SLOT_COUNT,
            prev_slot_pressed@.len() == i,
            forall|k: int| 0 <= k < i ==> prev_slot_pressed@[k] == false,
        decreases SLOT_COUNT - i,
    {
        prev_slot_pressed.push(false);
        i = i + 1;
    }

    PlayerBundle {
        pos: Vec2 { x: 0, y: PLAYER_SPAWN_Y },
        movement_input_map,
        slot_input_map,
        ability_slot_map,
        prev_slot_pressed,
    }
}

/// The horizontal velocity the held movement actions give: left takes
/// precedence when both directions are held, and only one directional
/// velocity applies per frame.
pub open spec fn velocity_spec(left: bool, right: bool, speed: int) -> int {
    if left {
        -speed
    } else if right {
        speed
    } else {
        0
    }
}

/// Moves the player horizontally by the held direction's speed, left
/// taking precedence when both are held.
pub fn handle_movement(
    pos: Vec2,
    movement_input_map: &Vec<(RawInput, Movement)>,
    down: &Vec<RawInput>,
    speed: i64,
    dt: u32,
) -> (r: Vec2)
    requires
        -POS_LIMIT <= pos.x <= POS_LIMIT,
        -POS_LIMIT <= pos.y <= POS_LIMIT,
        0 <= speed <= SPEED_LIMIT,
        dt <= DT_LIMIT,
    ensures
        r.y == pos.y,
        r.x == pos.x + velocity_spec(
            movement_pressed_spec(movement_input_map@, down@, Movement::Left),
            movement_pressed_spec(movement_input_map@, down@, Movement::Right),
            speed as int,
        ) * dt,
{
    if movement_pressed(movement_input_map, down, Movement::Left) {
        geom::move_along(pos, Axis::Horizontal, -speed, dt)
    } else if movement_pressed(movement_input_map, down, Movement::Right) {
        geom::move_along(pos, Axis::Horizontal, speed, dt)
    } else {
        proof {
            assert(0 * dt as int == 0);
        }
        pos
    }
}

/// Wraps the player at the window edge: a ship past the half-width
/// teleports one unit inside the opposite edge.
pub fn wrap_player_around_window(player: &mut Entity, half_width: i64)
    requires
        UNIT <= half_width <= WINDOW_LIMIT,
        -POS_LIMIT <= old(player).pos.x <= POS_LIMIT,
    ensures
        final(player).id == old(player).id,
        final(player).pos.y == old(player).pos.y,
        final(player).pos.x == geom::wrap_spec(old(player).pos.x as int, half_width as int),
        -half_width <= final(player).pos.x <= half_width,
{
    let x = geom::wrap_x(player.pos.x, half_width);
    player.pos = Vec2 { x, y: player.pos.y };
}

/// The events one frame's just-activated abilities raise, each at most
/// once per frame and carrying the player's position at dispatch.
pub struct AbilityEvents {
    pub shoot_bullet: Option<ShootBulletEvent>,
    pub shoot_bomb: Option<ShootBombEvent>,
    pub evade: Option<EvadeEvent>,
}

/// Dispatches the frame's just-activated abilities: each ability whose
/// record is freshly pressed raises its event, stamped with the
/// player's current position.
pub fn handle_abilities(ability_st: &Vec<ActionData>, player_pos: Vec2) -> (ev: AbilityEvents)
    requires
        ability_st@.len() == ABILITY_COUNT,
    ensures
        ev.shoot_bullet == if ability_st@[Ability::ShootBullet.idx()].just_pressed {
            Some(ShootBulletEvent(player_pos))
        } else {
            Option::<ShootBulletEvent>::None
        },
        ev.shoot_bomb == if ability_st@[Ability::Bomb.idx()].just_pressed {
            Some(ShootBombEvent(player_pos))
        } else {
            Option::<ShootBombEvent>::None
        },
        ev.evade == if ability_st@[Ability::Evade.idx()].just_pressed {
            Some(EvadeEvent)
        } else {
            Option::<EvadeEvent>::None
        },
{
    let shoot_bullet = if ability_st[Ability::ShootBullet.index()].just_pressed {
        Some(ShootBulletEvent(player_pos))
    } else {
        None
    };
    let shoot_bomb = if ability_st[Ability::Bomb.index()].just_pressed {
        Some(ShootBombEvent(player_pos))
    } else {
        None
    };
    let evade = if ability_st[Ability::Evade.index()].just_pressed {
        Some(EvadeEvent)
    } else {
        None
    };
    AbilityEvents { shoot_bullet, shoot_bomb, evade }
}

} // verus!
