use rustaga::bomb::{self, ShootBombEvent};
use rustaga::bullet::{self, ShootBulletEvent, FORWARD_OFFSET};
use rustaga::evade::{
    handle_evasion, start_player_evasion, EvadeTimer, EVADE_DURATION_MS,
};
use rustaga::geom::{Vec2, UNIT};
use rustaga::intent::{AssetId, Intent};
use rustaga::player::PlayerResource;
use rustaga::registry::Registry;

fn shooter() -> (Registry, Vec<Intent>) {
    (Registry::new(Vec2 { x: 0, y: -200 * UNIT }), Vec::new())
}

#[test]
fn bullets_always_fire_and_spawn_ahead_of_the_player() {
    let (mut registry, mut intents) = shooter();
    let pos = Vec2 { x: 5 * UNIT, y: -200 * UNIT };
    let id1 = bullet::handle_shoot(&mut registry, &ShootBulletEvent(pos), &mut intents);
    let id2 = bullet::handle_shoot(&mut registry, &ShootBulletEvent(pos), &mut intents);
    assert_ne!(id1, id2);
    assert_eq!(registry.bullets.len(), 2);
    assert_eq!(registry.bullets[0].pos, Vec2 { x: 5 * UNIT, y: -200 * UNIT + FORWARD_OFFSET });
    assert_eq!(intents[0], Intent::PlaySound { asset: AssetId::BulletSfx });
    assert!(matches!(intents[1], Intent::SpawnVisual { asset: AssetId::BulletTile, .. }));
}

#[test]
fn three_bombs_then_a_denied_fourth() {
    let (mut registry, mut intents) = shooter();
    let mut resources = PlayerResource::new();
    assert_eq!(resources.bombs, 3);
    let ev = ShootBombEvent(Vec2 { x: 0, y: 0 });

    assert_eq!(bomb::handle_shoot(&mut registry, &mut resources, &ev, &mut intents), 2);
    assert_eq!(bomb::handle_shoot(&mut registry, &mut resources, &ev, &mut intents), 1);
    assert_eq!(bomb::handle_shoot(&mut registry, &mut resources, &ev, &mut intents), 0);
    assert_eq!(registry.bombs.len(), 3);
    let intents_before = intents.len();

    // The fourth attempt spawns nothing, sounds nothing, and the
    // count stays at zero rather than going negative.
    assert_eq!(bomb::handle_shoot(&mut registry, &mut resources, &ev, &mut intents), 0);
    assert_eq!(resources.bombs, 0);
    assert_eq!(registry.bombs.len(), 3);
    assert_eq!(intents.len(), intents_before);
}

#[test]
fn bomb_fire_spends_exactly_one_charge() {
    let (mut registry, mut intents) = shooter();
    let mut resources = PlayerResource::new();
    let ev = ShootBombEvent(Vec2 { x: 0, y: 0 });
    bomb::handle_shoot(&mut registry, &mut resources, &ev, &mut intents);
    assert_eq!(resources.bombs, 2);
    assert_eq!(resources.evades, 3);
    assert_eq!(intents[0], Intent::PlaySound { asset: AssetId::BombSfx });
}

#[test]
fn evade_activates_once_and_declines_while_running() {
    let mut resources = PlayerResource::new();
    let mut timer: Option<EvadeTimer> = None;
    let mut intents: Vec<Intent> = Vec::new();

    let left = start_player_evasion(&mut resources, &mut timer, 0, &mut intents);
    assert_eq!(left, 2);
    assert_eq!(timer, Some(EvadeTimer { elapsed: 0, duration: EVADE_DURATION_MS }));
    assert_eq!(intents[0], Intent::PlaySound { asset: AssetId::EvadeSfx });
    assert_eq!(
        intents[1],
        Intent::SetSprite { entity: 0, asset: AssetId::PlayerShipEvading },
    );

    // A second activation while evading is a no-op.
    let before = intents.len();
    let left = start_player_evasion(&mut resources, &mut timer, 0, &mut intents);
    assert_eq!(left, 2);
    assert_eq!(timer, Some(EvadeTimer { elapsed: 0, duration: EVADE_DURATION_MS }));
    assert_eq!(intents.len(), before);
}

#[test]
fn evade_declines_without_charges() {
    let mut resources = PlayerResource { movement_speed: 250, health: 100, evades: 0, bombs: 3 };
    let mut timer: Option<EvadeTimer> = None;
    let mut intents: Vec<Intent> = Vec::new();
    let left = start_player_evasion(&mut resources, &mut timer, 0, &mut intents);
    assert_eq!(left, 0);
    assert_eq!(timer, None);
    assert!(intents.is_empty());
}

#[test]
fn evade_timer_reverts_exactly_once_when_the_duration_is_crossed() {
    let mut timer = Some(EvadeTimer { elapsed: 0, duration: EVADE_DURATION_MS });
    let mut intents: Vec<Intent> = Vec::new();

    // Short of the duration: the timer accrues and the evading
    // visual is re-asserted.
    handle_evasion(&mut timer, 400, 0, &mut intents);
    assert_eq!(timer, Some(EvadeTimer { elapsed: 400, duration: EVADE_DURATION_MS }));
    assert_eq!(
        intents,
        vec![Intent::SetSprite { entity: 0, asset: AssetId::PlayerShipEvading }],
    );

    // Crossing the duration: one revert, timer removed.
    intents.clear();
    handle_evasion(&mut timer, 600, 0, &mut intents);
    assert_eq!(timer, None);
    assert_eq!(intents, vec![Intent::SetSprite { entity: 0, asset: AssetId::PlayerShip }]);

    // Afterwards: nothing fires again.
    intents.clear();
    handle_evasion(&mut timer, 600, 0, &mut intents);
    assert_eq!(timer, None);
    assert!(intents.is_empty());
}

#[test]
fn evade_timer_reverts_on_an_exact_crossing() {
    let mut timer = Some(EvadeTimer { elapsed: 999, duration: EVADE_DURATION_MS });
    let mut intents: Vec<Intent> = Vec::new();
    handle_evasion(&mut timer, 1, 7, &mut intents);
    assert_eq!(timer, None);
    assert_eq!(intents, vec![Intent::SetSprite { entity: 7, asset: AssetId::PlayerShip }]);
}
