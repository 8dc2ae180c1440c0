use rustaga::bullet;
use rustaga::evade::{EvadeTimer, EVADE_DURATION_MS};
use rustaga::frame::{World, WINDOW_HALF_HEIGHT, WINDOW_HALF_WIDTH};
use rustaga::geom::{Vec2, UNIT};
use rustaga::input::{Ability, RawInput, Slot};
use rustaga::intent::{AssetId, Intent};
use rustaga::registry::Entity;

fn spawns_of(intents: &[Intent], wanted: AssetId) -> usize {
    intents
        .iter()
        .filter(|i| matches!(i, Intent::SpawnVisual { asset, .. } if *asset == wanted))
        .count()
}

fn sounds_of(intents: &[Intent], wanted: AssetId) -> usize {
    intents
        .iter()
        .filter(|i| matches!(i, Intent::PlaySound { asset } if *asset == wanted))
        .count()
}

#[test]
fn a_new_world_matches_the_startup_configuration() {
    let (world, intents) = World::new();
    assert_eq!(world.window.half_width, WINDOW_HALF_WIDTH);
    assert_eq!(world.window.half_height, WINDOW_HALF_HEIGHT);
    assert_eq!(world.player_resource.bombs, 3);
    assert_eq!(world.player_resource.evades, 3);
    assert_eq!(world.player_resource.movement_speed, 250);
    assert_eq!(world.registry.player.pos, Vec2 { x: 0, y: -200 * UNIT });
    assert_eq!(world.registry.enemies.len(), 1);
    assert_eq!(world.registry.enemies[0].pos, Vec2 { x: 0, y: 200 * UNIT });
    assert!(world.registry.bullets.is_empty());
    assert!(world.registry.bombs.is_empty());
    assert_eq!(world.ability_slot_map.get(Slot::Primary), Some(Ability::ShootBullet));
    assert_eq!(world.ability_slot_map.get(Slot::Secondary), Some(Ability::Bomb));
    assert_eq!(world.ability_slot_map.get(Slot::Ability1), Some(Ability::Evade));
    assert_eq!(world.ability_slot_map.get(Slot::Ability2), None);
    assert!(world.evade_timer.is_none());
    assert_eq!(sounds_of(&intents, AssetId::BackgroundMusic), 1);
    assert_eq!(spawns_of(&intents, AssetId::PlayerShip), 1);
    assert_eq!(spawns_of(&intents, AssetId::EnemyShip), 1);
}

#[test]
fn pressing_primary_fires_one_bullet() {
    let (mut world, _) = World::new();
    let intents = world.step(&vec![RawInput::MouseLeft], 16);
    assert_eq!(world.registry.bullets.len(), 1);
    assert_eq!(spawns_of(&intents, AssetId::BulletTile), 1);
    assert_eq!(sounds_of(&intents, AssetId::BulletSfx), 1);
}

#[test]
fn holding_primary_across_frames_fires_only_once() {
    let (mut world, _) = World::new();
    let down = vec![RawInput::MouseLeft];
    let first = world.step(&down, 16);
    let second = world.step(&down, 16);
    assert_eq!(spawns_of(&first, AssetId::BulletTile), 1);
    assert_eq!(spawns_of(&second, AssetId::BulletTile), 0);
    assert_eq!(world.registry.bullets.len(), 1);
}

#[test]
fn releasing_and_pressing_again_fires_again() {
    let (mut world, _) = World::new();
    let down = vec![RawInput::KeyZ];
    world.step(&down, 16);
    world.step(&vec![], 16);
    let third = world.step(&down, 16);
    assert_eq!(spawns_of(&third, AssetId::BulletTile), 1);
    assert_eq!(world.registry.bullets.len(), 2);
}

#[test]
fn four_bomb_presses_spend_exactly_three_charges() {
    let (mut world, _) = World::new();
    let mut bomb_spawns = 0;
    for _ in 0..4 {
        let pressed = world.step(&vec![RawInput::MouseRight], 16);
        bomb_spawns += spawns_of(&pressed, AssetId::BombTile);
        world.step(&vec![], 16);
    }
    assert_eq!(bomb_spawns, 3);
    assert_eq!(world.player_resource.bombs, 0);
    assert_eq!(world.registry.bombs.len(), 3);
}

#[test]
fn remapping_a_slot_moves_the_trigger_without_changing_the_spend() {
    // Swap which slot fires the bomb: primary instead of secondary.
    let (mut world, _) = World::new();
    world.ability_slot_map.insert(Slot::Primary, Ability::Bomb);
    world.ability_slot_map.insert(Slot::Secondary, Ability::ShootBullet);

    // The old trigger now shoots a bullet and leaves the stock alone.
    let via_secondary = world.step(&vec![RawInput::MouseRight], 16);
    assert_eq!(spawns_of(&via_secondary, AssetId::BombTile), 0);
    assert_eq!(spawns_of(&via_secondary, AssetId::BulletTile), 1);
    assert_eq!(world.player_resource.bombs, 3);
    world.step(&vec![], 16);

    // The new trigger spends exactly one charge, as the old one did.
    let via_primary = world.step(&vec![RawInput::MouseLeft], 16);
    assert_eq!(spawns_of(&via_primary, AssetId::BombTile), 1);
    assert_eq!(world.player_resource.bombs, 2);
}

#[test]
fn evade_runs_its_course_through_the_frame_loop() {
    let (mut world, _) = World::new();

    let started = world.step(&vec![RawInput::Space], 100);
    assert_eq!(world.player_resource.evades, 2);
    assert_eq!(sounds_of(&started, AssetId::EvadeSfx), 1);
    // The activation frame also advances the fresh timer.
    assert_eq!(
        world.evade_timer,
        Some(EvadeTimer { elapsed: 100, duration: EVADE_DURATION_MS }),
    );

    // Holding the key does not re-activate, and the timer keeps
    // accruing until the crossing frame reverts exactly once.
    let running = world.step(&vec![RawInput::Space], 500);
    assert_eq!(world.player_resource.evades, 2);
    assert_eq!(
        world.evade_timer,
        Some(EvadeTimer { elapsed: 600, duration: EVADE_DURATION_MS }),
    );
    assert!(running
        .iter()
        .any(|i| matches!(i, Intent::SetSprite { asset: AssetId::PlayerShipEvading, .. })));

    let crossing = world.step(&vec![], 400);
    assert!(world.evade_timer.is_none());
    let reverts = crossing
        .iter()
        .filter(|i| matches!(i, Intent::SetSprite { asset: AssetId::PlayerShip, .. }))
        .count();
    assert_eq!(reverts, 1);

    let after = world.step(&vec![], 400);
    assert!(after
        .iter()
        .all(|i| !matches!(i, Intent::SetSprite { .. })));
}

#[test]
fn pressing_evade_while_evading_is_a_noop() {
    let (mut world, _) = World::new();
    world.step(&vec![RawInput::Space], 100);
    world.step(&vec![], 100);
    // A fresh edge while the timer runs must not spend a charge.
    world.step(&vec![RawInput::Space], 100);
    assert_eq!(world.player_resource.evades, 2);
}

#[test]
fn the_player_moves_left_by_speed_times_dt() {
    let (mut world, _) = World::new();
    world.step(&vec![RawInput::KeyA], 16);
    assert_eq!(world.registry.player.pos, Vec2 { x: -250 * 16, y: -200 * UNIT });
}

#[test]
fn left_takes_precedence_when_both_directions_are_held() {
    let (mut world, _) = World::new();
    world.step(&vec![RawInput::KeyA, RawInput::KeyD], 16);
    assert_eq!(world.registry.player.pos.x, -250 * 16);
}

#[test]
fn the_enemy_drifts_left_and_wraps_at_the_edge() {
    let (mut world, _) = World::new();
    world.step(&vec![], 16);
    assert_eq!(world.registry.enemies[0].pos, Vec2 { x: -200 * 16, y: 200 * UNIT });

    // Carry the enemy past the left edge; it teleports one unit
    // inside the right edge.
    world.registry.enemies[0] = Entity {
        id: world.registry.enemies[0].id,
        pos: Vec2 { x: -WINDOW_HALF_WIDTH + 100, y: 200 * UNIT },
    };
    world.step(&vec![], 16);
    assert_eq!(world.registry.enemies[0].pos.x, WINDOW_HALF_WIDTH - UNIT);
}

#[test]
fn the_player_wraps_at_the_edge() {
    let (mut world, _) = World::new();
    world.registry.player = Entity {
        id: world.registry.player.id,
        pos: Vec2 { x: -WINDOW_HALF_WIDTH + 100, y: -200 * UNIT },
    };
    world.step(&vec![RawInput::KeyA], 16);
    assert_eq!(world.registry.player.pos, Vec2 { x: WINDOW_HALF_WIDTH - UNIT, y: -200 * UNIT });
}

#[test]
fn a_bomb_spawns_a_fixed_distance_ahead_of_the_player() {
    let (mut world, _) = World::new();
    let fired = world.step(&vec![RawInput::MouseRight], 0);
    // With a zero-length frame the bomb stays where it spawned.
    assert_eq!(
        world.registry.bombs[0].pos,
        Vec2 { x: 0, y: -200 * UNIT + bullet::FORWARD_OFFSET },
    );
    assert_eq!(spawns_of(&fired, AssetId::BombTile), 1);
}

#[test]
fn bullets_fly_up_and_are_reaped_past_the_top_edge() {
    let (mut world, _) = World::new();
    world.step(&vec![RawInput::MouseLeft], 16);
    let after_spawn = world.registry.bullets[0].pos;
    assert_eq!(
        after_spawn.y,
        -200 * UNIT + bullet::FORWARD_OFFSET + world.bullet_resource.speed * 16,
    );
    let bullet_id = world.registry.bullets[0].id;

    // Push the bullet just past the top edge and step once more.
    world.registry.bullets[0] = Entity {
        id: bullet_id,
        pos: Vec2 { x: after_spawn.x, y: WINDOW_HALF_HEIGHT },
    };
    let intents = world.step(&vec![], 16);
    assert!(world.registry.bullets.is_empty());
    assert!(intents.contains(&Intent::DespawnVisual { entity: bullet_id }));
}

#[test]
fn a_bullet_fired_into_the_enemy_despawns_both() {
    let (mut world, _) = World::new();
    // Drop a bullet right on the enemy and let the frame resolve it.
    // The enemy drifts left and the bullet climbs during the frame,
    // so place the bullet where the two will meet.
    let enemy = world.registry.enemies[0];
    let bullet_id = world.registry.spawn_bullet(Vec2 {
        x: enemy.pos.x - 200 * 16,
        y: enemy.pos.y - 300 * 16,
    });
    let intents = world.step(&vec![], 16);
    assert!(world.registry.enemies.is_empty());
    assert!(world.registry.bullets.is_empty());
    assert_eq!(sounds_of(&intents, AssetId::BulletHitSfx), 1);
    assert!(intents.contains(&Intent::DespawnVisual { entity: bullet_id }));
    assert!(intents.contains(&Intent::DespawnVisual { entity: enemy.id }));
}
