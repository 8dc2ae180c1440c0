use rustaga::bullet::BulletResource;
use rustaga::collision::resolve_collisions;
use rustaga::enemy::check_bullet_collision;
use rustaga::geom::{Vec2, UNIT};
use rustaga::intent::{AssetId, Intent};
use rustaga::registry::{Entity, Registry};

fn at(id: u64, x: i64, y: i64) -> Entity {
    Entity { id, pos: Vec2 { x, y } }
}

#[test]
fn one_overlapping_pair_despawns_one_of_each() {
    let enemies = vec![at(1, 0, 0)];
    let projectiles = vec![at(2, 0, 0)];
    let out = resolve_collisions(&enemies, &projectiles, 10 * UNIT);
    assert_eq!(out.enemy_alive, vec![false]);
    assert_eq!(out.projectile_alive, vec![false]);
    assert_eq!(out.pairs, vec![(0, 0)]);
}

#[test]
fn a_despawned_enemy_is_not_matched_again() {
    // Two bullets overlap the one enemy; only one bullet may claim it.
    let enemies = vec![at(1, 0, 0)];
    let projectiles = vec![at(2, 0, 0), at(3, 0, 0)];
    let out = resolve_collisions(&enemies, &projectiles, 10 * UNIT);
    assert_eq!(out.pairs.len(), 1);
    assert_eq!(out.enemy_alive, vec![false]);
    let survivors = out.projectile_alive.iter().filter(|alive| **alive).count();
    assert_eq!(survivors, 1);
}

#[test]
fn a_despawned_projectile_is_not_matched_again() {
    let enemies = vec![at(1, 0, 0), at(2, 0, 0)];
    let projectiles = vec![at(3, 0, 0)];
    let out = resolve_collisions(&enemies, &projectiles, 10 * UNIT);
    assert_eq!(out.pairs.len(), 1);
    assert_eq!(out.projectile_alive, vec![false]);
    let survivors = out.enemy_alive.iter().filter(|alive| **alive).count();
    assert_eq!(survivors, 1);
}

#[test]
fn disjoint_entities_all_survive() {
    let enemies = vec![at(1, 0, 0), at(2, 100 * UNIT, 0)];
    let projectiles = vec![at(3, 0, 50 * UNIT), at(4, -100 * UNIT, 0)];
    let out = resolve_collisions(&enemies, &projectiles, 10 * UNIT);
    assert!(out.pairs.is_empty());
    assert_eq!(out.enemy_alive, vec![true, true]);
    assert_eq!(out.projectile_alive, vec![true, true]);
}

#[test]
fn two_separate_pairs_both_match() {
    let enemies = vec![at(1, 0, 0), at(2, 100 * UNIT, 0)];
    let projectiles = vec![at(3, 100 * UNIT, UNIT), at(4, 0, UNIT)];
    let out = resolve_collisions(&enemies, &projectiles, 10 * UNIT);
    assert_eq!(out.pairs.len(), 2);
    assert_eq!(out.enemy_alive, vec![false, false]);
    assert_eq!(out.projectile_alive, vec![false, false]);
}

#[test]
fn bullet_collision_despawns_from_the_registry_and_sounds_the_hit() {
    let mut registry = Registry::new(Vec2 { x: 0, y: -200 * UNIT });
    registry.spawn_enemy(Vec2 { x: 0, y: 100 * UNIT });
    let bullet_id = registry.spawn_bullet(Vec2 { x: UNIT, y: 100 * UNIT });
    let enemy_id = registry.enemies[0].id;
    let mut intents: Vec<Intent> = Vec::new();

    check_bullet_collision(&mut registry, &BulletResource::new(), &mut intents);

    assert!(registry.enemies.is_empty());
    assert!(registry.bullets.is_empty());
    assert_eq!(
        intents,
        vec![
            Intent::PlaySound { asset: AssetId::BulletHitSfx },
            Intent::DespawnVisual { entity: bullet_id },
            Intent::DespawnVisual { entity: enemy_id },
        ],
    );
}

#[test]
fn bullet_collision_misses_outside_the_radius() {
    let mut registry = Registry::new(Vec2 { x: 0, y: -200 * UNIT });
    registry.spawn_enemy(Vec2 { x: 0, y: 100 * UNIT });
    registry.spawn_bullet(Vec2 { x: 20 * UNIT, y: 100 * UNIT });
    let mut intents: Vec<Intent> = Vec::new();

    check_bullet_collision(&mut registry, &BulletResource::new(), &mut intents);

    assert_eq!(registry.enemies.len(), 1);
    assert_eq!(registry.bullets.len(), 1);
    assert!(intents.is_empty());
}
