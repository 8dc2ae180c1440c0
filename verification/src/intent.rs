//! Declarative effects the core hands to the rendering and audio host.
//!
//! The core never touches an asset or a speaker: it names assets
//! symbolically and lets the host spawn sprites, despawn them, swap one
//! and play sounds.

use vstd::prelude::*;
use crate::geom::Vec2;

verus! {

/// Symbolic handle for a sprite or sound the host owns.
#[derive(Clone, Copy, Debug, PartialEq, Eq, Structural)]
pub enum AssetId {
    BackgroundMusic,
    PlayerShip,
    PlayerShipEvading,
    EnemyShip,
    BulletTile,
    BombTile,
    BulletSfx,
    BombSfx,
    EvadeSfx,
    BulletHitSfx,
    BombHitSfx,
}

/// One effect of a frame, addressed to the host by entity identifier.
#[derive(Clone, Copy, Debug, PartialEq, Eq, Structural)]
pub enum Intent {
    SpawnVisual { entity: u64, asset: AssetId, pos: Vec2 },
    DespawnVisual { entity: u64 },
    PlaySound { asset: AssetId },
    SetSprite { entity: u64, asset: AssetId },
}

} // verus!
