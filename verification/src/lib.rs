//! Simulation core of a small 2D arcade shooter.
//!
//! The library advances entity positions each frame, wraps player and enemy
//! ships at the window edges, reaps projectiles that leave the top of the
//! screen, maps raw device inputs through remappable slots to logical
//! abilities, spends finite bomb and evade charges, resolves
//! projectile/enemy collisions with a no-double-match rule, and drives the
//! temporary evasion status effect.
//!
//! Rendering, audio and device input stay outside: the core consumes plain
//! values (which inputs are down, the elapsed milliseconds) and emits
//! declarative [`intent::Intent`] values that a host turns into drawing and
//! sound.
//!
//! Positions are integers in thousandths of a world unit, so a speed given
//! in world units per second advances a position by exactly that many
//! subunits per elapsed millisecond.

pub mod bomb;
pub mod bullet;
pub mod collision;
pub mod enemy;
pub mod evade;
pub mod frame;
pub mod geom;
pub mod input;
pub mod intent;
pub mod player;
pub mod registry;
