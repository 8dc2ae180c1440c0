//! The frame loop's state and its per-frame step, in the fixed order:
//! input binding, ability dispatch, resource spending and spawning,
//! movement, boundary wrap and reap, collision resolution, status
//! timer, then the pressed-set bookkeeping for the next frame.

use vstd::prelude::*;
use crate::bomb::{self, bomb_fire_spec, BombResource};
use crate::bullet::{self, BulletResource};
use crate::enemy::{self, EnemyResource};
use crate::evade::{
    self, evade_tick_spec, timer_wf, EvadeTimer, EVADE_DURATION_MS,
};
use crate::geom::{self, Vec2, DT_LIMIT, POS_LIMIT, UNIT, WINDOW_LIMIT};
use crate::input::{
    self, ability_edge_spec, pressed_after, slot_states_spec, AbilitySlotMap, Ability, Movement,
    RawInput, Slot, SLOT_COUNT,
};
use crate::intent::{AssetId, Intent};
use crate::player::{self, velocity_spec, PlayerResource};
use crate::registry::{
    self, lemma_mask_filter_below, lemma_mask_filter_disjoint, lemma_mask_filter_distinct,
    lemma_mask_filter_excludes, lemma_mask_filter_sub, lemma_reap_keeps_below, mask_filter,
    positions_within, Entity, Registry,
};

verus! {

/// Half the window's width, in subunits (the window is 500 by 500
/// units).
pub const WINDOW_HALF_WIDTH: i64 = 250 * UNIT;

/// Half the window's height, in subunits.
pub const WINDOW_HALF_HEIGHT: i64 = 250 * UNIT;

/// The viewport the boundary wrapper reads, as half-extents from the
/// center.
#[derive(Clone, Copy, Debug, PartialEq, Eq, Structural)]
pub struct Window {
    pub half_width: i64,
    pub half_height: i64,
}

impl Window {
    /// Both half-extents are at least one unit and within the limit.
    pub open spec fn wf(self) -> bool {
        UNIT <= self.half_width <= WINDOW_LIMIT && UNIT <= self.half_height <= WINDOW_LIMIT
    }

    /// The default 500-by-500-unit window.
    pub fn new() -> (w: Window)
        ensures
            w.wf(),
            w == (Window { half_width: WINDOW_HALF_WIDTH, half_height: WINDOW_HALF_HEIGHT }),
    {
        Window { half_width: WINDOW_HALF_WIDTH, half_height: WINDOW_HALF_HEIGHT }
    }
}

/// Every entity sits inside the window horizontally, with its height
/// within the coarse limit; the shape player and enemy ships keep at
/// every frame boundary.
pub open spec fn entities_in_window(s: Seq<Entity>, half_width: int) -> bool {
    forall|i: int|
        0 <= i < s.len() ==> -half_width <= #[trigger] s[i].pos.x <= half_width && -WINDOW_LIMIT
            <= s[i].pos.y <= WINDOW_LIMIT
}

/// Every projectile sits inside the window horizontally and at or
/// below the top edge; the shape bullets and bombs keep at every
/// frame boundary, since higher ones are reaped.
pub open spec fn projectiles_in_flight(s: Seq<Entity>, half_width: int, half_height: int) -> bool {
    forall|i: int|
        0 <= i < s.len() ==> -half_width <= #[trigger] s[i].pos.x <= half_width && -WINDOW_LIMIT
            <= s[i].pos.y <= half_height
}

/// Filtering a list keeps every survivor inside the window.
proof fn lemma_filter_window(s: Seq<Entity>, keep: Seq<bool>, half_width: int)
    requires
        entities_in_window(s, half_width),
    ensures
        entities_in_window(mask_filter(s, keep), half_width),
{
    lemma_mask_filter_sub(s, keep);
    let res = mask_filter(s, keep);
    assert forall|k: int|
        0 <= k < res.len() implies -half_width <= #[trigger] res[k].pos.x <= half_width
        && -WINDOW_LIMIT <= res[k].pos.y <= WINDOW_LIMIT by {
        let j = choose|j: int| 0 <= j < s.len() && s[j] == res[k];
        assert(-half_width <= s[j].pos.x <= half_width);
    }
}

/// Filtering a list keeps every survivor in flight.
proof fn lemma_filter_flight(s: Seq<Entity>, keep: Seq<bool>, half_width: int, half_height: int)
    requires
        projectiles_in_flight(s, half_width, half_height),
    ensures
        projectiles_in_flight(mask_filter(s, keep), half_width, half_height),
{
    lemma_mask_filter_sub(s, keep);
    let res = mask_filter(s, keep);
    assert forall|k: int|
        0 <= k < res.len() implies -half_width <= #[trigger] res[k].pos.x <= half_width
        && -WINDOW_LIMIT <= res[k].pos.y <= half_height by {
        let j = choose|j: int| 0 <= j < s.len() && s[j] == res[k];
        assert(-half_width <= s[j].pos.x <= half_width);
    }
}

/// The whole simulation state one frame maps to the next.
pub struct World {
    pub window: Window,
    pub player_resource: PlayerResource,
    pub bullet_resource: BulletResource,
    pub bomb_resource: BombResource,
    pub enemy_resource: EnemyResource,
    pub registry: Registry,
    pub movement_input_map: Vec<(RawInput, Movement)>,
    pub slot_input_map: Vec<(RawInput, Slot)>,
    pub ability_slot_map: AbilitySlotMap,
    pub prev_slot_pressed: Vec<bool>,
    pub evade_timer: Option<EvadeTimer>,
}

/// Whether the ability is just activated this frame, from the world's
/// own bindings and bookkeeping.
pub open spec fn frame_edge(w: World, down: Seq<RawInput>, a: Ability) -> bool {
    ability_edge_spec(w.ability_slot_map, w.slot_input_map@, down, w.prev_slot_pressed@, a)
}

/// Whether this frame's evade activation succeeds: the edge fires, a
/// charge is in stock and no evasion is already running.
pub open spec fn evade_activates(w: World, down: Seq<RawInput>) -> bool {
    frame_edge(w, down, Ability::Evade) && w.player_resource.evades > 0 && w.evade_timer is None
}

/// The evade timer right after the ability stage, before this frame's
/// advance.
pub open spec fn timer_after_ability(w: World, down: Seq<RawInput>) -> Option<EvadeTimer> {
    if evade_activates(w, down) {
        Some(EvadeTimer { elapsed: 0, duration: EVADE_DURATION_MS })
    } else {
        w.evade_timer
    }
}

impl World {
    /// Everything a frame step relies on and hands back: well-formed
    /// configuration, registry and tables, the bookkeeping's length,
    /// a live timer short of its duration, and every live entity
    /// inside the bounds its kind keeps at frame boundaries.
    pub open spec fn wf(self) -> bool {
        &&& self.window.wf()
        &&& self.player_resource.wf()
        &&& self.bullet_resource.wf()
        &&& self.bomb_resource.wf()
        &&& self.enemy_resource.wf()
        &&& self.registry.wf()
        &&& self.ability_slot_map.wf()
        &&& self.prev_slot_pressed@.len() == SLOT_COUNT
        &&& timer_wf(self.evade_timer)
        &&& -self.window.half_width <= self.registry.player.pos.x <= self.window.half_width
        &&& -WINDOW_LIMIT <= self.registry.player.pos.y <= WINDOW_LIMIT
        &&& entities_in_window(self.registry.enemies@, self.window.half_width as int)
        &&& projectiles_in_flight(
            self.registry.bullets@,
            self.window.half_width as int,
            self.window.half_height as int,
        )
        &&& projectiles_in_flight(
            self.registry.bombs@,
            self.window.half_width as int,
            self.window.half_height as int,
        )
    }

    /// Builds the starting world: the default window and resource
    /// configurations, the player with its default bindings low on
    /// the screen, one enemy above the middle, no projectiles and no
    /// running evasion. Returns the startup intents with it: the
    /// looping background music and the two ships' visuals.
    pub fn new() -> (r: (World, Vec<Intent>))
        ensures
            r.0.wf(),
            r.0.window == (Window {
                half_width: WINDOW_HALF_WIDTH,
                half_height: WINDOW_HALF_HEIGHT,
            }),
            r.0.player_resource == (PlayerResource {
                movement_speed: 250,
                health: 100,
                evades: 3,
                bombs: 3,
            }),
            r.0.bullet_resource == (BulletResource {
                speed: bullet::BULLET_SPEED,
                radius: bullet::BULLET_RADIUS,
            }),
            r.0.bomb_resource == (BombResource {
                speed: bomb::BOMB_SPEED,
                radius: bomb::BOMB_RADIUS,
            }),
            r.0.enemy_resource == (EnemyResource { speed: 200, health: 100 }),
            r.0.registry.player.id == 0,
            r.0.registry.player.pos == (Vec2 { x: 0, y: player::PLAYER_SPAWN_Y }),
            r.0.registry.enemies@.len() == 1,
            r.0.registry.enemies@[0] == (Entity {
                id: 1,
                pos: Vec2 { x: 0, y: enemy::ENEMY_SPAWN_Y },
            }),
            r.0.registry.bullets@.len() == 0,
            r.0.registry.bombs@.len() == 0,
            r.0.registry.next_id == 2,
            r.0.ability_slot_map.spec_get(Slot::Primary) == Some(Ability::ShootBullet),
            r.0.ability_slot_map.spec_get(Slot::Secondary) == Some(Ability::Bomb),
            r.0.ability_slot_map.spec_get(Slot::Ability1) == Some(Ability::Evade),
            r.0.ability_slot_map.spec_get(Slot::Ability2) is None,
            r.0.ability_slot_map.spec_get(Slot::Ability3) is None,
            r.0.ability_slot_map.spec_get(Slot::Ability4) is None,
            r.0.movement_input_map@ =~= seq![
                (RawInput::KeyA, Movement::Left),
                (RawInput::KeyD, Movement::Right),
                (RawInput::ArrowLeft, Movement::Left),
                (RawInput::ArrowRight, Movement::Right),
            ],
            r.0.slot_input_map@ =~= seq![
                (RawInput::Space, Slot::Ability1),
                (RawInput::KeyQ, Slot::Ability2),
                (RawInput::KeyW, Slot::Ability3),
                (RawInput::KeyE, Slot::Ability4),
                (RawInput::MouseLeft, Slot::Primary),
                (RawInput::MouseRight, Slot::Secondary),
                (RawInput::KeyZ, Slot::Primary),
                (RawInput::KeyX, Slot::Secondary),
            ],
            forall|i: int| 0 <= i < SLOT_COUNT ==> r.0.prev_slot_pressed@[i] == false,
            r.0.prev_slot_pressed@.len() == SLOT_COUNT,
            r.0.evade_timer is None,
            r.1@ =~= seq![
                Intent::PlaySound { asset: AssetId::BackgroundMusic },
                Intent::SpawnVisual {
                    entity: 0,
                    asset: AssetId::PlayerShip,
                    pos: Vec2 { x: 0, y: player::PLAYER_SPAWN_Y },
                },
                Intent::SpawnVisual {
                    entity: 1,
                    asset: AssetId::EnemyShip,
                    pos: Vec2 { x: 0, y: enemy::ENEMY_SPAWN_Y },
                },
            ],
    {
        let bundle = player::spawn_player();
        let mut registry = Registry::new(bundle.pos);
        let mut intents: Vec<Intent> = Vec::new();
        intents.push(Intent::PlaySound { asset: AssetId::BackgroundMusic });
        intents.push(
            Intent::SpawnVisual { entity: 0, asset: AssetId::PlayerShip, pos: bundle.pos },
        );
        enemy::spawn_single(&mut registry, &mut intents);
        let world = World {
            window: Window::new(),
            player_resource: PlayerResource::new(),
            bullet_resource: BulletResource::new(),
            bomb_resource: BombResource::new(),
            enemy_resource: EnemyResource::new(),
            registry,
            movement_input_map: bundle.movement_input_map,
            slot_input_map: bundle.slot_input_map,
            ability_slot_map: bundle.ability_slot_map,
            prev_slot_pressed: bundle.prev_slot_pressed,
            evade_timer: None,
        };
        (world, intents)
    }

    /// Advances the simulation by one frame, in the fixed order the
    /// data flow demands: the binding layer reads the raw inputs and
    /// raises this frame's ability events; the resolvers spend
    /// resources and spawn projectiles; every entity moves; the
    /// boundary wrapper wraps ships and reaps off-screen projectiles;
    /// the collision passes match bullets, then bombs, against
    /// enemies; the evasion timer advances; and the pressed-set
    /// bookkeeping is stored for the next frame's edge detection.
    /// Returns the frame's intents in the order they arose.
    #[verifier::rlimit(100)]
    pub fn step(&mut self, down: &Vec<RawInput>, dt: u32) -> (intents: Vec<Intent>)
        requires
            old(self).wf(),
            dt <= DT_LIMIT,
            old(self).registry.next_id + 2 <= u64::MAX,
        ensures
            final(self).wf(),
            final(self).window == old(self).window,
            final(self).bullet_resource == old(self).bullet_resource,
            final(self).bomb_resource == old(self).bomb_resource,
            final(self).enemy_resource == old(self).enemy_resource,
            final(self).movement_input_map == old(self).movement_input_map,
            final(self).slot_input_map == old(self).slot_input_map,
            final(self).ability_slot_map == old(self).ability_slot_map,
            final(self).player_resource.movement_speed == old(
                self,
            ).player_resource.movement_speed,
            final(self).player_resource.health == old(self).player_resource.health,
            final(self).player_resource.bombs == bomb_fire_spec(
                frame_edge(*old(self), down@, Ability::Bomb),
                old(self).player_resource.bombs,
            ),
            final(self).player_resource.evades == if evade_activates(*old(self), down@) {
                (old(self).player_resource.evades - 1) as u32
            } else {
                old(self).player_resource.evades
            },
            final(self).evade_timer == evade_tick_spec(
                timer_after_ability(*old(self), down@),
                dt,
            ),
            final(self).prev_slot_pressed@ == pressed_after(old(self).slot_input_map@, down@),
            frame_edge(*old(self), down@, Ability::ShootBullet) ==> intents@.len() >= 2
                && intents@[0] == (Intent::PlaySound { asset: AssetId::BulletSfx })
                && intents@[1] == (Intent::SpawnVisual {
                entity: old(self).registry.next_id,
                asset: AssetId::BulletTile,
                pos: bullet::spawn_pos_spec(old(self).registry.player.pos),
            }),
            frame_edge(*old(self), down@, Ability::Bomb) && old(self).player_resource.bombs > 0
                ==> ({
                let base: int = if frame_edge(*old(self), down@, Ability::ShootBullet) {
                    2int
                } else {
                    0int
                };
                let spawn_id: u64 = if frame_edge(*old(self), down@, Ability::ShootBullet) {
                    (old(self).registry.next_id + 1) as u64
                } else {
                    old(self).registry.next_id
                };
                intents@.len() >= base + 2 && intents@[base] == (Intent::PlaySound {
                    asset: AssetId::BombSfx,
                }) && intents@[base + 1] == (Intent::SpawnVisual {
                    entity: spawn_id,
                    asset: AssetId::BombTile,
                    pos: bullet::spawn_pos_spec(old(self).registry.player.pos),
                })
            }),
            forall|i: int, j: int|
                0 <= i < final(self).registry.enemies@.len() && 0 <= j
                    < final(self).registry.bullets@.len() ==> !geom::hits_spec(
                    (#[trigger] final(self).registry.enemies@[i]).pos,
                    (#[trigger] final(self).registry.bullets@[j]).pos,
                    old(self).bullet_resource.radius as int,
                ),
            forall|i: int, j: int|
                0 <= i < final(self).registry.enemies@.len() && 0 <= j
                    < final(self).registry.bombs@.len() ==> !geom::hits_spec(
                    (#[trigger] final(self).registry.enemies@[i]).pos,
                    (#[trigger] final(self).registry.bombs@[j]).pos,
                    old(self).bomb_resource.radius as int,
                ),
            final(self).registry.player.id == old(self).registry.player.id,
            final(self).registry.player.pos.y == old(self).registry.player.pos.y,
            final(self).registry.player.pos.x == geom::wrap_spec(
                old(self).registry.player.pos.x + velocity_spec(
                    input::movement_pressed_spec(
                        old(self).movement_input_map@,
                        down@,
                        Movement::Left,
                    ),
                    input::movement_pressed_spec(
                        old(self).movement_input_map@,
                        down@,
                        Movement::Right,
                    ),
                    old(self).player_resource.movement_speed as int,
                ) * dt,
                old(self).window.half_width as int,
            ),
    {
        let ghost w0 = *old(self);
        let mut intents: Vec<Intent> = Vec::new();
        proof {
            assert(0 <= (w0.player_resource.movement_speed as int) * (dt as int) <= (
            crate::geom::SPEED_LIMIT as int) * (DT_LIMIT as int) && 0 <= (
            w0.enemy_resource.speed as int) * (dt as int) <= (crate::geom::SPEED_LIMIT as int) * (
            DT_LIMIT as int) && 0 <= (w0.bullet_resource.speed as int) * (dt as int) <= (
            crate::geom::SPEED_LIMIT as int) * (DT_LIMIT as int) && 0 <= (
            w0.bomb_resource.speed as int) * (dt as int) <= (crate::geom::SPEED_LIMIT as int) * (
            DT_LIMIT as int)) by (nonlinear_arith)
                requires
                    0 <= w0.player_resource.movement_speed <= crate::geom::SPEED_LIMIT,
                    0 <= w0.enemy_resource.speed <= crate::geom::SPEED_LIMIT,
                    0 <= w0.bullet_resource.speed <= crate::geom::SPEED_LIMIT,
                    0 <= w0.bomb_resource.speed <= crate::geom::SPEED_LIMIT,
                    0 <= dt <= DT_LIMIT,
            ;
        }

        // Stage one and two of the input binding layer, recomputed
        // from this frame's raw inputs and last frame's pressed-set.
        let slot_st = input::read_slot_states(&self.slot_input_map, down, &self.prev_slot_pressed);
        let ability_st = input::copy_action_state(&self.ability_slot_map, &slot_st);

        // Ability dispatch: at most one event per ability, stamped
        // with the player's position before any movement.
        let events = player::handle_abilities(&ability_st, self.registry.player.pos);
        proof {
            assert(events.shoot_bullet is Some <==> frame_edge(w0, down@, Ability::ShootBullet));
            assert(events.shoot_bomb is Some <==> frame_edge(w0, down@, Ability::Bomb));
            assert(events.evade is Some <==> frame_edge(w0, down@, Ability::Evade));
        }

        // Resolvers: spend resources, spawn projectiles.
        match &events.shoot_bullet {
            Some(ev) => {
                bullet::handle_shoot(&mut self.registry, ev, &mut intents);
            },
            None => {},
        }
        match &events.shoot_bomb {
            Some(ev) => {
                bomb::handle_shoot(
                    &mut self.registry,
                    &mut self.player_resource,
                    ev,
                    &mut intents,
                );
            },
            None => {},
        }
        match &events.evade {
            Some(_) => {
                evade::start_player_evasion(
                    &mut self.player_resource,
                    &mut self.evade_timer,
                    self.registry.player.id,
                    &mut intents,
                );
            },
            None => {},
        }
        proof {
            assert(self.registry.wf());
            assert(self.evade_timer == timer_after_ability(w0, down@));
            assert(positions_within(self.registry.enemies@, POS_LIMIT as int));
            assert(positions_within(self.registry.bullets@, POS_LIMIT as int));
            assert(positions_within(self.registry.bombs@, POS_LIMIT as int));
        }
        let ghost r_spawn = self.registry;

        // Movement: the player by the held direction, enemies
        // leftward, projectiles upward.
        let moved = player::handle_movement(
            self.registry.player.pos,
            &self.movement_input_map,
            down,
            self.player_resource.movement_speed,
            dt,
        );
        proof {
            assert((-(w0.player_resource.movement_speed as int)) * (dt as int) == -((
            w0.player_resource.movement_speed as int) * (dt as int))) by (nonlinear_arith);
            assert(0 * (dt as int) == 0);
        }
        let player_id = self.registry.player.id;
        self.registry.player = Entity { id: player_id, pos: moved };
        enemy::move_horizontal(&mut self.registry.enemies, &self.enemy_resource, dt);
        bullet::move_bullet(&mut self.registry.bullets, &self.bullet_resource, dt);
        bomb::move_bomb(&mut self.registry.bombs, &self.bomb_resource, dt);

        // Boundary wrap for ships, reap for projectiles.
        player::wrap_player_around_window(&mut self.registry.player, self.window.half_width);
        enemy::wrap_enemy_around_window(&mut self.registry.enemies, self.window.half_width);
        proof {
            assert(registry::same_ids(r_spawn.enemies@, self.registry.enemies@));
            assert(registry::same_ids(r_spawn.bullets@, self.registry.bullets@));
            assert(registry::same_ids(r_spawn.bombs@, self.registry.bombs@));
            registry::lemma_wf_same_ids(r_spawn, self.registry);
            assert(entities_in_window(self.registry.enemies@, self.window.half_width as int));
            assert(positions_within(self.registry.bullets@, POS_LIMIT as int));
            assert(positions_within(self.registry.bombs@, POS_LIMIT as int));
            assert forall|i: int|
                0 <= i < self.registry.bullets@.len() implies -self.window.half_width
                <= #[trigger] self.registry.bullets@[i].pos.x <= self.window.half_width
                && -WINDOW_LIMIT <= self.registry.bullets@[i].pos.y by {}
            assert forall|i: int|
                0 <= i < self.registry.bombs@.len() implies -self.window.half_width
                <= #[trigger] self.registry.bombs@[i].pos.x <= self.window.half_width
                && -WINDOW_LIMIT <= self.registry.bombs@[i].pos.y by {}
        }
        let ghost r_moved = self.registry;
        bullet::despawn_if_offscreen(
            &mut self.registry.bullets,
            self.window.half_height,
            &mut intents,
        );
        bomb::despawn_if_offscreen(
            &mut self.registry.bombs,
            self.window.half_height,
            &mut intents,
        );
        proof {
            let hw = self.window.half_width as int;
            let hh = self.window.half_height as int;
            let bmask = registry::reap_keep_mask(r_moved.bullets@, hh);
            let mmask = registry::reap_keep_mask(r_moved.bombs@, hh);
            lemma_mask_filter_below(r_moved.bullets@, bmask, r_moved.next_id as int);
            lemma_mask_filter_distinct(r_moved.bullets@, bmask);
            lemma_mask_filter_excludes(r_moved.bullets@, bmask, r_moved.player.id as int);
            lemma_mask_filter_disjoint(r_moved.bullets@, bmask, r_moved.enemies@);
            lemma_mask_filter_disjoint(r_moved.bullets@, bmask, r_moved.bombs@);
            lemma_mask_filter_below(r_moved.bombs@, mmask, r_moved.next_id as int);
            lemma_mask_filter_distinct(r_moved.bombs@, mmask);
            lemma_mask_filter_excludes(r_moved.bombs@, mmask, r_moved.player.id as int);
            lemma_mask_filter_disjoint(r_moved.bombs@, mmask, r_moved.enemies@);
            lemma_mask_filter_disjoint(r_moved.bombs@, mmask, self.registry.bullets@);
            assert(self.registry.wf());
            lemma_reap_keeps_below(r_moved.bullets@, hh);
            lemma_reap_keeps_below(r_moved.bombs@, hh);
            lemma_mask_filter_sub(r_moved.bullets@, bmask);
            lemma_mask_filter_sub(r_moved.bombs@, mmask);
            assert forall|i: int|
                0 <= i < self.registry.bullets@.len() implies -hw
                <= #[trigger] self.registry.bullets@[i].pos.x <= hw && -WINDOW_LIMIT
                <= self.registry.bullets@[i].pos.y <= hh by {
                let j = choose|j: int|
                    0 <= j < r_moved.bullets@.len() && r_moved.bullets@[j]
                        == self.registry.bullets@[i];
                assert(-hw <= r_moved.bullets@[j].pos.x <= hw);
            }
            assert forall|i: int|
                0 <= i < self.registry.bombs@.len() implies -hw
                <= #[trigger] self.registry.bombs@[i].pos.x <= hw && -WINDOW_LIMIT
                <= self.registry.bombs@[i].pos.y <= hh by {
                let j = choose|j: int|
                    0 <= j < r_moved.bombs@.len() && r_moved.bombs@[j]
                        == self.registry.bombs@[i];
                assert(-hw <= r_moved.bombs@[j].pos.x <= hw);
            }
            assert(projectiles_in_flight(self.registry.bullets@, hw, hh));
            assert(projectiles_in_flight(self.registry.bombs@, hw, hh));
            assert(positions_within(self.registry.enemies@, POS_LIMIT as int));
            assert(positions_within(self.registry.bullets@, POS_LIMIT as int));
            assert(positions_within(self.registry.bombs@, POS_LIMIT as int));
        }

        // Collision resolution: bullets against enemies, then bombs.
        let ghost r_reaped = self.registry;
        let out_bullets = enemy::check_bullet_collision(
            &mut self.registry,
            &self.bullet_resource,
            &mut intents,
        );
        let ghost r_bullets = self.registry;
        let out_bombs = enemy::check_bomb_collision(
            &mut self.registry,
            &self.bomb_resource,
            &mut intents,
        );
        proof {
            let hw = self.window.half_width as int;
            let hh = self.window.half_height as int;
            lemma_filter_window(r_reaped.enemies@, out_bullets.enemy_alive@, hw);
            lemma_filter_flight(r_reaped.bullets@, out_bullets.projectile_alive@, hw, hh);
            lemma_filter_window(r_bullets.enemies@, out_bombs.enemy_alive@, hw);
            lemma_filter_flight(r_bullets.bombs@, out_bombs.projectile_alive@, hw, hh);
            assert(entities_in_window(self.registry.enemies@, hw));
            assert(projectiles_in_flight(self.registry.bullets@, hw, hh));
            assert(projectiles_in_flight(self.registry.bombs@, hw, hh));

            // End-of-frame clearance: a surviving enemy was alive
            // through both passes, so the passes' maximality says no
            // surviving projectile is within its kind's radius.
            registry::lemma_mask_filter_kept(r_bullets.enemies@, out_bombs.enemy_alive@);
            registry::lemma_mask_filter_kept(r_reaped.enemies@, out_bullets.enemy_alive@);
            registry::lemma_mask_filter_kept(r_reaped.bullets@, out_bullets.projectile_alive@);
            registry::lemma_mask_filter_kept(r_bullets.bombs@, out_bombs.projectile_alive@);
            assert forall|i: int, j: int|
                0 <= i < self.registry.enemies@.len() && 0 <= j
                    < self.registry.bullets@.len() implies !geom::hits_spec(
                (#[trigger] self.registry.enemies@[i]).pos,
                (#[trigger] self.registry.bullets@[j]).pos,
                self.bullet_resource.radius as int,
            ) by {
                assert(registry::kept_from(
                    r_bullets.enemies@,
                    out_bombs.enemy_alive@,
                    self.registry.enemies@[i],
                ));
                let i1 = choose|m: int|
                    0 <= m < r_bullets.enemies@.len() && #[trigger] r_bullets.enemies@[m]
                        == self.registry.enemies@[i] && out_bombs.enemy_alive@[m];
                assert(registry::kept_from(
                    r_reaped.enemies@,
                    out_bullets.enemy_alive@,
                    r_bullets.enemies@[i1],
                ));
                let i0 = choose|m: int|
                    0 <= m < r_reaped.enemies@.len() && #[trigger] r_reaped.enemies@[m]
                        == r_bullets.enemies@[i1] && out_bullets.enemy_alive@[m];
                assert(registry::kept_from(
                    r_reaped.bullets@,
                    out_bullets.projectile_alive@,
                    self.registry.bullets@[j],
                ));
                let j0 = choose|m: int|
                    0 <= m < r_reaped.bullets@.len() && #[trigger] r_reaped.bullets@[m]
                        == self.registry.bullets@[j] && out_bullets.projectile_alive@[m];
                assert(!geom::hits_spec(
                    r_reaped.enemies@[i0].pos,
                    r_reaped.bullets@[j0].pos,
                    self.bullet_resource.radius as int,
                ));
            }
            assert forall|i: int, j: int|
                0 <= i < self.registry.enemies@.len() && 0 <= j
                    < self.registry.bombs@.len() implies !geom::hits_spec(
                (#[trigger] self.registry.enemies@[i]).pos,
                (#[trigger] self.registry.bombs@[j]).pos,
                self.bomb_resource.radius as int,
            ) by {
                assert(registry::kept_from(
                    r_bullets.enemies@,
                    out_bombs.enemy_alive@,
                    self.registry.enemies@[i],
                ));
                let i1 = choose|m: int|
                    0 <= m < r_bullets.enemies@.len() && #[trigger] r_bullets.enemies@[m]
                        == self.registry.enemies@[i] && out_bombs.enemy_alive@[m];
                assert(registry::kept_from(
                    r_bullets.bombs@,
                    out_bombs.projectile_alive@,
                    self.registry.bombs@[j],
                ));
                let j1 = choose|m: int|
                    0 <= m < r_bullets.bombs@.len() && #[trigger] r_bullets.bombs@[m]
                        == self.registry.bombs@[j] && out_bombs.projectile_alive@[m];
                assert(!geom::hits_spec(
                    r_bullets.enemies@[i1].pos,
                    r_bullets.bombs@[j1].pos,
                    self.bomb_resource.radius as int,
                ));
            }
        }

        // Status timer: advance the evasion effect, reverting exactly
        // on the frame its duration is crossed.
        evade::handle_evasion(&mut self.evade_timer, dt, player_id, &mut intents);

        // Bookkeeping: remember which slots were pressed this frame.
        let mut new_prev: Vec<bool> = Vec::new();
        let mut i: usize = 0;
        while i < SLOT_COUNT
            invariant
                i <= SLOT_COUNT,
                slot_st@ == slot_states_spec(w0.slot_input_map@, down@, w0.prev_slot_pressed@),
                slot_st@.len() == SLOT_COUNT,
                new_prev@.len() == i,
                forall|k: int| 0 <= k < i ==> new_prev@[k] == slot_st@[k].pressed,
            decreases SLOT_COUNT - i,
        {
            new_prev.push(slot_st[i].pressed);
            i = i + 1;
        }
        self.prev_slot_pressed = new_prev;
        proof {
            assert(self.prev_slot_pressed@ =~= pressed_after(w0.slot_input_map@, down@));
        }
        intents
    }
}

} // verus!
