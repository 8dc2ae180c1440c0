//! The evasion status effect: a finite-charge ability that swaps the
//! player's visual state for a fixed duration, then reverts exactly
//! once.

use vstd::prelude::*;
use crate::intent::{AssetId, Intent};
use crate::player::PlayerResource;

verus! {

/// How long one evasion lasts, in milliseconds.
pub const EVADE_DURATION_MS: u64 = 1000;

/// Largest timer duration, in milliseconds.
pub const TIMER_LIMIT: u64 = 0x100_0000_0000;

/// A request to start evading.
#[derive(Clone, Copy, Debug, PartialEq, Eq, Structural)]
pub struct EvadeEvent;

/// The per-player countdown of an active evasion; present only while
/// the effect is on, and removed atomically with the revert.
#[derive(Clone, Copy, Debug, PartialEq, Eq, Structural)]
pub struct EvadeTimer {
    pub elapsed: u64,
    pub duration: u64,
}

/// An active timer has run for less than its duration, and durations
/// stay within the limit.
pub open spec fn timer_wf(t: Option<EvadeTimer>) -> bool {
    t matches Some(x) ==> x.elapsed < x.duration <= TIMER_LIMIT
}

/// Starts an evasion if a charge is in stock and none is already
/// running: spends the charge, attaches a fresh timer, sounds the
/// effect and switches the player's visual state. While one is
/// already running, or with no charge left, it is a no-op. Returns
/// the remaining stock either way.
pub fn start_player_evasion(
    player_resource: &mut PlayerResource,
    timer: &mut Option<EvadeTimer>,
    player_id: u64,
    intents: &mut Vec<Intent>,
) -> (evades_left: u32)
    requires
        timer_wf(*old(timer)),
    ensures
        timer_wf(*final(timer)),
        final(player_resource).movement_speed == old(player_resource).movement_speed,
        final(player_resource).health == old(player_resource).health,
        final(player_resource).bombs == old(player_resource).bombs,
        evades_left == final(player_resource).evades,
        old(player_resource).evades > 0 && (*old(timer)) is None ==> {
            &&& final(player_resource).evades == old(player_resource).evades - 1
            &&& *final(timer) == Some(EvadeTimer { elapsed: 0, duration: EVADE_DURATION_MS })
            &&& final(intents)@ == old(intents)@ + seq![
                Intent::PlaySound { asset: AssetId::EvadeSfx },
                Intent::SetSprite { entity: player_id, asset: AssetId::PlayerShipEvading },
            ]
        },
        !(old(player_resource).evades > 0 && (*old(timer)) is None) ==> {
            &&& final(player_resource).evades == old(player_resource).evades
            &&& *final(timer) == *old(timer)
            &&& final(intents)@ == old(intents)@
        },
{
    let already_evading = timer.is_some();
    if player_resource.evades > 0 && !already_evading {
        player_resource.evades = player_resource.evades - 1;
        *timer = Some(EvadeTimer { elapsed: 0, duration: EVADE_DURATION_MS });
        intents.push(Intent::PlaySound { asset: AssetId::EvadeSfx });
        intents.push(
            Intent::SetSprite { entity: player_id, asset: AssetId::PlayerShipEvading },
        );
        proof {
            assert(intents@ =~= old(intents)@ + seq![
                Intent::PlaySound { asset: AssetId::EvadeSfx },
                Intent::SetSprite { entity: player_id, asset: AssetId::PlayerShipEvading },
            ]);
        }
    }
    player_resource.evades
}

/// The timer state one frame's advance leaves: absent stays absent, a
/// running timer accrues `dt`, and one that reaches its duration is
/// removed.
pub open spec fn evade_tick_spec(t: Option<EvadeTimer>, dt: u32) -> Option<EvadeTimer> {
    match t {
        None => None,
        Some(x) => if x.elapsed + dt >= x.duration {
            None
        } else {
            Some(EvadeTimer { elapsed: (x.elapsed + dt) as u64, duration: x.duration })
        },
    }
}

/// Whether this frame's advance is the one that crosses the duration:
/// the revert fires exactly on that frame.
pub open spec fn evade_reverts(t: Option<EvadeTimer>, dt: u32) -> bool {
    t matches Some(x) && x.elapsed + dt >= x.duration
}

/// Advances the evasion timer by the frame time. A running timer
/// short of its duration re-asserts the evading visual; on the frame
/// the duration is crossed the timer is removed and the normal visual
/// restored, exactly once; an absent timer leaves everything alone.
pub fn handle_evasion(
    timer: &mut Option<EvadeTimer>,
    dt: u32,
    player_id: u64,
    intents: &mut Vec<Intent>,
)
    requires
        timer_wf(*old(timer)),
    ensures
        *final(timer) == evade_tick_spec(*old(timer), dt),
        timer_wf(*final(timer)),
        (*old(timer)) is None ==> final(intents)@ == old(intents)@,
        evade_reverts(*old(timer), dt) ==> final(intents)@ == old(intents)@ + seq![
            Intent::SetSprite { entity: player_id, asset: AssetId::PlayerShip },
        ],
        (*old(timer)) is Some && !evade_reverts(*old(timer), dt) ==> final(intents)@ == old(
            intents,
        )@ + seq![Intent::SetSprite { entity: player_id, asset: AssetId::PlayerShipEvading }],
{
    match *timer {
        None => {},
        Some(x) => {
            let advanced: u64 = x.elapsed + (dt as u64);
            if advanced >= x.duration {
                *timer = None;
                intents.push(
                    Intent::SetSprite { entity: player_id, asset: AssetId::PlayerShip },
                );
                proof {
                    assert(intents@ =~= old(intents)@ + seq![
                        Intent::SetSprite { entity: player_id, asset: AssetId::PlayerShip },
                    ]);
                }
            } else {
                *timer = Some(EvadeTimer { elapsed: advanced, duration: x.duration });
                intents.push(
                    Intent::SetSprite { entity: player_id, asset: AssetId::PlayerShipEvading },
                );
                proof {
                    assert(intents@ =~= old(intents)@ + seq![
                        Intent::SetSprite {
                            entity: player_id,
                            asset: AssetId::PlayerShipEvading,
                        },
                    ]);
                }
            }
        },
    }
}

/// The evasion lifecycle: a running timer short of its duration keeps
/// running without a revert; the frame whose advance reaches the
/// duration removes the timer and is the one frame that reverts; once
/// the timer is gone every later advance leaves it gone and never
/// reverts again.
pub proof fn lemma_evade_lifecycle(t: Option<EvadeTimer>, dt1: u32, dt2: u32)
    requires
        timer_wf(t),
    ensures
        t matches Some(x) ==> (x.elapsed + dt1 < x.duration ==> evade_tick_spec(t, dt1) == Some(
            EvadeTimer { elapsed: (x.elapsed + dt1) as u64, duration: x.duration },
        ) && !evade_reverts(t, dt1)),
        evade_reverts(t, dt1) ==> evade_tick_spec(t, dt1) is None,
        evade_tick_spec(t, dt1) is None ==> evade_tick_spec(evade_tick_spec(t, dt1), dt2) is None
            && !evade_reverts(evade_tick_spec(t, dt1), dt2),
{
}

} // verus!
