//! Decisions about the avatars of remote players: which character prefab a
//! player gets, when a stuck avatar is respawned or gets its collider, and
//! how the carried-item visual follows what the player holds. Times are
//! elapsed milliseconds measured by the caller.

use vstd::prelude::*;

verus! {

/// An avatar that is still not ready this long after spawning is respawned.
pub const UMA_RETRY_TIMEOUT_MS: u64 = 15000;

/// A ready avatar gets its collider this long after it became ready.
pub const COLLIDER_DELAY_MS: u64 = 3000;

/// The prefab index of a player: the Steam identifier modulo the number of
/// prefabs the game reports (taken as 1 when unknown or 0).
pub open spec fn spec_prefab_index(steam_id: u64, prefab_count: Option<u32>) -> u32 {
    let n: u32 = match prefab_count {
        Some(c) => if c == 0 { 1 } else { c },
        None => 1,
    };
    (steam_id % (n as u64)) as u32
}

/// The prefab a player's avatar is spawned from.
pub fn prefab_index(steam_id: u64, prefab_count: Option<u32>) -> (i: u32)
    ensures
        i == spec_prefab_index(steam_id, prefab_count),
        i < match prefab_count {
            Some(c) => if c == 0 { 1 } else { c },
            None => 1,
        },
{
    let n: u32 = match prefab_count {
        Some(c) => if c == 0 { 1 } else { c },
        None => 1,
    };
    let r = steam_id % (n as u64);
    (r as u32)
}

/// What a frame of the avatar lifecycle asks for.
#[derive(Clone, Copy, Debug, PartialEq, Eq, Structural)]
pub enum LifecycleKind {
    Nothing,
    /// The avatar never became ready: destroy it and spawn it again.
    UmaRetry,
    /// The avatar is ready, settled and away from the spawn point: give it
    /// a collider.
    AddCollider,
}

/// One avatar's lifecycle step. `since_spawn_ms` is the time since it was
/// spawned, `since_ready_ms` the time since it was first seen ready (when it
/// was), `far_from_spawn` whether it stands outside the spawn area.
pub open spec fn spec_lifecycle(
    is_ready: bool,
    since_spawn_ms: Option<u64>,
    since_ready_ms: Option<u64>,
    collider_added: bool,
    far_from_spawn: bool,
) -> LifecycleKind {
    if !is_ready {
        match since_spawn_ms {
            Some(t) => if t > UMA_RETRY_TIMEOUT_MS { LifecycleKind::UmaRetry } else { LifecycleKind::Nothing },
            None => LifecycleKind::Nothing,
        }
    } else if collider_added {
        LifecycleKind::Nothing
    } else {
        match since_ready_ms {
            Some(t) => if t > COLLIDER_DELAY_MS && far_from_spawn {
                LifecycleKind::AddCollider
            } else {
                LifecycleKind::Nothing
            },
            None => LifecycleKind::Nothing,
        }
    }
}

/// Decides one avatar's lifecycle step (see [`spec_lifecycle`]).
pub fn lifecycle_step(
    is_ready: bool,
    since_spawn_ms: Option<u64>,
    since_ready_ms: Option<u64>,
    collider_added: bool,
    far_from_spawn: bool,
) -> (k: LifecycleKind)
    ensures
        k == spec_lifecycle(is_ready, since_spawn_ms, since_ready_ms, collider_added, far_from_spawn),
{
    if !is_ready {
        match since_spawn_ms {
            Some(t) => if t > UMA_RETRY_TIMEOUT_MS {
                LifecycleKind::UmaRetry
            } else {
                LifecycleKind::Nothing
            },
            None => LifecycleKind::Nothing,
        }
    } else if collider_added {
        LifecycleKind::Nothing
    } else {
        match since_ready_ms {
            Some(t) => if t > COLLIDER_DELAY_MS && far_from_spawn {
                LifecycleKind::AddCollider
            } else {
                LifecycleKind::Nothing
            },
            None => LifecycleKind::Nothing,
        }
    }
}

/// How the carried-item visual of an avatar changes this frame.
#[derive(Clone, Copy, Debug, PartialEq, Eq, Structural)]
pub struct CarryVisualUpdate {
    /// The item type now shown (what the avatar should be recorded with).
    pub applied: u8,
    /// Remove the visual of the previous item.
    pub destroy_old: bool,
    /// Show a visual for this item type.
    pub create: Option<u8>,
}

/// The item in hand went from `last_applied` to `in_hand`: when they differ,
/// the old visual (if there was an item) is removed and one for the new item
/// (if any) is created; otherwise nothing changes. Type 0 is "no item".
pub fn carry_visual_update(last_applied: u8, in_hand: u8) -> (u: CarryVisualUpdate)
    ensures
        u.applied == in_hand,
        u.destroy_old == (last_applied != in_hand && last_applied != 0),
        u.create == if last_applied != in_hand && in_hand != 0 { Some(in_hand) } else { None::<u8> },
{
    if last_applied == in_hand {
        return CarryVisualUpdate { applied: in_hand, destroy_old: false, create: None };
    }
    CarryVisualUpdate {
        applied: in_hand,
        destroy_old: last_applied != 0,
        create: if in_hand != 0 { Some(in_hand) } else { None },
    }
}

} // verus!
