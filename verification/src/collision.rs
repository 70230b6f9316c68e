//! Collision-side vocabulary: physics layers, the narrow-phase passthrough
//! filter, and the classification of contact events.
//!
//! The passthrough filter runs before the physics narrow phase and decides
//! whether two colliding shapes may interact at all; the resolver (see the
//! world module) consumes the contact events that survive it.

use vstd::prelude::*;

verus! {

/// Physics collision layers, one bit each, in declaration order.
#[derive(Clone, Copy, Debug, Default)]
pub enum GameLayer {
    #[default]
    Walls,
    Player,
    FriendlyProj,
    Enemy,
    HostileProj,
    Pickups,
}

/// What the passthrough filter needs to know of one collider: which tags its
/// entity carries.
#[derive(Clone, Copy, Debug, PartialEq, Eq, Structural)]
pub struct ColliderInfo {
    pub is_player: bool,
    pub is_projectile: bool,
    /// A recalled projectile flies back to its owner through everything.
    pub recalled: bool,
    /// A passthrough-immune obstacle suppresses projectile contacts.
    pub passthrough: bool,
}

/// The passthrough rule: if either side is recalled, the pair interacts only
/// if the other side is the player; otherwise, a projectile against a
/// passthrough-immune entity is suppressed; every other pair is left to the
/// physics narrow phase.
pub open spec fn spec_filter_pairs(c1: ColliderInfo, c2: ColliderInfo) -> bool {
    if (c1.recalled && !c2.is_player) || (c2.recalled && !c1.is_player) {
        false
    } else if c1.is_projectile == c2.is_projectile {
        true
    } else {
        let other = if c1.is_projectile { c2 } else { c1 };
        !other.passthrough
    }
}

/// Decide whether a colliding pair may interact (invoked by the physics
/// substrate before it generates a contact event).
pub fn filter_pairs(c1: &ColliderInfo, c2: &ColliderInfo) -> (allow: bool)
    ensures
        allow == spec_filter_pairs(*c1, *c2),
{
    if c1.recalled || c2.recalled {
        if c1.recalled && !c2.is_player {
            return false;
        }
        if c2.recalled && !c1.is_player {
            return false;
        }
    }
    if c1.is_projectile == c2.is_projectile {
        return true;
    }
    let other_passthrough = if c1.is_projectile { c2.passthrough } else { c1.passthrough };
    !other_passthrough
}

/// One side of a contact event, classified from its entity's component set:
/// the player, an attacker or a projectile (by index into the world's
/// lists), or anything else.
#[derive(Clone, Copy, Debug, PartialEq, Eq, Structural)]
pub enum Role {
    Player,
    Enemy(usize),
    Projectile(usize),
    Other,
}

/// A contact-start event reported by the physics substrate, both sides
/// already classified.
#[derive(Clone, Copy, Debug, PartialEq, Eq, Structural)]
pub struct Contact {
    pub first: Role,
    pub second: Role,
}

/// An abstract cue the resolver emits; the caller maps it to sound and
/// visual effects.
#[derive(Clone, Copy, Debug, PartialEq, Eq, Structural)]
pub enum Cue {
    PlayerHit,
    EnemyHit,
    Ricochet,
}

} // verus!
