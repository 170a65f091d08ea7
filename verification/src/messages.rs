//! Kinds of collisions reported between entities.

use vstd::prelude::*;

verus! {

/// What a collision does.
#[derive(Debug, Clone, Copy, PartialEq, Eq, Structural)]
pub enum CollisionKind {
    DamagePlayer,
}

} // verus!
