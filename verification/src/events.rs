//! The notifications that the decay lifecycle emits.

use crate::duration::Duration;
use bevy::ecs::entity::Entity;
use vstd::prelude::*;

verus! {

/// `bevy::ecs::entity::Entity`, the identity of an entity. The library hands
/// such a value on as it received it and never looks inside.
#[verifier::external_type_specification]
#[verifier::external_body]
pub struct ExEntity(bevy::ecs::entity::Entity);

/// Decay began, or began again, for `entity`.
#[derive(Clone, Copy, Debug, PartialEq, Eq)]
pub struct DecayStarted {
    /// The entity that has started decaying.
    pub entity: Entity,
    /// The time the entity has left at the moment of the notification.
    pub duration: Duration,
}

/// Decay was halted for `entity`; the time already elapsed is kept.
#[derive(Clone, Copy, Debug, PartialEq, Eq)]
pub struct DecayPaused {
    /// The entity whose decay was paused.
    pub entity: Entity,
    /// The time the entity had left when it was paused.
    pub remaining_duration: Duration,
}

/// The entities that finished decaying in one sweep, in the order in which
/// the sweep met them.
#[derive(Debug, PartialEq, Eq)]
pub struct DecayCompleted(pub Vec<Entity>);

} // verus!
