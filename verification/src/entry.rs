//! What one entity carries of the decay components, and how the lifecycle
//! moves it.

use crate::range::{DecayDuration, DurationRange};
use crate::timer::{DecayTimer, TimerState};
use bevy::ecs::entity::Entity;
use vstd::prelude::*;

verus! {

/// Marks an entity that is meant to decay.
#[derive(Clone, Copy, Debug, PartialEq, Eq)]
pub struct Decay;

/// The decay components of one entity: the marker, where it is attached, the
/// range that its decay time is drawn from, and the countdown, once one was
/// started.
///
/// The view of a `DecayEntry` is its [`EntryState`].
#[derive(Clone, Copy, Debug, PartialEq, Eq)]
pub struct DecayEntry {
    /// The entity that carries the components.
    pub entity: Entity,
    /// The marker, while the entity is meant to decay.
    pub decay: Option<Decay>,
    /// The range that the decay time is drawn from.
    pub duration: DecayDuration,
    /// The countdown, from the first attachment of the marker until the
    /// entity has decayed.
    pub timer: Option<DecayTimer>,
}

/// What a [`DecayEntry`] holds, with its range and countdown by their views.
pub struct EntryState {
    /// The entity that carries the components.
    pub entity: Entity,
    /// Whether the marker is attached.
    pub marked: bool,
    /// The range that the decay time is drawn from.
    pub range: DurationRange,
    /// The countdown, where there is one.
    pub timer: Option<TimerState>,
}

impl View for DecayEntry {
    type V = EntryState;

    open spec fn view(&self) -> EntryState {
        EntryState {
            entity: self.entity,
            marked: self.decay is Some,
            range: self.duration@,
            timer: match self.timer {
                Some(timer) => Some(timer@),
                None => None,
            },
        }
    }
}

impl EntryState {
    /// The entity without marker and countdown.
    pub open spec fn stripped(self) -> EntryState {
        EntryState { marked: false, timer: None, ..self }
    }

    /// The entity after the marker was attached to it, where `resolved` is
    /// the decay time that its range gave. An entity with the zero range
    /// loses marker and countdown at once; a countdown that is there runs
    /// again from where it stood; else a countdown of `resolved` begins.
    pub open spec fn started(self, resolved: nat) -> EntryState {
        if self.range.is_zero() {
            self.stripped()
        } else {
            match self.timer {
                Some(timer) => EntryState { timer: Some(timer.unpause()), ..self },
                None => EntryState { timer: Some(TimerState::started(resolved)), ..self },
            }
        }
    }

    /// The time that is announced when the marker is attached: none for the
    /// zero range, what remains of a countdown that is there, and else
    /// `resolved`, the decay time that the range gave.
    pub open spec fn start_announces(self, resolved: nat) -> Option<nat> {
        if self.range.is_zero() {
            None
        } else {
            match self.timer {
                Some(timer) => Some(timer.remaining()),
                None => Some(resolved),
            }
        }
    }

    /// The entity after the removal of its marker was observed: a countdown
    /// that is there stands still.
    pub open spec fn paused(self) -> EntryState {
        match self.timer {
            Some(timer) => EntryState { timer: Some(timer.pause()), ..self },
            None => self,
        }
    }

    /// The time that is announced when the removal of the marker is
    /// observed: what remains of the countdown, where there is one.
    pub open spec fn pause_announces(self) -> Option<nat> {
        match self.timer {
            Some(timer) => Some(timer.remaining()),
            None => None,
        }
    }

    /// The sweep takes part in this entity: it carries both the marker and a
    /// countdown.
    pub open spec fn active(self) -> bool {
        self.marked && self.timer is Some
    }

    /// The entity decays in a sweep over `delta` nanoseconds: the sweep
    /// takes part in it, and its countdown is over once `delta` has passed.
    pub open spec fn completes(self, delta: nat) -> bool {
        self.active() && self.timer->0.tick(delta).finished()
    }

    /// The entity after a sweep over `delta` nanoseconds. Its countdown has
    /// moved on by `delta` if it carries marker and countdown, and both are
    /// gone if the countdown is over by then.
    pub open spec fn swept(self, delta: nat) -> EntryState {
        if !self.active() {
            self
        } else if self.completes(delta) {
            self.stripped()
        } else {
            EntryState { timer: Some(self.timer->0.tick(delta)), ..self }
        }
    }
}

} // verus!
