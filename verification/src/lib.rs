//! Timed decay of entities.
//!
//! An entity that carries the [`Decay`] marker counts down a [`DecayTimer`]
//! whose length is drawn from the entity's [`DecayDuration`]. Attaching the
//! marker starts or resumes the countdown, detaching it pauses the
//! countdown, and the per-frame sweep [`decaying`] advances every running
//! countdown and announces the entities that ran out in one
//! [`DecayCompleted`] batch.
//!
//! The library holds the rules and leaves the scheduling to its host: the
//! host keeps the components of each entity in a [`DecayEntry`], calls
//! [`handle_decay_start`] and [`handle_decay_pause`] when the marker comes
//! and goes, calls [`decaying`] once per frame, and delivers what they
//! announce.

pub mod duration;
pub mod entry;
pub mod events;
pub mod prelude;
pub mod range;
pub mod systems;
pub mod timer;

pub use duration::Duration;
pub use entry::{Decay, DecayEntry};
pub use events::{DecayCompleted, DecayPaused, DecayStarted};
pub use range::DecayDuration;
pub use systems::{decaying, handle_decay_pause, handle_decay_start};
pub use timer::DecayTimer;
