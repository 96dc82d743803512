//! The names that a host of the library needs.

pub use crate::duration::Duration;
pub use crate::entry::{Decay, DecayEntry};
pub use crate::events::{DecayCompleted, DecayPaused, DecayStarted};
pub use crate::range::DecayDuration;
pub use crate::systems::{decaying, handle_decay_pause, handle_decay_start};
pub use crate::timer::DecayTimer;
