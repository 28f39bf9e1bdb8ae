//! Core of a multi-monitor screenshot hotkey utility.
//!
//! The library holds the decision logic of the capture pipeline: classifying
//! global input events against the designated capture key, keeping the target
//! directory ready, building collision-free and filesystem-safe filenames,
//! and aggregating per-display capture outcomes. The operating-system
//! collaborators (the global input hook, display enumeration, frame grabbing
//! and file writes) stay outside and hand the library plain values.

pub mod clock;
pub mod filename;
pub mod guard;
pub mod hotkey;
pub mod orchestrator;
pub mod resolve;
