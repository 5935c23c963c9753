//! Controller for a single always-on-top overlay window toggled by a global
//! hotkey: a debounced single-flight toggle coordinator, the platform calls
//! that keep the window above everything else, and its placement on screen.

use vstd::prelude::*;

/// Where the window goes on the screen.
pub mod placement;
/// The debounced toggle state machine and its laws.
pub mod toggle;
/// The overlay properties, the calls that enforce them, and their laws.
pub mod overlay;
/// What loading the note yields.
pub mod notes;

verus! {

} // verus!
