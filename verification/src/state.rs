//! The recording cycle's state and the output mode of one recording.
use vstd::prelude::*;

verus! {

/// Where the recording cycle stands.
#[derive(Clone, Copy, Debug, PartialEq, Eq, Structural)]
pub enum AppState {
    Idle,
    Recording,
    Processing,
}

/// What one recording's text becomes: cleaned up in its own language, or
/// translated. Fixed by the hotkey that started the recording.
#[derive(Clone, Copy, Debug, PartialEq, Eq, Structural)]
pub enum OutputMode {
    Direct,
    Translate,
}

} // verus!
