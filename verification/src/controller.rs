//! The recording cycle as a state machine: the application feeds it hotkey
//! signals and the ends of its own work, and carries out the actions it
//! returns (start the microphone, stop it and run the pipeline).
use vstd::prelude::*;
use crate::state::{AppState, OutputMode};
use crate::text::owned;

verus! {

/// What happened.
#[derive(Clone, Copy, Debug, PartialEq, Eq, Structural)]
pub enum ControllerEvent {
    /// A hotkey was pressed; the main hotkey gives `Direct`, the
    /// translation hotkey `Translate`.
    Hotkey(OutputMode),
    /// The microphone could not be started.
    StartFailed,
    /// The pipeline has finished (whether it succeeded or not).
    Finished,
}

/// What the application is to do.
#[derive(Clone, Copy, Debug, PartialEq, Eq, Structural)]
pub enum ControllerAction {
    /// Start recording for output in this mode.
    StartRecording(OutputMode),
    /// Stop recording and run the pipeline in this mode.
    StopAndProcess(OutputMode),
    /// Nothing.
    Nothing,
}

/// The recording cycle: `Idle`, then `Recording` after a hotkey, then
/// `Processing` after the next one, then `Idle` again.
#[derive(Clone, Copy, Debug, PartialEq, Eq, Structural)]
pub struct Controller {
    pub state: AppState,
    /// The mode of the current recording: that of the hotkey that started it.
    pub session_mode: OutputMode,
}

impl Controller {
    /// The controller after `e`, and what the application is to do.
    pub open spec fn next(self, e: ControllerEvent) -> (Controller, ControllerAction) {
        match (self.state, e) {
            (AppState::Idle, ControllerEvent::Hotkey(m)) => (
                Controller { state: AppState::Recording, session_mode: m },
                ControllerAction::StartRecording(m),
            ),
            (AppState::Recording, ControllerEvent::Hotkey(_)) => (
                Controller { state: AppState::Processing, ..self },
                ControllerAction::StopAndProcess(self.session_mode),
            ),
            (AppState::Recording, ControllerEvent::StartFailed) => (
                Controller { state: AppState::Idle, ..self },
                ControllerAction::Nothing,
            ),
            (AppState::Processing, ControllerEvent::Finished) => (
                Controller { state: AppState::Idle, ..self },
                ControllerAction::Nothing,
            ),
            _ => (self, ControllerAction::Nothing),
        }
    }

    /// A controller at rest.
    pub fn new() -> (c: Controller)
        ensures
            c.state == AppState::Idle,
            c.session_mode == OutputMode::Direct,
    {
        Controller { state: AppState::Idle, session_mode: OutputMode::Direct }
    }

    /// Advances the cycle by `e`.
    pub fn handle(&mut self, e: ControllerEvent) -> (a: ControllerAction)
        ensures
            (*final(self), a) == old(self).next(e),
            old(self).state == AppState::Processing && e is Hotkey ==> a == ControllerAction::Nothing
                && *final(self) == *old(self),
            old(self).state == AppState::Recording && e is Hotkey ==> a
                == ControllerAction::StopAndProcess(old(self).session_mode) && final(self).state
                == AppState::Processing && final(self).session_mode == old(self).session_mode,
            match e {
                ControllerEvent::Hotkey(m) => old(self).state == AppState::Idle ==> a
                    == ControllerAction::StartRecording(m) && final(self).state == AppState::Recording
                    && final(self).session_mode == m,
                _ => true,
            },
            a is StopAndProcess ==> old(self).state == AppState::Recording,
    {
        match (self.state, e) {
            (AppState::Idle, ControllerEvent::Hotkey(m)) => {
                self.state = AppState::Recording;
                self.session_mode = m;
                ControllerAction::StartRecording(m)
            },
            (AppState::Recording, ControllerEvent::Hotkey(_)) => {
                self.state = AppState::Processing;
                ControllerAction::StopAndProcess(self.session_mode)
            },
            (AppState::Recording, ControllerEvent::StartFailed) => {
                self.state = AppState::Idle;
                ControllerAction::Nothing
            },
            (AppState::Processing, ControllerEvent::Finished) => {
                self.state = AppState::Idle;
                ControllerAction::Nothing
            },
            _ => ControllerAction::Nothing,
        }
    }
}

/// The mode of a recording is that of the hotkey that started it: whichever
/// hotkey stops it, the pipeline runs in the starting mode.
pub proof fn law_mode_fixed_by_starting_key(c: Controller, start: OutputMode, stop: OutputMode)
    requires
        c.state == AppState::Idle,
    ensures
        c.next(ControllerEvent::Hotkey(start)).1 == ControllerAction::StartRecording(start),
        c.next(ControllerEvent::Hotkey(start)).0.next(ControllerEvent::Hotkey(stop)).1
            == ControllerAction::StopAndProcess(start),
{
}

/// Hotkeys are ignored while the pipeline runs.
pub proof fn law_processing_ignores_hotkeys(c: Controller, m: OutputMode)
    requires
        c.state == AppState::Processing,
    ensures
        c.next(ControllerEvent::Hotkey(m)) == (c, ControllerAction::Nothing),
{
}

/// One full cycle (start, stop, finish) brings the controller back to rest,
/// and a failed start brings it back at once.
pub proof fn law_cycle_returns_to_idle(c: Controller, start: OutputMode, stop: OutputMode)
    requires
        c.state == AppState::Idle,
    ensures
        c.next(ControllerEvent::Hotkey(start)).0.next(ControllerEvent::Hotkey(stop)).0.next(
            ControllerEvent::Finished,
        ).0.state == AppState::Idle,
        c.next(ControllerEvent::Hotkey(start)).0.next(ControllerEvent::StartFailed).0.state
            == AppState::Idle,
{
}

/// A recording is only ever stopped once: a stop is only asked for from
/// `Recording`, and leaves `Processing`, where no further stop is asked for
/// until the cycle is back at rest and a new recording has started.
pub proof fn law_single_stop(c: Controller, e: ControllerEvent)
    ensures
        c.next(e).1 matches ControllerAction::StopAndProcess(_) ==> c.state == AppState::Recording
            && c.next(e).0.state == AppState::Processing,
        c.next(e).1 matches ControllerAction::StartRecording(_) ==> c.state == AppState::Idle
            && c.next(e).0.state == AppState::Recording,
{
}

/// The microphone overlay: shown only while recording, in the translation
/// colours for a translating recording.
#[derive(Clone, Copy, Debug, PartialEq, Eq, Structural)]
pub enum OverlayView {
    Hidden,
    Shown { translate: bool },
}

pub open spec fn spec_overlay_for(state: AppState, mode: OutputMode) -> OverlayView {
    match state {
        AppState::Recording => OverlayView::Shown { translate: mode == OutputMode::Translate },
        _ => OverlayView::Hidden,
    }
}

/// The overlay for a state of the cycle.
pub fn overlay_for(state: AppState, mode: OutputMode) -> (v: OverlayView)
    ensures
        v == spec_overlay_for(state, mode),
{
    match state {
        AppState::Recording => OverlayView::Shown { translate: mode == OutputMode::Translate },
        _ => OverlayView::Hidden,
    }
}

pub open spec fn spec_tray_tooltip(state: AppState) -> Seq<char> {
    match state {
        AppState::Idle => "語音免打字（閒置）"@,
        AppState::Recording => "🔴 錄音中…再按熱鍵停止"@,
        AppState::Processing => "⏳ 處理中…"@,
    }
}

/// The tray icon's tooltip for a state of the cycle.
pub fn tray_tooltip(state: AppState) -> (r: String)
    ensures
        r@ == spec_tray_tooltip(state),
{
    match state {
        AppState::Idle => owned("語音免打字（閒置）"),
        AppState::Recording => owned("🔴 錄音中…再按熱鍵停止"),
        AppState::Processing => owned("⏳ 處理中…"),
    }
}

/// The tray icon's tooltip while an error is shown.
pub fn error_tooltip(msg: &str) -> (r: String)
    ensures
        r@ == "⚠ "@ + msg@,
{
    let mut t = owned("⚠ ");
    t.append(msg);
    t
}

} // verus!
