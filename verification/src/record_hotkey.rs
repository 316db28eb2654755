//! The screen recording shortcuts: the configurable toggle key and Escape,
//! which stops a recording and is only held while one runs.
use vstd::prelude::*;

verus! {

/// States of a recording session.
#[derive(Clone, Copy, Debug, PartialEq, Eq, Structural)]
pub enum RecordState {
    Idle,
    Starting,
    Recording,
    Paused,
    Stopping,
}

/// What the toggle shortcut does.
#[derive(Clone, Copy, Debug, PartialEq, Eq, Structural)]
pub enum ToggleAction {
    /// Show the recording window to choose what to record.
    ShowRecordWindow,
    Pause,
    Resume,
    /// A stop is under way: nothing.
    Ignore,
}

/// The toggle shortcut's action in each state.
pub open spec fn toggle_spec(s: RecordState) -> ToggleAction {
    match s {
        RecordState::Idle | RecordState::Starting => ToggleAction::ShowRecordWindow,
        RecordState::Recording => ToggleAction::Pause,
        RecordState::Paused => ToggleAction::Resume,
        RecordState::Stopping => ToggleAction::Ignore,
    }
}

/// Idle (or starting) shows the recording window, recording pauses, paused
/// resumes, stopping ignores the key.
pub fn handle_toggle(state: RecordState) -> (a: ToggleAction)
    ensures
        a == toggle_spec(state),
{
    match state {
        RecordState::Idle | RecordState::Starting => ToggleAction::ShowRecordWindow,
        RecordState::Recording => ToggleAction::Pause,
        RecordState::Paused => ToggleAction::Resume,
        RecordState::Stopping => ToggleAction::Ignore,
    }
}

/// Whether a recording is running or paused.
pub open spec fn is_active(s: RecordState) -> bool {
    s == RecordState::Recording || s == RecordState::Paused
}

/// Escape stops and stores the recording only while one runs or is paused.
pub fn handle_stop(state: RecordState) -> (stop: bool)
    ensures
        stop == is_active(state),
{
    match state {
        RecordState::Recording | RecordState::Paused => true,
        _ => false,
    }
}

/// Whether the global Escape shortcut should be held: only while a recording
/// runs or is paused, so that other windows see Escape the rest of the time.
pub fn stop_hotkey_wanted(state: RecordState) -> (held: bool)
    ensures
        held == is_active(state),
{
    state == RecordState::Recording || state == RecordState::Paused
}

/// Escape does something exactly in the states where it is held, and there
/// the toggle key pauses or resumes instead of opening the recording window.
pub proof fn law_escape_held_when_it_acts(s: RecordState)
    ensures
        is_active(s) <==> (toggle_spec(s) == ToggleAction::Pause || toggle_spec(s) == ToggleAction::Resume),
{
}

/// Pausing with the toggle key and pressing it again resumes.
pub proof fn law_toggle_pauses_then_resumes()
    ensures
        toggle_spec(RecordState::Recording) == ToggleAction::Pause,
        toggle_spec(RecordState::Paused) == ToggleAction::Resume,
{
}

/// The key that stops a recording.
pub const STOP_SHORTCUT: &'static str = "Escape";

} // verus!
