//! Push-to-talk key state machine: one key, three recording modes.
//!
//! Press length and double taps select the mode:
//!
//! | state               | short press (< 260 ms) | long press (>= 260 ms) | double tap        |
//! |---------------------|------------------------|------------------------|-------------------|
//! | idle                | hands-free start       | push-to-talk           | toggle start      |
//! | toggle recording    | polish now             | toggle end             | toggle end        |
//! | hands-free recording| stop                   | stop                   | stop              |
//! | push-to-talk        | -                      | key up: stop + paste   | -                 |
//!
//! Times are milliseconds on a monotonic clock supplied by the caller.
use vstd::prelude::*;

verus! {

/// Short-press / double-tap window in milliseconds.
pub const TAP_TIMEOUT_MS: u64 = 260;

/// Recording mode reported by the coordinator: toggle recording.
pub const MODE_TOGGLE: u8 = 1;

/// Recording mode reported by the coordinator: hands-free recording.
pub const MODE_HANDS_FREE: u8 = 3;

/// The six states of the key machine.
#[derive(Debug, Clone, Copy, PartialEq, Eq, Structural)]
pub enum PttFsm {
    /// Waiting for the next key sequence.
    Idle,
    /// Key down, waiting to tell a short press from a long press.
    Pending { timer_start: u64 },
    /// Short press released, waiting to tell a double tap from a single tap.
    ShortPressWait { timer_start: u64 },
    /// Push-to-talk recording (long press confirmed).
    PttRecording,
    /// Key down while a toggle recording runs.
    ToggleInWait { timer_start: u64 },
    /// Key down while a hands-free recording runs.
    HandsFreeInWait { timer_start: u64 },
}

/// Side effect that a transition asks the coordinator for.
#[derive(Debug, Clone, Copy, PartialEq, Eq, Structural)]
pub enum FsmAction {
    NoAction,
    ToggleStart,
    ToggleEnd,
    InstantStart,
    InstantStop,
    PolishNow,
    HandsFreeStart,
    HandsFreeStop,
}

/// Coordinator command that an action is dispatched to.
#[derive(Debug, Clone, Copy, PartialEq, Eq, Structural)]
pub enum CoordinatorCommand {
    Toggle,
    InstantStart,
    InstantStop,
    PolishNow,
    HandsFreeStart,
    HandsFreeStop,
}

/// Milliseconds elapsed from `start` to `now` (zero when the clock reads earlier).
pub open spec fn elapsed(start: u64, now: u64) -> int {
    if now >= start {
        now - start
    } else {
        0
    }
}

pub open spec fn spec_timed_out(start: u64, now: u64) -> bool {
    elapsed(start, now) >= TAP_TIMEOUT_MS
}

/// Transition on key down, given the coordinator's recording mode.
pub open spec fn keydown_spec(s: PttFsm, mode: u8, now: u64) -> (PttFsm, FsmAction) {
    match s {
        PttFsm::Idle => if mode == MODE_TOGGLE {
            (PttFsm::ToggleInWait { timer_start: now }, FsmAction::NoAction)
        } else if mode == MODE_HANDS_FREE {
            (PttFsm::HandsFreeInWait { timer_start: now }, FsmAction::NoAction)
        } else {
            (PttFsm::Pending { timer_start: now }, FsmAction::NoAction)
        },
        PttFsm::ShortPressWait { .. } => (PttFsm::Idle, FsmAction::ToggleStart),
        _ => (PttFsm::Idle, FsmAction::NoAction),
    }
}

/// Transition on key up.
pub open spec fn keyup_spec(s: PttFsm, now: u64) -> (PttFsm, FsmAction) {
    match s {
        PttFsm::Pending { timer_start } => if !spec_timed_out(timer_start, now) {
            (PttFsm::ShortPressWait { timer_start: now }, FsmAction::NoAction)
        } else {
            (PttFsm::Idle, FsmAction::InstantStop)
        },
        PttFsm::PttRecording => (PttFsm::Idle, FsmAction::InstantStop),
        PttFsm::ToggleInWait { timer_start } => if !spec_timed_out(timer_start, now) {
            (PttFsm::Idle, FsmAction::PolishNow)
        } else {
            (PttFsm::Idle, FsmAction::NoAction)
        },
        PttFsm::HandsFreeInWait { .. } => (PttFsm::Idle, FsmAction::HandsFreeStop),
        other => (other, FsmAction::NoAction),
    }
}

/// Transition of the periodic timeout check.
pub open spec fn timeout_spec(s: PttFsm, now: u64) -> (PttFsm, FsmAction) {
    match s {
        PttFsm::Pending { timer_start } if spec_timed_out(timer_start, now) => (
            PttFsm::PttRecording,
            FsmAction::InstantStart,
        ),
        PttFsm::ShortPressWait { timer_start } if spec_timed_out(timer_start, now) => (
            PttFsm::Idle,
            FsmAction::HandsFreeStart,
        ),
        PttFsm::ToggleInWait { timer_start } if spec_timed_out(timer_start, now) => (
            PttFsm::Idle,
            FsmAction::ToggleEnd,
        ),
        PttFsm::HandsFreeInWait { timer_start } if spec_timed_out(timer_start, now) => (
            PttFsm::Idle,
            FsmAction::HandsFreeStop,
        ),
        other => (other, FsmAction::NoAction),
    }
}

pub open spec fn command_spec(a: FsmAction) -> Option<CoordinatorCommand> {
    match a {
        FsmAction::NoAction => None,
        FsmAction::ToggleStart => Some(CoordinatorCommand::Toggle),
        FsmAction::ToggleEnd => Some(CoordinatorCommand::Toggle),
        FsmAction::InstantStart => Some(CoordinatorCommand::InstantStart),
        FsmAction::InstantStop => Some(CoordinatorCommand::InstantStop),
        FsmAction::PolishNow => Some(CoordinatorCommand::PolishNow),
        FsmAction::HandsFreeStart => Some(CoordinatorCommand::HandsFreeStart),
        FsmAction::HandsFreeStop => Some(CoordinatorCommand::HandsFreeStop),
    }
}

impl PttFsm {
    /// The machine starts idle.
    pub fn new() -> (s: Self)
        ensures
            s == PttFsm::Idle,
    {
        PttFsm::Idle
    }

    /// Whether at least `TAP_TIMEOUT_MS` have passed since `timer_start`.
    pub fn timed_out(timer_start: u64, now: u64) -> (b: bool)
        ensures
            b == spec_timed_out(timer_start, now),
    {
        let e: u64 = if now >= timer_start {
            now - timer_start
        } else {
            0
        };
        e >= TAP_TIMEOUT_MS
    }

    /// Key down: new state and action.
    pub fn next_on_keydown(self, mode: u8, now: u64) -> (r: (PttFsm, FsmAction))
        ensures
            r == keydown_spec(self, mode, now),
    {
        match self {
            PttFsm::Idle => {
                if mode == MODE_TOGGLE {
                    (PttFsm::ToggleInWait { timer_start: now }, FsmAction::NoAction)
                } else if mode == MODE_HANDS_FREE {
                    (PttFsm::HandsFreeInWait { timer_start: now }, FsmAction::NoAction)
                } else {
                    (PttFsm::Pending { timer_start: now }, FsmAction::NoAction)
                }
            },
            PttFsm::ShortPressWait { .. } => (PttFsm::Idle, FsmAction::ToggleStart),
            _ => (PttFsm::Idle, FsmAction::NoAction),
        }
    }

    /// Key up: new state and action.
    pub fn next_on_keyup(self, now: u64) -> (r: (PttFsm, FsmAction))
        ensures
            r == keyup_spec(self, now),
    {
        match self {
            PttFsm::Pending { timer_start } => {
                if !Self::timed_out(timer_start, now) {
                    (PttFsm::ShortPressWait { timer_start: now }, FsmAction::NoAction)
                } else {
                    (PttFsm::Idle, FsmAction::InstantStop)
                }
            },
            PttFsm::PttRecording => (PttFsm::Idle, FsmAction::InstantStop),
            PttFsm::ToggleInWait { timer_start } => {
                if !Self::timed_out(timer_start, now) {
                    (PttFsm::Idle, FsmAction::PolishNow)
                } else {
                    (PttFsm::Idle, FsmAction::NoAction)
                }
            },
            PttFsm::HandsFreeInWait { .. } => (PttFsm::Idle, FsmAction::HandsFreeStop),
            other => (other, FsmAction::NoAction),
        }
    }

    /// Timeout check: new state and action (the state is unchanged when no timer is due).
    pub fn next_on_timeout(&self, now: u64) -> (r: (PttFsm, FsmAction))
        ensures
            r == timeout_spec(*self, now),
    {
        match *self {
            PttFsm::Pending { timer_start } => {
                if Self::timed_out(timer_start, now) {
                    (PttFsm::PttRecording, FsmAction::InstantStart)
                } else {
                    (*self, FsmAction::NoAction)
                }
            },
            PttFsm::ShortPressWait { timer_start } => {
                if Self::timed_out(timer_start, now) {
                    (PttFsm::Idle, FsmAction::HandsFreeStart)
                } else {
                    (*self, FsmAction::NoAction)
                }
            },
            PttFsm::ToggleInWait { timer_start } => {
                if Self::timed_out(timer_start, now) {
                    (PttFsm::Idle, FsmAction::ToggleEnd)
                } else {
                    (*self, FsmAction::NoAction)
                }
            },
            PttFsm::HandsFreeInWait { timer_start } => {
                if Self::timed_out(timer_start, now) {
                    (PttFsm::Idle, FsmAction::HandsFreeStop)
                } else {
                    (*self, FsmAction::NoAction)
                }
            },
            other => (other, FsmAction::NoAction),
        }
    }
}

/// Key-down event: advances the machine and returns the action to dispatch.
pub fn on_keydown(fsm: &mut PttFsm, mode: u8, now: u64) -> (a: FsmAction)
    ensures
        (*final(fsm), a) == keydown_spec(*old(fsm), mode, now),
{
    let (next, action) = fsm.next_on_keydown(mode, now);
    *fsm = next;
    action
}

/// Key-up event: advances the machine and returns the action to dispatch.
pub fn on_keyup(fsm: &mut PttFsm, now: u64) -> (a: FsmAction)
    ensures
        (*final(fsm), a) == keyup_spec(*old(fsm), now),
{
    let (next, action) = fsm.next_on_keyup(now);
    *fsm = next;
    action
}

/// Periodic tick: applies a due timeout transition, leaving the machine alone otherwise.
pub fn drive_timeouts(fsm: &mut PttFsm, now: u64) -> (a: FsmAction)
    ensures
        a == timeout_spec(*old(fsm), now).1,
        *final(fsm) == timeout_spec(*old(fsm), now).0,
        a == FsmAction::NoAction ==> *final(fsm) == *old(fsm),
{
    let (next, action) = fsm.next_on_timeout(now);
    if action != FsmAction::NoAction {
        *fsm = next;
    }
    action
}

/// A hotkey event (`pressed`: key down, else key up) with id `event_id`:
/// only the registered push-to-talk key (`registered`) drives the machine.
pub fn handle_hotkey_event(
    registered: Option<u64>,
    event_id: u64,
    pressed: bool,
    fsm: &mut PttFsm,
    mode: u8,
    now: u64,
) -> (a: FsmAction)
    ensures
        registered != Some(event_id) ==> a == FsmAction::NoAction && *final(fsm) == *old(fsm),
        registered == Some(event_id) && pressed ==> (*final(fsm), a) == keydown_spec(*old(fsm), mode, now),
        registered == Some(event_id) && !pressed ==> (*final(fsm), a) == keyup_spec(*old(fsm), now),
{
    match registered {
        Some(id) => {
            if id != event_id {
                return FsmAction::NoAction;
            }
        },
        None => {
            return FsmAction::NoAction;
        },
    }
    if pressed {
        on_keydown(fsm, mode, now)
    } else {
        on_keyup(fsm, now)
    }
}

/// Coordinator command for an action (`None` for no action; both toggle edges use `Toggle`).
pub fn dispatch_action(action: FsmAction) -> (c: Option<CoordinatorCommand>)
    ensures
        c == command_spec(action),
{
    match action {
        FsmAction::NoAction => None,
        FsmAction::ToggleStart => Some(CoordinatorCommand::Toggle),
        FsmAction::ToggleEnd => Some(CoordinatorCommand::Toggle),
        FsmAction::InstantStart => Some(CoordinatorCommand::InstantStart),
        FsmAction::InstantStop => Some(CoordinatorCommand::InstantStop),
        FsmAction::PolishNow => Some(CoordinatorCommand::PolishNow),
        FsmAction::HandsFreeStart => Some(CoordinatorCommand::HandsFreeStart),
        FsmAction::HandsFreeStop => Some(CoordinatorCommand::HandsFreeStop),
    }
}

/// A timer that has run out stays run out as the clock advances.
pub proof fn law_timeout_monotone(start: u64, now: u64, later: u64)
    requires
        now <= later,
        spec_timed_out(start, now),
    ensures
        spec_timed_out(start, later),
{
}

/// In idle, a tap released within the window followed by a second key down
/// inside the window starts a toggle recording.
pub proof fn law_idle_double_tap_starts_toggle(mode: u8, t0: u64, t1: u64, t2: u64)
    requires
        mode != MODE_TOGGLE,
        mode != MODE_HANDS_FREE,
        t0 <= t1,
        t1 - t0 < TAP_TIMEOUT_MS,
        t1 <= t2,
        t2 - t1 < TAP_TIMEOUT_MS,
    ensures
        ({
            let (s1, a1) = keydown_spec(PttFsm::Idle, mode, t0);
            let (s2, a2) = keyup_spec(s1, t1);
            let (s3, a3) = timeout_spec(s2, t2);
            let (s4, a4) = keydown_spec(s3, mode, t2);
            a1 == FsmAction::NoAction && a2 == FsmAction::NoAction && a3 == FsmAction::NoAction && s4
                == PttFsm::Idle && a4 == FsmAction::ToggleStart
        }),
{
}

/// In idle, holding the key for the whole window starts push-to-talk, and
/// releasing it stops push-to-talk.
pub proof fn law_idle_long_press_is_push_to_talk(mode: u8, t0: u64, t1: u64, t2: u64)
    requires
        mode != MODE_TOGGLE,
        mode != MODE_HANDS_FREE,
        t0 <= t1,
        t1 - t0 >= TAP_TIMEOUT_MS,
        t1 <= t2,
    ensures
        ({
            let (s1, _a1) = keydown_spec(PttFsm::Idle, mode, t0);
            let (s2, a2) = timeout_spec(s1, t1);
            let (s3, a3) = keyup_spec(s2, t2);
            s2 == PttFsm::PttRecording && a2 == FsmAction::InstantStart && s3 == PttFsm::Idle
                && a3 == FsmAction::InstantStop
        }),
{
}

/// In idle, a single tap that is not followed by a second one starts hands-free recording.
pub proof fn law_idle_single_tap_is_hands_free(mode: u8, t0: u64, t1: u64, t2: u64)
    requires
        mode != MODE_TOGGLE,
        mode != MODE_HANDS_FREE,
        t0 <= t1,
        t1 - t0 < TAP_TIMEOUT_MS,
        t1 <= t2,
        t2 - t1 >= TAP_TIMEOUT_MS,
    ensures
        ({
            let (s1, _a1) = keydown_spec(PttFsm::Idle, mode, t0);
            let (s2, _a2) = keyup_spec(s1, t1);
            let (s3, a3) = timeout_spec(s2, t2);
            s3 == PttFsm::Idle && a3 == FsmAction::HandsFreeStart
        }),
{
}

/// During a toggle recording a short click polishes and a long press ends the
/// recording; either way exactly one command is issued and the machine is idle again.
pub proof fn law_toggle_press_issues_one_command(t0: u64, t1: u64, t2: u64)
    requires
        t0 <= t1 <= t2,
    ensures
        ({
            let (s1, a1) = keydown_spec(PttFsm::Idle, MODE_TOGGLE, t0);
            let (s2, a2) = timeout_spec(s1, t1);
            let (s3, a3) = keyup_spec(s2, t2);
            &&& a1 == FsmAction::NoAction
            &&& s3 == PttFsm::Idle
            &&& if t1 - t0 >= TAP_TIMEOUT_MS {
                a2 == FsmAction::ToggleEnd && a3 == FsmAction::NoAction
            } else if t2 - t0 >= TAP_TIMEOUT_MS {
                a2 == FsmAction::NoAction && a3 == FsmAction::NoAction
            } else {
                a2 == FsmAction::NoAction && a3 == FsmAction::PolishNow
            }
        }),
{
}

/// During a hands-free recording any press stops the recording, by release or by timeout.
pub proof fn law_hands_free_press_stops(t0: u64, now: u64)
    ensures
        ({
            let (s1, _a1) = keydown_spec(PttFsm::Idle, MODE_HANDS_FREE, t0);
            let (s2, a2) = keyup_spec(s1, now);
            s2 == PttFsm::Idle && a2 == FsmAction::HandsFreeStop
        }),
        ({
            let (s1, _a1) = keydown_spec(PttFsm::Idle, MODE_HANDS_FREE, t0);
            let (s2, a2) = timeout_spec(s1, now);
            spec_timed_out(t0, now) ==> s2 == PttFsm::Idle && a2 == FsmAction::HandsFreeStop
        }),
{
}

/// A key up without a matching key down changes nothing.
pub proof fn law_stray_keyup_is_ignored(now: u64, t: u64)
    ensures
        keyup_spec(PttFsm::Idle, now) == (PttFsm::Idle, FsmAction::NoAction),
        keyup_spec(PttFsm::ShortPressWait { timer_start: t }, now) == (
            PttFsm::ShortPressWait { timer_start: t },
            FsmAction::NoAction,
        ),
{
}

/// The timeout check acts exactly when it changes the state.
pub proof fn law_timeout_acts_iff_state_changes(s: PttFsm, now: u64)
    ensures
        (timeout_spec(s, now).1 == FsmAction::NoAction) <==> (timeout_spec(s, now).0 == s),
{
}

} // verus!
