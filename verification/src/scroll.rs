//! Ending a scrolling screenshot: how the user stopped it decides whether the
//! stitched image is discarded, copied, or copied and saved to a file.
use vstd::prelude::*;
use crate::text::{owned, seqs_of, starts_with, str_eq, str_starts_with};

verus! {

/// How a scrolling screenshot was stopped.
#[derive(Clone, Copy, Debug, PartialEq, Eq, Structural)]
pub enum ScrollStopMode {
    /// Copy to the clipboard and the history (also what Escape does).
    Copy,
    /// Copy, and offer to save a PNG file.
    Save,
    /// Discard.
    Cancel,
}

/// Stop mode named by the window: `save`, `cancel`, anything else copy.
pub open spec fn mode_named(mode: Seq<char>) -> ScrollStopMode {
    if mode == "save"@ {
        ScrollStopMode::Save
    } else if mode == "cancel"@ {
        ScrollStopMode::Cancel
    } else {
        ScrollStopMode::Copy
    }
}

/// The stop mode the window asks for.
pub fn stop_mode_from_name(mode: &str) -> (m: ScrollStopMode)
    ensures
        m == mode_named(mode@),
{
    if str_eq(mode, "save") {
        ScrollStopMode::Save
    } else if str_eq(mode, "cancel") {
        ScrollStopMode::Cancel
    } else {
        ScrollStopMode::Copy
    }
}

/// Code of a stop mode as it is kept between the stop request and the end
/// of the recording task.
pub open spec fn mode_code(m: ScrollStopMode) -> u8 {
    match m {
        ScrollStopMode::Copy => 0,
        ScrollStopMode::Save => 1,
        ScrollStopMode::Cancel => 2,
    }
}

/// Mode of a stored code; unknown codes copy.
pub open spec fn mode_of_code(n: u8) -> ScrollStopMode {
    if n == 1 {
        ScrollStopMode::Save
    } else if n == 2 {
        ScrollStopMode::Cancel
    } else {
        ScrollStopMode::Copy
    }
}

/// Stored code of a stop mode.
pub fn stop_mode_code(m: ScrollStopMode) -> (n: u8)
    ensures
        n == mode_code(m),
{
    match m {
        ScrollStopMode::Copy => 0,
        ScrollStopMode::Save => 1,
        ScrollStopMode::Cancel => 2,
    }
}

/// Stop mode of a stored code.
pub fn stop_mode_from_code(n: u8) -> (m: ScrollStopMode)
    ensures
        m == mode_of_code(n),
{
    match n {
        1 => ScrollStopMode::Save,
        2 => ScrollStopMode::Cancel,
        _ => ScrollStopMode::Copy,
    }
}

/// Storing a mode and reading it back gives the same mode.
pub proof fn law_stop_mode_code_round_trip(m: ScrollStopMode)
    ensures
        mode_of_code(mode_code(m)) == m,
{
}

/// What happens with the stitched image at the end.
#[derive(Clone, Copy, Debug, PartialEq, Eq, Structural)]
pub struct ScrollFinish {
    /// Put the image on the clipboard and in the history.
    pub store: bool,
    /// Offer a save dialog for the PNG.
    pub save_dialog: bool,
}

/// The end of a scrolling screenshot, from the stored stop code.
pub fn finish_for_code(n: u8) -> (f: ScrollFinish)
    ensures
        f.store == (mode_of_code(n) != ScrollStopMode::Cancel),
        f.save_dialog == (mode_of_code(n) == ScrollStopMode::Save),
{
    match stop_mode_from_code(n) {
        ScrollStopMode::Cancel => ScrollFinish { store: false, save_dialog: false },
        ScrollStopMode::Copy => ScrollFinish { store: true, save_dialog: false },
        ScrollStopMode::Save => ScrollFinish { store: true, save_dialog: true },
    }
}


/// The shared state of scrolling screenshots: whether one is running and the
/// stop mode code it will end with.
#[derive(Clone, Copy, Debug, PartialEq, Eq, Structural)]
pub struct ScrollSession {
    pub recording: bool,
    pub stop_code: u8,
}

/// Session after a start request (unchanged when one is already running).
pub open spec fn started(s: ScrollSession) -> ScrollSession {
    if s.recording {
        s
    } else {
        ScrollSession { recording: true, stop_code: s.stop_code }
    }
}

/// Session after a stop request that names a mode.
pub open spec fn stopped_with(s: ScrollSession, mode: Seq<char>) -> ScrollSession {
    ScrollSession { recording: false, stop_code: mode_code(mode_named(mode)) }
}

/// What the end of a recording does for a stored code.
pub open spec fn finish_of(n: u8) -> ScrollFinish {
    ScrollFinish {
        store: mode_of_code(n) != ScrollStopMode::Cancel,
        save_dialog: mode_of_code(n) == ScrollStopMode::Save,
    }
}

/// Session after a recording has ended and taken its stop mode.
pub open spec fn finished(s: ScrollSession) -> ScrollSession {
    ScrollSession { recording: s.recording, stop_code: 0 }
}

impl ScrollSession {
    /// No recording, copy mode.
    pub fn new() -> (s: ScrollSession)
        ensures
            !s.recording,
            s.stop_code == 0,
    {
        ScrollSession { recording: false, stop_code: 0 }
    }

    /// Claims the session for a new recording; refused while one runs.
    pub fn start(&mut self) -> (r: Result<(), String>)
        ensures
            *final(self) == started(*old(self)),
            r is Err <==> old(self).recording,
            r matches Err(e) ==> e@ == "Scroll recording is already in progress"@,
    {
        if self.recording {
            return Err(owned("Scroll recording is already in progress"));
        }
        self.recording = true;
        Ok(())
    }

    /// Stops the running recording; the stop mode stays as it was set.
    pub fn stop(&mut self)
        ensures
            !final(self).recording,
            final(self).stop_code == old(self).stop_code,
    {
        self.recording = false;
    }

    /// Stops the running recording with the mode the window names.
    pub fn stop_with_mode(&mut self, mode: &str)
        ensures
            *final(self) == stopped_with(*old(self), mode@),
    {
        let m = stop_mode_from_name(mode);
        self.stop_code = stop_mode_code(m);
        self.recording = false;
    }

    /// Stops the running recording in copy mode: the global Escape key and a
    /// right click outside the selection do this.
    pub fn stop_copy(&mut self)
        ensures
            !final(self).recording,
            mode_of_code(final(self).stop_code) == ScrollStopMode::Copy,
            final(self).stop_code == 0,
    {
        self.stop_code = 0;
        self.recording = false;
    }

    /// The recording task is over, however it ended (early failure, normal
    /// end, or cancellation): the session is free again.
    pub fn release(&mut self)
        ensures
            !final(self).recording,
            final(self).stop_code == old(self).stop_code,
    {
        self.recording = false;
    }

    /// The end of a recording: what to do with the image, and the mode reset
    /// to copy for the next one.
    pub fn finish(&mut self) -> (f: ScrollFinish)
        ensures
            f == finish_of(old(self).stop_code),
            *final(self) == finished(*old(self)),
    {
        let f = finish_for_code(self.stop_code);
        self.stop_code = 0;
        f
    }
}

/// A start request while a recording runs changes nothing.
pub proof fn law_start_refused_while_recording(s: ScrollSession)
    requires
        s.recording,
    ensures
        started(s) == s,
{
}

/// The mode named at stop decides the end of the recording, whatever was
/// stored before; afterwards the mode is back to copy and a new recording
/// can start.
pub proof fn law_stop_mode_decides_finish(s: ScrollSession, mode: Seq<char>)
    ensures
        finish_of(stopped_with(s, mode).stop_code) == (ScrollFinish {
            store: mode_named(mode) != ScrollStopMode::Cancel,
            save_dialog: mode_named(mode) == ScrollStopMode::Save,
        }),
        mode_of_code(finished(stopped_with(s, mode)).stop_code) == ScrollStopMode::Copy,
        started(finished(stopped_with(s, mode))).recording,
{
}

/// What the mouse poller does on one tick.
#[derive(Clone, Copy, Debug, PartialEq, Eq, Structural)]
pub struct PollAction {
    /// New pass-through setting for the screenshot windows, when it changes.
    pub set_passthrough: Option<bool>,
    /// A right click outside the selection stops the recording (copy mode).
    pub stop: bool,
    /// Time to look at which application is under the mouse.
    pub check_under_mouse: bool,
}

/// Ticks between two looks at the application under the mouse.
pub const CHECK_EVERY_TICKS: u32 = 50;

/// State of the mouse poller that runs while a scrolling screenshot records:
/// clicks pass through to the application below except over the toolbar and
/// preview, and the application under the mouse is activated now and then.
#[derive(Clone, Copy, Debug, PartialEq, Eq, Structural)]
pub struct ScrollPoller {
    pub passthrough: bool,
    pub prev_right_down: bool,
    pub check_count: u32,
    pub last_active_pid: i32,
}

/// Poller state and action after one tick.
pub open spec fn poll_tick(p: ScrollPoller, in_interactive: bool, right_down: bool, in_selection: bool) -> (ScrollPoller, PollAction) {
    let want = !in_interactive;
    let count = if p.check_count == u32::MAX { 0u32 } else { (p.check_count + 1) as u32 };
    let check = want && count >= CHECK_EVERY_TICKS;
    (
        ScrollPoller {
            passthrough: want,
            prev_right_down: right_down,
            check_count: if check { 0 } else { count },
            last_active_pid: p.last_active_pid,
        },
        PollAction {
            set_passthrough: if want != p.passthrough { Some(want) } else { None },
            stop: right_down && !p.prev_right_down && !in_selection,
            check_under_mouse: check,
        },
    )
}

impl ScrollPoller {
    /// Pass-through on, no button down, nothing activated yet.
    pub fn new() -> (p: ScrollPoller)
        ensures
            p.passthrough,
            !p.prev_right_down,
            p.check_count == 0,
            p.last_active_pid == 0,
    {
        ScrollPoller { passthrough: true, prev_right_down: false, check_count: 0, last_active_pid: 0 }
    }

    /// One tick: whether the mouse is over an interactive area, whether the
    /// right button is down, and whether the mouse is inside the selection.
    /// The tick counter wraps as a release build does.
    pub fn tick(&mut self, in_interactive: bool, right_down: bool, in_selection: bool) -> (a: PollAction)
        ensures
            (*final(self), a) == poll_tick(*old(self), in_interactive, right_down, in_selection),
    {
        let want = !in_interactive;
        let set_passthrough = if want != self.passthrough { Some(want) } else { None };
        self.passthrough = want;
        let stop = right_down && !self.prev_right_down && !in_selection;
        self.prev_right_down = right_down;
        self.check_count = self.check_count.wrapping_add(1);
        let check = want && self.check_count >= CHECK_EVERY_TICKS;
        if check {
            self.check_count = 0;
        }
        PollAction { set_passthrough, stop, check_under_mouse: check }
    }

    /// The application `pid` is under the mouse (after it moved far enough):
    /// whether to activate it, which is when it differs from the last one.
    pub fn app_under_mouse(&mut self, pid: i32) -> (activate: bool)
        ensures
            activate == (pid != old(self).last_active_pid),
            final(self).last_active_pid == pid,
            final(self).passthrough == old(self).passthrough,
            final(self).prev_right_down == old(self).prev_right_down,
            final(self).check_count == old(self).check_count,
    {
        if pid != self.last_active_pid {
            self.last_active_pid = pid;
            true
        } else {
            false
        }
    }
}

/// A right click stops the recording only on the tick the button goes down.
pub proof fn law_held_right_button_stops_once(p: ScrollPoller, a: bool, b: bool, c: bool, d: bool)
    ensures
        !poll_tick(poll_tick(p, a, true, c).0, b, true, d).1.stop,
{
}

/// The pass-through setting is only sent when it changes.
pub proof fn law_passthrough_sent_on_change(p: ScrollPoller, in_interactive: bool, r: bool, s: bool)
    ensures
        poll_tick(p, in_interactive, r, s).1.set_passthrough is Some <==> p.passthrough == in_interactive,
        poll_tick(p, in_interactive, r, s).0.passthrough == !in_interactive,
{
}

/// Labels with the screenshot window prefix, in order.
pub open spec fn screenshot_labels(ls: Seq<Seq<char>>) -> Seq<Seq<char>>
    decreases ls.len(),
{
    if ls.len() == 0 {
        Seq::empty()
    } else {
        let r = screenshot_labels(ls.drop_last());
        if starts_with(ls.last(), "screenshot_"@) {
            r.push(ls.last())
        } else {
            r
        }
    }
}

/// The screenshot windows among the open windows' labels.
pub fn screenshot_window_labels(labels: &Vec<String>) -> (r: Vec<String>)
    ensures
        seqs_of(r@) == screenshot_labels(seqs_of(labels@)),
{
    let mut r: Vec<String> = Vec::new();
    let mut i: usize = 0;
    while i < labels.len()
        invariant
            i <= labels@.len(),
            seqs_of(r@) == screenshot_labels(seqs_of(labels@.take(i as int))),
        decreases labels@.len() - i,
    {
        proof {
            assert(seqs_of(labels@.take(i + 1)).drop_last() =~= seqs_of(labels@.take(i as int)));
            assert(seqs_of(labels@.take(i + 1)).last() == labels@[i as int]@);
        }
        if str_starts_with(labels[i].as_str(), "screenshot_") {
            r.push(owned(labels[i].as_str()));
            assert(seqs_of(r@) =~= screenshot_labels(seqs_of(labels@.take(i + 1))));
        }
        i = i + 1;
    }
    assert(labels@.take(labels@.len() as int) =~= labels@);
    r
}

} // verus!
