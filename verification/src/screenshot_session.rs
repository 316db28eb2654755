//! Starting an area screenshot or the recording area picker: one at a time,
//! one window per display shown together once all are ready, and each
//! display paired with the capture taken of it.
use vstd::prelude::*;
use crate::text::{decimal_digits, decimal_string, i64_decimal, signed_decimal};
use crate::text::{ends_with, owned, push_str, str_ends_with};

verus! {

/// Guard that lets one screenshot (or one area picker) run at a time.
#[derive(Clone, Copy, Debug, PartialEq, Eq, Structural)]
pub struct BusyGate {
    pub busy: bool,
}

/// Gate after an entry request, and whether the request was let in.
pub open spec fn gate_enter(g: BusyGate) -> (BusyGate, bool) {
    (BusyGate { busy: true }, !g.busy)
}

/// Gate after the running task ended.
pub open spec fn gate_leave(g: BusyGate) -> BusyGate {
    BusyGate { busy: false }
}

impl BusyGate {
    /// Nothing running.
    pub fn new() -> (g: BusyGate)
        ensures
            !g.busy,
    {
        BusyGate { busy: false }
    }

    /// Starts an area screenshot; refused while one runs.
    pub fn try_start_screenshot(&mut self) -> (r: Result<(), String>)
        ensures
            (*final(self), r is Ok) == gate_enter(*old(self)),
            r matches Err(e) ==> e@ == "screenshot already in progress"@,
    {
        if self.busy {
            return Err(owned("screenshot already in progress"));
        }
        self.busy = true;
        Ok(())
    }

    /// Starts the recording area picker; refused while it runs.
    pub fn try_start_area_picker(&mut self) -> (r: Result<(), String>)
        ensures
            (*final(self), r is Ok) == gate_enter(*old(self)),
            r matches Err(e) ==> e@ == "area picker already in progress"@,
    {
        if self.busy {
            return Err(owned("area picker already in progress"));
        }
        self.busy = true;
        Ok(())
    }

    /// Ends the running task, however it ended.
    pub fn leave(&mut self)
        ensures
            *final(self) == gate_leave(*old(self)),
    {
        self.busy = false;
    }
}

/// A second request while one runs is refused, and after the first ends the
/// next is let in.
pub proof fn law_one_at_a_time(g: BusyGate)
    ensures
        !gate_enter(gate_enter(g).0).1,
        gate_enter(gate_leave(gate_enter(g).0)).1,
{
}

/// Where a capture was taken and its size, in physical pixels.
#[derive(Clone, Copy, Debug, PartialEq, Eq, Structural)]
pub struct CaptureKey {
    pub monitor_x: i32,
    pub monitor_y: i32,
    pub width: u32,
    pub height: u32,
}

/// The capture of display `i` (position `x`, `y`, size `w` by `h`): the first
/// taken at the same position, else the first of the same size, else the
/// `i`-th, if there is one.
pub open spec fn capture_for(cs: Seq<CaptureKey>, x: i32, y: i32, w: u32, h: u32, i: int) -> Option<int> {
    if exists|j: int| 0 <= j < cs.len() && cs[j].monitor_x == x && cs[j].monitor_y == y {
        first_match(cs, at_position(x, y))
    } else if exists|j: int| 0 <= j < cs.len() && cs[j].width == w && cs[j].height == h {
        first_match(cs, of_size(w, h))
    } else if 0 <= i < cs.len() {
        Some(i)
    } else {
        None
    }
}

/// Captures taken at (`x`, `y`).
pub open spec fn at_position(x: i32, y: i32) -> spec_fn(CaptureKey) -> bool {
    |c: CaptureKey| c.monitor_x == x && c.monitor_y == y
}

/// Captures of `w` by `h` pixels.
pub open spec fn of_size(w: u32, h: u32) -> spec_fn(CaptureKey) -> bool {
    |c: CaptureKey| c.width == w && c.height == h
}

/// Index of the first element of `cs` that `p` holds of.
pub open spec fn first_match(cs: Seq<CaptureKey>, p: spec_fn(CaptureKey) -> bool) -> Option<int>
    decreases cs.len(),
{
    if cs.len() == 0 {
        None
    } else if p(cs[0]) {
        Some(0)
    } else {
        match first_match(cs.drop_first(), p) {
            Some(k) => Some(k + 1),
            None => None,
        }
    }
}

proof fn lemma_first_match(cs: Seq<CaptureKey>, p: spec_fn(CaptureKey) -> bool)
    ensures
        match first_match(cs, p) {
            Some(k) => 0 <= k < cs.len() && p(cs[k]) && forall|j: int| 0 <= j < k ==> !p(#[trigger] cs[j]),
            None => forall|j: int| 0 <= j < cs.len() ==> !p(#[trigger] cs[j]),
        },
    decreases cs.len(),
{
    if cs.len() > 0 && !p(cs[0]) {
        let t = cs.drop_first();
        lemma_first_match(t, p);
        match first_match(t, p) {
            Some(k) => {
                assert(cs[k + 1] == t[k]);
                assert forall|j: int| 0 <= j < k + 1 implies !p(#[trigger] cs[j]) by {
                    if j > 0 {
                        assert(cs[j] == t[j - 1]);
                    }
                }
            },
            None => {
                assert forall|j: int| 0 <= j < cs.len() implies !p(#[trigger] cs[j]) by {
                    if j > 0 {
                        assert(cs[j] == t[j - 1]);
                    }
                }
            },
        }
    }
}

fn find_first_at(cs: &Vec<CaptureKey>, x: i32, y: i32) -> (r: Option<usize>)
    ensures
        r matches Some(k) ==> k < cs@.len() && cs@[k as int].monitor_x == x && cs@[k as int].monitor_y == y
            && forall|j: int| 0 <= j < k ==> !(#[trigger] cs@[j].monitor_x == x && cs@[j].monitor_y == y),
        r is None ==> forall|j: int| 0 <= j < cs@.len() ==> !(#[trigger] cs@[j].monitor_x == x && cs@[j].monitor_y == y),
{
    let mut i: usize = 0;
    while i < cs.len()
        invariant
            i <= cs@.len(),
            forall|j: int| 0 <= j < i ==> !(#[trigger] cs@[j].monitor_x == x && cs@[j].monitor_y == y),
        decreases cs@.len() - i,
    {
        if cs[i].monitor_x == x && cs[i].monitor_y == y {
            return Some(i);
        }
        i = i + 1;
    }
    None
}

fn find_first_sized(cs: &Vec<CaptureKey>, w: u32, h: u32) -> (r: Option<usize>)
    ensures
        r matches Some(k) ==> k < cs@.len() && cs@[k as int].width == w && cs@[k as int].height == h
            && forall|j: int| 0 <= j < k ==> !(#[trigger] cs@[j].width == w && cs@[j].height == h),
        r is None ==> forall|j: int| 0 <= j < cs@.len() ==> !(#[trigger] cs@[j].width == w && cs@[j].height == h),
{
    let mut i: usize = 0;
    while i < cs.len()
        invariant
            i <= cs@.len(),
            forall|j: int| 0 <= j < i ==> !(#[trigger] cs@[j].width == w && cs@[j].height == h),
        decreases cs@.len() - i,
    {
        if cs[i].width == w && cs[i].height == h {
            return Some(i);
        }
        i = i + 1;
    }
    None
}

proof fn lemma_first_match_unique(cs: Seq<CaptureKey>, p: spec_fn(CaptureKey) -> bool, k: int)
    requires
        0 <= k < cs.len(),
        p(cs[k]),
        forall|j: int| 0 <= j < k ==> !p(#[trigger] cs[j]),
    ensures
        first_match(cs, p) == Some(k),
{
    lemma_first_match(cs, p);
    match first_match(cs, p) {
        Some(m) => {
            if m < k {
                assert(!p(cs[m]));
            } else if m > k {
                assert(!p(cs[k]));
            }
        },
        None => {
            assert(!p(cs[k]));
        },
    }
}

/// The capture that belongs to display `i`, found by exact physical
/// position, then by size (so two displays of one resolution are not given
/// the same capture when positions are known), then by index.
pub fn match_capture(cs: &Vec<CaptureKey>, x: i32, y: i32, w: u32, h: u32, i: usize) -> (r: Option<usize>)
    ensures
        match r {
            Some(k) => capture_for(cs@, x, y, w, h, i as int) == Some(k as int),
            None => capture_for(cs@, x, y, w, h, i as int) is None,
        },
{
    match find_first_at(cs, x, y) {
        Some(k) => {
            proof {
                lemma_first_match_unique(cs@, at_position(x, y), k as int);
            }
            return Some(k);
        },
        None => {},
    }
    match find_first_sized(cs, w, h) {
        Some(k) => {
            proof {
                lemma_first_match_unique(cs@, of_size(w, h), k as int);
            }
            return Some(k);
        },
        None => {},
    }
    if i < cs.len() {
        Some(i)
    } else {
        None
    }
}

/// Label of the screenshot window of display `i` in session `session_id`.
pub open spec fn screenshot_label(session_id: int, i: nat) -> Seq<char> {
    "screenshot_"@ + signed_decimal(session_id) + "_"@ + decimal_digits(i)
}

/// `screenshot_<session>_<i>`: unique per session, so old windows need not
/// be gone before new ones are made.
pub fn screenshot_window_label(session_id: i64, i: usize) -> (s: String)
    ensures
        s@ == screenshot_label(session_id as int, i as nat),
{
    let mut s = owned("screenshot_");
    let sid = i64_decimal(session_id);
    push_str(&mut s, sid.as_str());
    push_str(&mut s, "_");
    let n = decimal_string(i);
    push_str(&mut s, n.as_str());
    s
}


/// Counts the full-screen windows of a screenshot or area picker and those
/// whose page is ready: they are shown together once all are ready (or
/// when the wait runs out). The counters wrap like the atomics they model.
#[derive(Clone, Copy, Debug, PartialEq, Eq, Structural)]
pub struct ShowBarrier {
    pub ready: u32,
    pub total: u32,
}

/// The next value of a wrapping counter.
pub open spec fn bump(n: u32) -> u32 {
    if n == u32::MAX {
        0
    } else {
        (n + 1) as u32
    }
}

impl ShowBarrier {
    /// No windows yet.
    pub fn new() -> (b: ShowBarrier)
        ensures
            b.ready == 0 && b.total == 0,
    {
        ShowBarrier { ready: 0, total: 0 }
    }

    /// Starts a new screenshot: both counts back to zero.
    pub fn reset(&mut self)
        ensures
            final(self).ready == 0 && final(self).total == 0,
    {
        self.ready = 0;
        self.total = 0;
    }

    /// A window was made.
    pub fn window_created(&mut self)
        ensures
            final(self).total == bump(old(self).total),
            final(self).ready == old(self).ready,
    {
        self.total = self.total.wrapping_add(1);
    }

    /// A window's page is ready: whether to show all the windows now.
    pub fn window_ready(&mut self) -> (show: bool)
        ensures
            final(self).ready == bump(old(self).ready),
            final(self).total == old(self).total,
            show == (bump(old(self).ready) >= old(self).total && old(self).total > 0),
    {
        self.ready = self.ready.wrapping_add(1);
        self.ready >= self.total && self.total > 0
    }

    /// When the wait for ready pages runs out: whether some never reported,
    /// so the windows must be shown anyway.
    pub fn must_force_show(&self) -> (force: bool)
        ensures
            force == (self.ready < self.total),
    {
        self.ready < self.total
    }
}

/// With `n` windows made after a reset, the windows are shown exactly when
/// the `n`-th page reports ready, and not before.
pub proof fn law_shown_when_last_is_ready(n: u32, k: u32)
    requires
        0 < n,
        k < n,
    ensures
        (bump(k) >= n) <==> k + 1 == n,
{
}

/// Label of the area picker window of display `i` in session `session_id`.
pub open spec fn picker_label(session_id: int, i: nat) -> Seq<char> {
    "record_area_picker_"@ + signed_decimal(session_id) + "_"@ + decimal_digits(i)
}

/// `record_area_picker_<session>_<i>`.
pub fn area_picker_window_label(session_id: i64, i: usize) -> (s: String)
    ensures
        s@ == picker_label(session_id as int, i as nat),
{
    let mut s = owned("record_area_picker_");
    let sid = i64_decimal(session_id);
    push_str(&mut s, sid.as_str());
    push_str(&mut s, "_");
    let n = decimal_string(i);
    push_str(&mut s, n.as_str());
    s
}

/// The window to focus once all are shown: the first whose label ends in
/// `_0` (display 0, the primary one).
pub fn focus_window(labels: &Vec<String>) -> (r: Option<usize>)
    ensures
        match r {
            Some(i) => i < labels@.len() && ends_with(labels@[i as int]@, "_0"@)
                && forall|j: int| 0 <= j < i ==> !ends_with(#[trigger] labels@[j]@, "_0"@),
            None => forall|j: int| 0 <= j < labels@.len() ==> !ends_with(#[trigger] labels@[j]@, "_0"@),
        },
{
    let mut i: usize = 0;
    while i < labels.len()
        invariant
            i <= labels@.len(),
            forall|j: int| 0 <= j < i ==> !ends_with(#[trigger] labels@[j]@, "_0"@),
        decreases labels@.len() - i,
    {
        if str_ends_with(labels[i].as_str(), "_0") {
            return Some(i);
        }
        i = i + 1;
    }
    None
}

} // verus!
