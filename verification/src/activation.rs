//! Focus coordination for floating windows (action bar, clipboard, result).
//!
//! Floating windows may nest; a depth counter makes sure only the outermost
//! show records the focus state and only the outermost close restores it:
//!
//! 1. only the show that takes the depth from 0 to 1 records state;
//! 2. only a close that brings the depth back to 0 restores state;
//! 3. every close decrements with an underflow guard.
//!
//! The window system itself is driven by the caller: these functions take
//! what it observed (labels, visibility, front application) and return what
//! it has to do.
use vstd::prelude::*;
use crate::text::{owned, seqs_of, starts_with, str_eq, str_starts_with};

verus! {

/// A window as the window system reports it.
pub struct WindowEntry {
    pub label: String,
    pub visible: bool,
}

/// Whether `label` names a regular window (settings, compact editor, terminals).
pub open spec fn spec_is_regular(label: Seq<char>) -> bool {
    label == "settings_window"@ || label == "compact_editor_window"@ || starts_with(
        label,
        "terminal_"@,
    )
}

/// Regular windows are exactly the ones hidden while a floating window shows.
pub open spec fn spec_hide_on_float(label: Seq<char>) -> bool {
    spec_is_regular(label)
}

/// Whether a regular window label is exact or has the `terminal_` prefix.
pub fn is_regular_window(label: &str) -> (b: bool)
    ensures
        b == spec_is_regular(label@),
{
    str_eq(label, "settings_window") || str_eq(label, "compact_editor_window")
        || str_starts_with(label, "terminal_")
}

/// Whether a window must be hidden while a floating window is shown
/// (the clipboard window is deliberately not one of them).
pub fn should_hide_on_float(label: &str) -> (b: bool)
    ensures
        b == spec_hide_on_float(label@),
{
    str_eq(label, "settings_window") || str_eq(label, "compact_editor_window")
        || str_starts_with(label, "terminal_")
}

/// Labels of the visible windows that `pred`-style filtering selects: the
/// visible windows to hide on float.
pub open spec fn visible_float_targets(ws: Seq<WindowEntry>) -> Seq<Seq<char>>
    decreases ws.len(),
{
    if ws.len() == 0 {
        Seq::empty()
    } else {
        let r = visible_float_targets(ws.drop_last());
        let w = ws.last();
        if spec_hide_on_float(w.label@) && w.visible {
            r.push(w.label@)
        } else {
            r
        }
    }
}

/// Labels of all windows hidden on float, visible or not.
pub open spec fn float_targets(ws: Seq<WindowEntry>) -> Seq<Seq<char>>
    decreases ws.len(),
{
    if ws.len() == 0 {
        Seq::empty()
    } else {
        let r = float_targets(ws.drop_last());
        let w = ws.last();
        if spec_hide_on_float(w.label@) {
            r.push(w.label@)
        } else {
            r
        }
    }
}

/// Whether some window in `ws` is regular.
pub open spec fn any_regular(ws: Seq<WindowEntry>) -> bool {
    exists|i: int| 0 <= i < ws.len() && spec_is_regular(#[trigger] ws[i].label@)
}

fn visible_targets(ws: &Vec<WindowEntry>) -> (r: Vec<String>)
    ensures
        seqs_of(r@) == visible_float_targets(ws@),
{
    let mut r: Vec<String> = Vec::new();
    let mut i: usize = 0;
    while i < ws.len()
        invariant
            i <= ws@.len(),
            seqs_of(r@) == visible_float_targets(ws@.take(i as int)),
        decreases ws@.len() - i,
    {
        let w = &ws[i];
        proof {
            assert(ws@.take(i + 1).drop_last() =~= ws@.take(i as int));
        }
        if should_hide_on_float(w.label.as_str()) && w.visible {
            r.push(owned(w.label.as_str()));
            assert(seqs_of(r@) =~= visible_float_targets(ws@.take(i + 1)));
        }
        i = i + 1;
    }
    assert(ws@.take(ws@.len() as int) =~= ws@);
    r
}

/// Labels to push behind the application's other windows when the action bar
/// activates the application: the visible regular windows.
pub fn order_back_regular_windows(ws: &Vec<WindowEntry>) -> (r: Vec<String>)
    ensures
        seqs_of(r@) == visible_float_targets(ws@),
{
    visible_targets(ws)
}

/// Labels to hide before a floating window shows: the visible regular windows.
pub fn hide_regular_windows(ws: &Vec<WindowEntry>) -> (r: Vec<String>)
    ensures
        seqs_of(r@) == visible_float_targets(ws@),
{
    visible_targets(ws)
}

/// Labels to show again after a floating window: all regular windows.
pub fn show_regular_windows(ws: &Vec<WindowEntry>) -> (r: Vec<String>)
    ensures
        seqs_of(r@) == float_targets(ws@),
{
    let mut r: Vec<String> = Vec::new();
    let mut i: usize = 0;
    while i < ws.len()
        invariant
            i <= ws@.len(),
            seqs_of(r@) == float_targets(ws@.take(i as int)),
        decreases ws@.len() - i,
    {
        let w = &ws[i];
        proof {
            assert(ws@.take(i + 1).drop_last() =~= ws@.take(i as int));
        }
        if should_hide_on_float(w.label.as_str()) {
            r.push(owned(w.label.as_str()));
            assert(seqs_of(r@) =~= float_targets(ws@.take(i + 1)));
        }
        i = i + 1;
    }
    assert(ws@.take(ws@.len() as int) =~= ws@);
    r
}

/// After a regular window closed: whether the application must switch back to
/// the accessory policy, i.e. no regular window is left among `remaining`.
pub fn restore_accessory_if_no_regular_window(remaining: &Vec<WindowEntry>) -> (b: bool)
    ensures
        b == !any_regular(remaining@),
{
    let mut i: usize = 0;
    while i < remaining.len()
        invariant
            i <= remaining@.len(),
            forall|j: int| 0 <= j < i ==> !spec_is_regular(#[trigger] remaining@[j].label@),
        decreases remaining@.len() - i,
    {
        if is_regular_window(remaining[i].label.as_str()) {
            return false;
        }
        i = i + 1;
    }
    true
}

/// What has to happen to the keyboard focus when the outermost floating window closes.
#[derive(Debug, Clone, Copy, PartialEq, Eq, Structural)]
pub enum FocusReturn {
    /// Leave focus where it is.
    Keep,
    /// Activate the application with this process id.
    Activate(i32),
    /// Send this application to the background.
    Deactivate,
}

/// What the window system has to do after a close.
pub struct CloseOutcome {
    pub focus: FocusReturn,
    /// Windows to show again, in order.
    pub show: Vec<String>,
}

/// Focus coordination state.
pub struct FloatFocus {
    /// Nesting depth of floating windows; 0 when none is active.
    pub depth: u32,
    /// Whether the application was in the background at the outermost show.
    pub was_inactive: bool,
    /// Process id of the application to hand focus back to.
    pub prev_app: Option<i32>,
    /// Windows hidden at the outermost show.
    pub temp_hidden: Vec<String>,
}

/// Mathematical state of the focus coordination.
pub struct FocusModel {
    pub depth: nat,
    pub was_inactive: bool,
    pub prev_app: Option<i32>,
    pub temp_hidden: Seq<Seq<char>>,
}

impl FloatFocus {
    pub open spec fn model(&self) -> FocusModel {
        FocusModel {
            depth: self.depth as nat,
            was_inactive: self.was_inactive,
            prev_app: self.prev_app,
            temp_hidden: seqs_of(self.temp_hidden@),
        }
    }
}

/// Labels of `hidden` that may be shown again (never the clipboard window).
pub open spec fn restorable(hidden: Seq<Seq<char>>) -> Seq<Seq<char>>
    decreases hidden.len(),
{
    if hidden.len() == 0 {
        Seq::empty()
    } else {
        let r = restorable(hidden.drop_last());
        if hidden.last() == "clipboard_window"@ {
            r
        } else {
            r.push(hidden.last())
        }
    }
}

/// Depth after a close (never below 0).
pub open spec fn after_close(d: nat) -> nat {
    if d > 0 {
        (d - 1) as nat
    } else {
        0
    }
}

/// The show edge: new state and the labels to hide now.
pub open spec fn show_spec(
    m: FocusModel,
    app_active: bool,
    frontmost: Option<i32>,
    self_pid: i32,
    windows: Seq<WindowEntry>,
    hide_regular: bool,
) -> (FocusModel, Seq<Seq<char>>) {
    if m.depth == 0 {
        let prev = match frontmost {
            Some(p) => if p != self_pid {
                Some(p)
            } else {
                m.prev_app
            },
            None => m.prev_app,
        };
        let to_hide = if !app_active && hide_regular {
            visible_float_targets(windows)
        } else {
            Seq::empty()
        };
        let hidden = if !app_active && hide_regular {
            to_hide
        } else {
            m.temp_hidden
        };
        (
            FocusModel {
                depth: 1,
                was_inactive: !app_active,
                prev_app: prev,
                temp_hidden: hidden,
            },
            to_hide,
        )
    } else {
        (FocusModel { depth: m.depth + 1, ..m }, Seq::empty())
    }
}

/// The standard close edge: new state, focus action, windows to show.
pub open spec fn hide_spec(m: FocusModel) -> (FocusModel, FocusReturn, Seq<Seq<char>>) {
    if after_close(m.depth) != 0 {
        (FocusModel { depth: after_close(m.depth), ..m }, FocusReturn::Keep, Seq::empty())
    } else {
        let focus = if m.was_inactive {
            match m.prev_app {
                Some(p) => FocusReturn::Activate(p),
                None => FocusReturn::Deactivate,
            }
        } else {
            FocusReturn::Keep
        };
        let prev = if m.was_inactive {
            None
        } else {
            m.prev_app
        };
        (
            FocusModel { depth: 0, was_inactive: false, prev_app: prev, temp_hidden: Seq::empty() },
            focus,
            restorable(m.temp_hidden),
        )
    }
}

/// The virtual close edge (floating window lost focus).
pub open spec fn restore_only_spec(m: FocusModel) -> (FocusModel, FocusReturn, Seq<Seq<char>>) {
    if after_close(m.depth) != 0 {
        (FocusModel { depth: after_close(m.depth), ..m }, FocusReturn::Keep, Seq::empty())
    } else {
        let focus = if m.temp_hidden.len() == 0 {
            FocusReturn::Keep
        } else {
            FocusReturn::Deactivate
        };
        (
            FocusModel { depth: 0, was_inactive: false, prev_app: None, temp_hidden: Seq::empty() },
            focus,
            restorable(m.temp_hidden),
        )
    }
}

/// The keep-active close edge (another window takes over at once).
pub open spec fn keep_active_spec(m: FocusModel) -> (FocusModel, FocusReturn, Seq<Seq<char>>) {
    if after_close(m.depth) != 0 {
        (FocusModel { depth: after_close(m.depth), ..m }, FocusReturn::Keep, Seq::empty())
    } else {
        (
            FocusModel { depth: 0, was_inactive: false, prev_app: None, temp_hidden: Seq::empty() },
            FocusReturn::Keep,
            restorable(m.temp_hidden),
        )
    }
}

fn restorable_labels(hidden: Vec<String>) -> (r: Vec<String>)
    ensures
        seqs_of(r@) == restorable(seqs_of(hidden@)),
{
    let mut r: Vec<String> = Vec::new();
    let mut i: usize = 0;
    while i < hidden.len()
        invariant
            i <= hidden@.len(),
            seqs_of(r@) == restorable(seqs_of(hidden@).take(i as int)),
        decreases hidden@.len() - i,
    {
        proof {
            assert(seqs_of(hidden@).take(i + 1).drop_last() =~= seqs_of(hidden@).take(i as int));
        }
        if !str_eq(hidden[i].as_str(), "clipboard_window") {
            r.push(owned(hidden[i].as_str()));
            assert(seqs_of(r@) =~= restorable(seqs_of(hidden@).take(i + 1)));
        }
        i = i + 1;
    }
    assert(seqs_of(hidden@).take(hidden@.len() as int) =~= seqs_of(hidden@));
    r
}

impl FloatFocus {
    /// No floating window active, nothing recorded.
    pub fn new() -> (s: Self)
        ensures
            s.model() == (FocusModel {
                depth: 0,
                was_inactive: false,
                prev_app: None,
                temp_hidden: Seq::empty(),
            }),
    {
        let s = FloatFocus { depth: 0, was_inactive: false, prev_app: None, temp_hidden: Vec::new() };
        assert(s.model().temp_hidden =~= Seq::<Seq<char>>::empty());
        s
    }

    /// Depth + 1; returns the new depth.
    pub fn float_depth_increment(&mut self) -> (d: u32)
        requires
            old(self).depth < u32::MAX,
        ensures
            d == old(self).depth + 1,
            final(self).model() == (FocusModel { depth: d as nat, ..old(self).model() }),
    {
        self.depth = self.depth + 1;
        self.depth
    }

    /// Depth - 1 unless already 0; returns whether the depth is now 0.
    pub fn float_depth_decrement_and_is_zero(&mut self) -> (z: bool)
        ensures
            final(self).model() == (FocusModel {
                depth: after_close(old(self).depth as nat),
                ..old(self).model()
            }),
            z == (after_close(old(self).depth as nat) == 0),
    {
        if self.depth > 0 {
            self.depth = self.depth - 1;
        }
        self.depth == 0
    }

    /// Forgets the recorded focus state (the hidden windows stay recorded).
    pub fn float_clear_state(&mut self)
        ensures
            final(self).model() == (FocusModel {
                was_inactive: false,
                prev_app: None,
                ..old(self).model()
            }),
    {
        self.was_inactive = false;
        self.prev_app = None;
    }

    /// Before a floating window shows. `app_active`: whether this application
    /// is active; `frontmost`: process id of the front application;
    /// `self_pid`: this process; `windows`: the application's windows;
    /// `hide_regular`: whether regular windows are to be hidden.
    /// Returns the labels the caller must hide now.
    pub fn before_floating_window_show(
        &mut self,
        app_active: bool,
        frontmost: Option<i32>,
        self_pid: i32,
        windows: &Vec<WindowEntry>,
        hide_regular: bool,
    ) -> (hidden_now: Vec<String>)
        requires
            old(self).depth < u32::MAX,
        ensures
            (final(self).model(), seqs_of(hidden_now@)) == show_spec(
                old(self).model(),
                app_active,
                frontmost,
                self_pid,
                windows@,
                hide_regular,
            ),
    {
        let depth = self.float_depth_increment();
        if depth == 1 {
            let is_inactive = !app_active;
            self.was_inactive = is_inactive;
            if let Some(front) = frontmost {
                if front != self_pid {
                    self.prev_app = Some(front);
                }
            }
            if is_inactive && hide_regular {
                let hidden = visible_targets(windows);
                let out = clone_labels(&hidden);
                self.temp_hidden = hidden;
                return out;
            }
        }
        let out: Vec<String> = Vec::new();
        assert(seqs_of(out@) =~= Seq::<Seq<char>>::empty());
        out
    }

    /// After a floating window hides: on the outermost close, hand focus back
    /// (if the application was in the background) and show the hidden windows.
    pub fn after_floating_window_hide(&mut self) -> (out: CloseOutcome)
        ensures
            (final(self).model(), out.focus, seqs_of(out.show@)) == hide_spec(old(self).model()),
    {
        if !self.float_depth_decrement_and_is_zero() {
            let out = CloseOutcome { focus: FocusReturn::Keep, show: Vec::new() };
            assert(seqs_of(out.show@) =~= Seq::<Seq<char>>::empty());
            return out;
        }
        let was_inactive = self.was_inactive;
        self.was_inactive = false;
        let mut focus = FocusReturn::Keep;
        if was_inactive {
            let prev = self.prev_app;
            self.prev_app = None;
            focus = match prev {
                Some(p) => FocusReturn::Activate(p),
                None => FocusReturn::Deactivate,
            };
        }
        let hidden = take_labels(&mut self.temp_hidden);
        assert(seqs_of(self.temp_hidden@) =~= Seq::<Seq<char>>::empty());
        CloseOutcome { focus, show: restorable_labels(hidden) }
    }

    /// A floating window lost focus (virtual close): on the outermost close,
    /// clear the state, send the application back and show the hidden windows.
    pub fn restore_hidden_windows_only(&mut self) -> (out: CloseOutcome)
        ensures
            (final(self).model(), out.focus, seqs_of(out.show@)) == restore_only_spec(
                old(self).model(),
            ),
    {
        if !self.float_depth_decrement_and_is_zero() {
            let out = CloseOutcome { focus: FocusReturn::Keep, show: Vec::new() };
            assert(seqs_of(out.show@) =~= Seq::<Seq<char>>::empty());
            return out;
        }
        self.float_clear_state();
        let hidden = take_labels(&mut self.temp_hidden);
        assert(seqs_of(self.temp_hidden@) =~= Seq::<Seq<char>>::empty());
        if hidden.len() == 0 {
            let out = CloseOutcome { focus: FocusReturn::Keep, show: Vec::new() };
            assert(seqs_of(hidden@) =~= Seq::<Seq<char>>::empty());
            assert(seqs_of(out.show@) =~= Seq::<Seq<char>>::empty());
            return out;
        }
        CloseOutcome { focus: FocusReturn::Deactivate, show: restorable_labels(hidden) }
    }

    /// A floating window hides and another window takes over at once: on the
    /// outermost close, clear the state and show the hidden windows without
    /// touching the focus.
    pub fn after_floating_window_hide_keep_active(&mut self) -> (out: CloseOutcome)
        ensures
            (final(self).model(), out.focus, seqs_of(out.show@)) == keep_active_spec(
                old(self).model(),
            ),
    {
        if !self.float_depth_decrement_and_is_zero() {
            let out = CloseOutcome { focus: FocusReturn::Keep, show: Vec::new() };
            assert(seqs_of(out.show@) =~= Seq::<Seq<char>>::empty());
            return out;
        }
        self.float_clear_state();
        let hidden = take_labels(&mut self.temp_hidden);
        assert(seqs_of(self.temp_hidden@) =~= Seq::<Seq<char>>::empty());
        CloseOutcome { focus: FocusReturn::Keep, show: restorable_labels(hidden) }
    }
}

fn take_labels(v: &mut Vec<String>) -> (r: Vec<String>)
    ensures
        r@ == old(v)@,
        final(v)@.len() == 0,
{
    let mut out: Vec<String> = Vec::new();
    std::mem::swap(&mut out, v);
    out
}

fn clone_labels(v: &Vec<String>) -> (r: Vec<String>)
    ensures
        seqs_of(r@) == seqs_of(v@),
{
    let mut r: Vec<String> = Vec::new();
    let mut i: usize = 0;
    while i < v.len()
        invariant
            i <= v@.len(),
            r@.len() == i,
            forall|j: int| 0 <= j < i ==> r@[j]@ == v@[j]@,
        decreases v@.len() - i,
    {
        r.push(owned(v[i].as_str()));
        i = i + 1;
    }
    assert(seqs_of(r@) =~= seqs_of(v@));
    r
}

/// A nested show (depth already above 0) only counts: the outer show's record
/// is kept and nothing is hidden.
pub proof fn law_nested_show_keeps_outer_record(
    m: FocusModel,
    app_active: bool,
    frontmost: Option<i32>,
    self_pid: i32,
    windows: Seq<WindowEntry>,
    hide_regular: bool,
)
    requires
        m.depth > 0,
    ensures
        ({
            let (n, h) = show_spec(m, app_active, frontmost, self_pid, windows, hide_regular);
            n.depth == m.depth + 1 && n.was_inactive == m.was_inactive && n.prev_app == m.prev_app
                && n.temp_hidden == m.temp_hidden && h.len() == 0
        }),
{
}

/// An inner close (depth stays above 0) of any kind keeps the record and does nothing.
pub proof fn law_inner_close_keeps_record(m: FocusModel)
    requires
        m.depth > 1,
    ensures
        ({
            let (a, fa, sa) = hide_spec(m);
            let (b, fb, sb) = restore_only_spec(m);
            let (c, fc, sc) = keep_active_spec(m);
            &&& a == FocusModel { depth: (m.depth - 1) as nat, ..m } && fa == FocusReturn::Keep
                && sa.len() == 0
            &&& b == FocusModel { depth: (m.depth - 1) as nat, ..m } && fb == FocusReturn::Keep
                && sb.len() == 0
            &&& c == FocusModel { depth: (m.depth - 1) as nat, ..m } && fc == FocusReturn::Keep
                && sc.len() == 0
        }),
{
}

/// A close with no floating window active cannot underflow: the depth stays 0.
pub proof fn law_close_at_zero_stays_zero(m: FocusModel)
    requires
        m.depth == 0,
    ensures
        hide_spec(m).0.depth == 0,
        restore_only_spec(m).0.depth == 0,
        keep_active_spec(m).0.depth == 0,
{
}

/// Outermost cycle: a floating window shown while another application was in
/// front hands the focus back to that application when it closes, and the
/// windows it hid come back; afterwards nothing is recorded.
pub proof fn law_outer_cycle_returns_focus(
    m: FocusModel,
    front: i32,
    self_pid: i32,
    windows: Seq<WindowEntry>,
)
    requires
        m.depth == 0,
        front != self_pid,
    ensures
        ({
            let (s1, h) = show_spec(m, false, Some(front), self_pid, windows, true);
            let (s2, focus, shown) = hide_spec(s1);
            &&& h == visible_float_targets(windows)
            &&& focus == FocusReturn::Activate(front)
            &&& shown == restorable(h)
            &&& s2.depth == 0 && !s2.was_inactive && s2.prev_app is None
            &&& s2.temp_hidden.len() == 0
        }),
{
}

/// Nested floating windows: an inner window shown on top of an outer one and
/// closed by losing focus leaves the outer record in place; the outer close
/// then restores it.
pub proof fn law_nested_cycle_restores_at_outer_close(
    m: FocusModel,
    front: i32,
    self_pid: i32,
    windows: Seq<WindowEntry>,
    inner_front: Option<i32>,
)
    requires
        m.depth == 0,
        front != self_pid,
    ensures
        ({
            let (s1, _h1) = show_spec(m, false, Some(front), self_pid, windows, true);
            let (s2, h2) = show_spec(s1, true, inner_front, self_pid, windows, true);
            let (s3, f3, sh3) = restore_only_spec(s2);
            let (s4, f4, _sh4) = hide_spec(s3);
            &&& h2.len() == 0
            &&& s3 == s1
            &&& f3 == FocusReturn::Keep && sh3.len() == 0
            &&& f4 == FocusReturn::Activate(front)
            &&& s4.depth == 0
        }),
{
}


/// The first running application with process id `pid`, by its index in
/// `running_pids` (the running applications' process ids, in the order the
/// system lists them); none when no application has it. The caller activates
/// that application with all its windows, once, and answers with
/// `activation_outcome`.
pub fn activate_window_by_pid(running_pids: &Vec<i32>, pid: i32) -> (r: Option<usize>)
    ensures
        match r {
            Some(i) => {
                &&& i < running_pids@.len()
                &&& running_pids@[i as int] == pid
                &&& forall|j: int| 0 <= j < i ==> #[trigger] running_pids@[j] != pid
            },
            None => forall|j: int| 0 <= j < running_pids@.len() ==> #[trigger] running_pids@[j] != pid,
        },
{
    let mut i: usize = 0;
    while i < running_pids.len()
        invariant
            i <= running_pids@.len(),
            forall|j: int| 0 <= j < i ==> #[trigger] running_pids@[j] != pid,
        decreases running_pids@.len() - i,
    {
        if running_pids[i] == pid {
            return Some(i);
        }
        i = i + 1;
    }
    None
}

/// The answer to a request to activate the application with a given process
/// id: `found` is what `activate_window_by_pid` found, `activated` whether
/// activating that application (with all its windows) succeeded. True means
/// the application was found and activated; false means it was not found or
/// the activation failed.
pub fn activation_outcome(found: Option<usize>, activated: bool) -> (ok: bool)
    ensures
        ok == (found is Some && activated),
{
    match found {
        Some(_) => activated,
        None => false,
    }
}

/// How to bring this application itself to the front.
#[derive(Clone, Copy, Debug, PartialEq, Eq, Structural)]
pub enum SelfActivation {
    /// Not on the main thread: nothing may be done.
    Skip,
    /// Activate the application, then, as a second way that works when the
    /// first is overridden, the running application at this index (when the
    /// own process is listed).
    Activate(Option<usize>),
}

/// The plan for activating this application, whose process id is `own_pid`.
pub fn activate_self(on_main_thread: bool, running_pids: &Vec<i32>, own_pid: i32) -> (r: SelfActivation)
    ensures
        !on_main_thread ==> r == SelfActivation::Skip,
        on_main_thread ==> (r matches SelfActivation::Activate(idx) && match idx {
            Some(i) => {
                &&& i < running_pids@.len()
                &&& running_pids@[i as int] == own_pid
                &&& forall|j: int| 0 <= j < i ==> #[trigger] running_pids@[j] != own_pid
            },
            None => forall|j: int| 0 <= j < running_pids@.len() ==> #[trigger] running_pids@[j] != own_pid,
        }),
{
    if !on_main_thread {
        return SelfActivation::Skip;
    }
    SelfActivation::Activate(activate_window_by_pid(running_pids, own_pid))
}

} // verus!
