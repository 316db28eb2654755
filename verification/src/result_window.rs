//! The floating result window: text sent before its page is ready waits and
//! is shown once it is; a clear or hide hides the window a moment later
//! unless new text was shown in the meantime.
use vstd::prelude::*;
use crate::text::owned;

verus! {

/// What the application knows of the result window.
pub struct ResultWindowState {
    /// The page has said it is ready.
    pub ready: bool,
    /// Text waiting for the page.
    pub pending: Option<String>,
    /// Count of texts shown; a delayed hide only happens if it has not moved.
    pub session: u64,
}

/// The state by value.
pub struct ResultWindowView {
    pub ready: bool,
    pub pending: Option<Seq<char>>,
    pub session: u64,
}

impl View for ResultWindowState {
    type V = ResultWindowView;

    open spec fn view(&self) -> ResultWindowView {
        ResultWindowView {
            ready: self.ready,
            pending: match self.pending {
                Some(t) => Some(t@),
                None => None,
            },
            session: self.session,
        }
    }
}

/// The next session number (the counter wraps).
pub open spec fn next_session(n: u64) -> u64 {
    if n == u64::MAX {
        0
    } else {
        (n + 1) as u64
    }
}

/// State after `show_result(text)`, and whether the text goes to the page now.
pub open spec fn show_spec(s: ResultWindowView, text: Seq<char>) -> (ResultWindowView, bool) {
    if s.ready {
        (ResultWindowView { session: next_session(s.session), ..s }, true)
    } else {
        (ResultWindowView { pending: Some(text), session: next_session(s.session), ..s }, false)
    }
}

/// State after `update_result(text)`, and whether the text goes to the page now.
pub open spec fn update_spec(s: ResultWindowView, text: Seq<char>) -> (ResultWindowView, bool) {
    if s.ready {
        (s, true)
    } else {
        (ResultWindowView { pending: Some(text), ..s }, false)
    }
}

/// State after the page said it is ready, and the text to show then.
pub open spec fn ready_spec(s: ResultWindowView) -> (ResultWindowView, Option<Seq<char>>) {
    (ResultWindowView { ready: true, pending: None, ..s }, s.pending)
}

/// State after `clear_result`, and the session a delayed hide is scheduled for.
pub open spec fn clear_spec(s: ResultWindowView) -> (ResultWindowView, Option<u64>) {
    (ResultWindowView { pending: None, ..s }, if s.ready { Some(s.session) } else { None })
}

/// The session a delayed hide is scheduled for by `hide_result`.
pub open spec fn hide_result_spec(s: ResultWindowView) -> Option<u64> {
    if s.ready {
        Some(s.session)
    } else {
        None
    }
}

impl ResultWindowState {
    /// A window whose page has not loaded yet.
    pub fn new() -> (s: ResultWindowState)
        ensures
            !s@.ready,
            s@.pending is None,
            s@.session == 0,
    {
        ResultWindowState { ready: false, pending: None, session: 0 }
    }

    /// New text to show: sent to the page (which then shows the window) when
    /// it is ready, else kept for it. Returns whether to send it now.
    pub fn show_result(&mut self, text: &str) -> (send: bool)
        ensures
            (final(self)@, send) == show_spec(old(self)@, text@),
    {
        self.session = self.session.wrapping_add(1);
        if self.ready {
            true
        } else {
            self.pending = Some(owned(text));
            false
        }
    }

    /// Streaming update of the shown text; kept for the page when it is not
    /// ready. Returns whether to send it now.
    pub fn update_result(&mut self, text: &str) -> (send: bool)
        ensures
            (final(self)@, send) == update_spec(old(self)@, text@),
    {
        if self.ready {
            true
        } else {
            self.pending = Some(owned(text));
            false
        }
    }

    /// The page is ready: returns the text that waited for it, to be shown
    /// (with `show_result`) now.
    pub fn result_window_ready(&mut self) -> (text: Option<String>)
        ensures
            (final(self)@, match text {
                Some(t) => Some(t@),
                None => None,
            }) == ready_spec(old(self)@),
    {
        self.ready = true;
        let t = self.pending.take();
        t
    }

    /// Clears the text: drops what waits, and (when the page is ready)
    /// returns the session to hide the window for a moment later.
    pub fn clear_result(&mut self) -> (hide_for: Option<u64>)
        ensures
            (final(self)@, hide_for) == clear_spec(old(self)@),
    {
        self.pending = None;
        if self.ready {
            Some(self.session)
        } else {
            None
        }
    }

    /// Hides without clearing: the session to hide the window for a moment
    /// later, when the page is ready.
    pub fn hide_result(&self) -> (hide_for: Option<u64>)
        ensures
            hide_for == hide_result_spec(self@),
    {
        if self.ready {
            Some(self.session)
        } else {
            None
        }
    }

    /// Whether a delayed hide scheduled for `session` still hides: only when
    /// no text was shown since.
    pub fn hide_due(&self, session: u64) -> (due: bool)
        ensures
            due == (self@.session == session),
    {
        self.session == session
    }
}

/// Text shown before the page is ready is what the page shows first.
pub proof fn law_early_text_is_delivered(s: ResultWindowView, text: Seq<char>)
    requires
        !s.ready,
    ensures
        !show_spec(s, text).1,
        ready_spec(show_spec(s, text).0).1 == Some(text),
        !update_spec(s, text).1,
        ready_spec(update_spec(s, text).0).1 == Some(text),
{
}

/// Once the page is ready, texts go to it directly and nothing waits.
pub proof fn law_ready_sends_directly(s: ResultWindowView, text: Seq<char>)
    requires
        s.ready,
    ensures
        show_spec(s, text).1,
        update_spec(s, text).1,
        show_spec(s, text).0.pending == s.pending,
{
}

/// A clear drops the waiting text.
pub proof fn law_clear_drops_pending(s: ResultWindowView)
    ensures
        ready_spec(clear_spec(s).0).1 is None,
{
}

/// A delayed hide after a clear happens unless text was shown in between.
pub proof fn law_new_text_cancels_delayed_hide(s: ResultWindowView, text: Seq<char>)
    requires
        s.ready,
    ensures
        clear_spec(s).1 == Some(s.session),
        clear_spec(s).0.session == s.session,
        show_spec(clear_spec(s).0, text).0.session != s.session,
{
}

} // verus!
