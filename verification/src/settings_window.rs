//! The settings window: a single window; opening it again focuses it, and a
//! page asked for on opening is the page it shows.
use vstd::prelude::*;
use crate::text::opt_seq;

verus! {

/// The page kept for the settings window until its page script asks.
pub struct SettingsWindowState {
    pub pending_page: Option<String>,
}

/// What opening the settings window does.
pub enum SettingsOpen {
    /// It is open: focus it, and send the page to switch to, if any.
    Focus(Option<String>),
    /// Make it (and, on macOS, show the Dock icon).
    Create,
}

/// The kept page after opening at `page`.
pub open spec fn kept_after_open(kept: Option<Seq<char>>, page: Option<Seq<char>>) -> Option<Seq<char>> {
    match page {
        Some(p) => Some(p),
        None => kept,
    }
}

/// A page asked for on opening, whether or not the window was open, is the
/// page the window's script fetches next.
pub proof fn law_requested_page_is_fetched(kept: Option<Seq<char>>, page: Seq<char>)
    ensures
        kept_after_open(kept, Some(page)) == Some(page),
{
}

impl SettingsWindowState {
    /// Nothing kept.
    pub fn new() -> (s: SettingsWindowState)
        ensures
            s.pending_page is None,
    {
        SettingsWindowState { pending_page: None }
    }

    /// Opens the settings window (`exists`: it is already open) at
    /// `initial_page`, if given; the page is kept either way for the page
    /// script to fetch.
    pub fn open_settings(&mut self, exists: bool, initial_page: Option<String>) -> (r: SettingsOpen)
        ensures
            opt_seq(final(self).pending_page) == kept_after_open(opt_seq(old(self).pending_page), opt_seq(initial_page)),
            exists ==> (r matches SettingsOpen::Focus(nav) && opt_seq(nav) == opt_seq(initial_page)),
            !exists ==> r is Create,
    {
        match initial_page {
            Some(page) => {
                let nav = page.clone();
                self.pending_page = Some(page);
                if exists {
                    SettingsOpen::Focus(Some(nav))
                } else {
                    SettingsOpen::Create
                }
            },
            None => {
                if exists {
                    SettingsOpen::Focus(None)
                } else {
                    SettingsOpen::Create
                }
            },
        }
    }

    /// The kept page, taken: asked once by the page script after it loads.
    pub fn get_initial_page(&mut self) -> (p: Option<String>)
        ensures
            opt_seq(p) == opt_seq(old(self).pending_page),
            final(self).pending_page is None,
    {
        self.pending_page.take()
    }
}

} // verus!
