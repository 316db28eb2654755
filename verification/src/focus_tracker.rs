//! Which application receives a simulated copy or paste.
//!
//! When an operation starts, the front application is remembered (unless it is
//! this application itself); the paste that ends the operation goes to that
//! application and forgets it. Without a remembered application, the front
//! application at paste time is used. Applications that embed a web view get
//! the AppleScript path, others get events delivered to their process.
use vstd::prelude::*;
use crate::keystroke::{
    copy, copy_to_pid, copy_via_osascript, keystroke_script, needs_osascript_fallback, paste,
    paste_to_pid, paste_via_osascript, pid_target, spec_needs_fallback, KeyCombo, KeyModifier,
    KeySend, KeyTarget, KEY_C, KEY_V,
};
use crate::text::{owned, starts_with, str_eq, str_starts_with};

verus! {

/// Milliseconds to wait after switching the input source before the paste keystroke.
pub const PASTE_SETTLE_MS: u64 = 50;

/// The front application as the window system reports it: pid, bundle id, name.
pub type Frontmost = Option<(i32, Option<String>, String)>;

/// The remembered target of the next paste: pid and bundle id.
pub struct FocusCache {
    pub prev: Option<(i32, String)>,
}

/// Whether a process name is this application (or the `osascript` helper it runs).
pub open spec fn is_self_name(name: Seq<char>) -> bool {
    name == "octopus"@ || name == "octopus-desktop"@ || starts_with(name, "osascript"@)
}

/// The remembered pid and bundle id, by view.
pub open spec fn cache_view(c: &FocusCache) -> Option<(i32, Seq<char>)> {
    match c.prev {
        Some((pid, bid)) => Some((pid, bid@)),
        None => None,
    }
}

/// What `save_frontmost_pid` remembers for a front application: nothing for
/// this application itself, else its pid and bundle id (empty when unknown).
pub open spec fn saved_view(frontmost: Option<(i32, Option<String>, String)>, before: Option<
    (i32, Seq<char>),
>) -> Option<(i32, Seq<char>)> {
    match frontmost {
        Some((pid, bid, name)) => if is_self_name(name@) {
            before
        } else {
            Some(
                (
                    pid,
                    match bid {
                        Some(b) => b@,
                        None => Seq::empty(),
                    },
                ),
            )
        },
        None => before,
    }
}

impl FocusCache {
    /// An empty cache.
    pub fn new() -> (c: Self)
        ensures
            cache_view(&c) is None,
    {
        FocusCache { prev: None }
    }
}

/// Remembers the front application as the target of the next paste, unless
/// it is this application itself.
pub fn save_frontmost_pid(cache: &mut FocusCache, frontmost: Frontmost)
    ensures
        cache_view(final(cache)) == saved_view(frontmost, cache_view(old(cache))),
{
    if let Some((pid, bid, name)) = frontmost {
        let own = str_eq(&name, "octopus") || str_eq(&name, "octopus-desktop") || str_starts_with(
            &name,
            "osascript",
        );
        if !own {
            let bundle = match bid {
                Some(b) => b,
                None => String::new(),
            };
            cache.prev = Some((pid, bundle));
        }
    }
}

/// The remembered pid.
pub fn cached_pid(cache: &FocusCache) -> (r: Option<i32>)
    ensures
        r == (match cache_view(cache) {
            Some((pid, _)) => Some(pid),
            None => None,
        }),
{
    match &cache.prev {
        Some((pid, _)) => Some(*pid),
        None => None,
    }
}

/// The remembered bundle id.
pub fn cached_bundle_id(cache: &FocusCache) -> (r: Option<String>)
    ensures
        match cache_view(cache) {
            Some((_, bid)) => r matches Some(s) && s@ == bid,
            None => r is None,
        },
{
    match &cache.prev {
        Some((_, bid)) => Some(owned(bid.as_str())),
        None => None,
    }
}

/// Forgets the remembered application.
pub fn clear_cached_pid(cache: &mut FocusCache)
    ensures
        cache_view(final(cache)) is None,
{
    cache.prev = None;
}

/// The path a simulated copy took: the slow script path needs a longer wait
/// for the clipboard to change.
#[derive(Clone, Copy, Debug, PartialEq, Eq, Structural)]
pub enum CopyDispatch {
    Osascript,
    CGEvent,
}

/// What a key press for a front application amounts to: the script for web-view
/// applications, the combination aimed at its pid otherwise, a broadcast when
/// nothing is in front.
pub open spec fn routed(
    frontmost: Option<(i32, Option<String>, String)>,
    key: u8,
    script: Seq<char>,
    s: KeySend,
) -> bool {
    match frontmost {
        Some((pid, bid, _)) => if spec_needs_fallback(
            match bid {
                Some(b) => Some(b@),
                None => None,
            },
        ) {
            s matches KeySend::Script(t) && t@ == script
        } else {
            s == KeySend::Combo(
                KeyCombo { modifier: KeyModifier::Command, key_code: key, target: pid_target(pid) },
            )
        },
        None => s == KeySend::Combo(
            KeyCombo { modifier: KeyModifier::Command, key_code: key, target: KeyTarget::Broadcast },
        ),
    }
}

fn bundle_needs_fallback(bid: &Option<String>) -> (b: bool)
    ensures
        b == spec_needs_fallback(
            match bid {
                Some(s) => Some(s@),
                None => None,
            },
        ),
{
    match bid {
        Some(s) => needs_osascript_fallback(Some(s.as_str())),
        None => needs_osascript_fallback(None),
    }
}

/// Copy for the given front application, and which path it takes.
pub fn dispatch_copy(frontmost: &Frontmost) -> (r: (KeySend, CopyDispatch))
    ensures
        routed(*frontmost, KEY_C, keystroke_script("c"@, "command down"@), r.0),
        (r.1 == CopyDispatch::Osascript) == (r.0 is Script),
{
    match frontmost {
        Some((pid, bid, _)) => {
            if bundle_needs_fallback(bid) {
                (KeySend::Script(copy_via_osascript()), CopyDispatch::Osascript)
            } else {
                (KeySend::Combo(copy_to_pid(*pid)), CopyDispatch::CGEvent)
            }
        },
        None => (KeySend::Combo(copy()), CopyDispatch::CGEvent),
    }
}

/// Paste for the given front application.
pub fn dispatch_paste(frontmost: &Frontmost) -> (r: KeySend)
    ensures
        routed(*frontmost, KEY_V, keystroke_script("v"@, "command down"@), r),
{
    match frontmost {
        Some((pid, bid, _)) => {
            if bundle_needs_fallback(bid) {
                KeySend::Script(paste_via_osascript())
            } else {
                KeySend::Combo(paste_to_pid(*pid))
            }
        },
        None => KeySend::Combo(paste()),
    }
}

/// The AppleScript that brings the previous application back to the front:
/// when this application is in front, the first visible process that is
/// neither this application nor `osascript` is raised instead.
pub open spec fn restore_script() -> Seq<char> {
    "tell application \"System Events\"\n        set p to first process whose frontmost is true\n        if name of p is \"octopus\" then\n            repeat with q in (every process whose background only is false)\n                if name of q is not \"octopus\" and name of q is not \"osascript\" then\n                    set frontmost of q to true\n                    set p to q\n                    exit repeat\n                end if\n            end repeat\n        else\n            set frontmost of p to true\n        end if\n        return name of p\n    end tell"@
}

/// The AppleScript that brings the previous application back to the front:
/// when this application is in front, the first visible process that is
/// neither this application nor `osascript` is raised instead.
pub fn restore_focus_script() -> (s: String)
    ensures
        s@ == restore_script(),
{
    owned(
        "tell application \"System Events\"\n        set p to first process whose frontmost is true\n        if name of p is \"octopus\" then\n            repeat with q in (every process whose background only is false)\n                if name of q is not \"octopus\" and name of q is not \"osascript\" then\n                    set frontmost of q to true\n                    set p to q\n                    exit repeat\n                end if\n            end repeat\n        else\n            set frontmost of p to true\n        end if\n        return name of p\n    end tell",
    )
}

/// Focus tracking entry point.
pub struct FocusTracker;

impl FocusTracker {
    /// The tracker (it keeps no state of its own).
    pub fn new() -> (t: Self)
        ensures
            t == FocusTracker,
    {
        FocusTracker
    }

    /// Starts listening for focus changes; window hiding already returns focus
    /// on this platform, so there is nothing to start.
    pub fn start(&self) -> (r: Result<(), String>)
        ensures
            r is Ok,
    {
        Ok(())
    }

    /// The script that brings the previous application back to the front.
    pub fn restore_focus(&self) -> (s: String)
        ensures
            s@ == restore_script(),
    {
        restore_focus_script()
    }

    /// The paste keystroke: to the remembered application when there is one
    /// (and the memory is then cleared), else to the front application. The
    /// caller switches to an ASCII input source and waits `PASTE_SETTLE_MS`
    /// before performing it.
    pub fn simulate_paste(&self, cache: &mut FocusCache, frontmost: &Frontmost) -> (r: KeySend)
        ensures
            match cache_view(old(cache)) {
                Some((pid, bid)) => {
                    &&& cache_view(final(cache)) is None
                    &&& if bid == crate::keystroke::WKWEBVIEW_FALLBACK_APP@ {
                        r matches KeySend::Script(t) && t@ == keystroke_script("v"@, "command down"@)
                    } else {
                        r == KeySend::Combo(
                            KeyCombo {
                                modifier: KeyModifier::Command,
                                key_code: KEY_V,
                                target: pid_target(pid),
                            },
                        )
                    }
                },
                None => {
                    &&& cache_view(final(cache)) is None
                    &&& routed(*frontmost, KEY_V, keystroke_script("v"@, "command down"@), r)
                },
            },
    {
        if let Some(pid) = cached_pid(cache) {
            let bid = cached_bundle_id(cache);
            let fallback = bundle_needs_fallback(&bid);
            let r = if fallback {
                KeySend::Script(paste_via_osascript())
            } else {
                KeySend::Combo(paste_to_pid(pid))
            };
            clear_cached_pid(cache);
            return r;
        }
        dispatch_paste(frontmost)
    }

    /// The copy keystroke for the front application, and its path.
    pub fn simulate_copy(&self, frontmost: &Frontmost) -> (r: (KeySend, CopyDispatch))
        ensures
            routed(*frontmost, KEY_C, keystroke_script("c"@, "command down"@), r.0),
            (r.1 == CopyDispatch::Osascript) == (r.0 is Script),
    {
        dispatch_copy(frontmost)
    }
}

/// Saving while this application itself is in front keeps the earlier target.
pub proof fn law_self_never_replaces_target(
    before: Option<(i32, Seq<char>)>,
    pid: i32,
    bid: Option<String>,
    name: String,
)
    requires
        is_self_name(name@),
    ensures
        saved_view(Some((pid, bid, name)), before) == before,
{
}

/// Saving while another application is in front makes it the target, whatever
/// was remembered before.
pub proof fn law_other_app_becomes_target(
    before: Option<(i32, Seq<char>)>,
    pid: i32,
    bid: Option<String>,
    name: String,
)
    requires
        !is_self_name(name@),
    ensures
        saved_view(Some((pid, bid, name)), before) matches Some((p, _)) && p == pid,
{
}

} // verus!
