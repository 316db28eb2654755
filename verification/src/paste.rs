//! How transcribed text reaches the active window.
//!
//! Three methods: through the clipboard and a Cmd+V (the default), by typing
//! the text directly, or only leaving it on the clipboard. The clipboard method
//! can keep the user's clipboard: it is backed up before and restored after.
//! The steps are performed by the caller in the order given here.
use vstd::prelude::*;
use crate::keystroke::{paste as paste_combo, KeyCombo, KeyModifier, KeyTarget, KEY_V};
use crate::text::str_eq;

verus! {

/// Milliseconds between writing the clipboard and pressing Cmd+V.
pub const CLIPBOARD_SETTLE_MS: u64 = 50;

/// Milliseconds between Cmd+V and restoring the clipboard.
pub const PASTE_RESTORE_DELAY_MS: u64 = 200;

/// Paste method setting.
#[derive(Clone, Copy, Debug, PartialEq, Eq, Structural)]
pub enum PasteMethod {
    Clipboard,
    Direct,
    NoPaste,
}

/// The method a setting value names: `direct`, `none`, anything else the clipboard.
pub open spec fn method_of(s: Seq<char>) -> PasteMethod {
    if s == "direct"@ {
        PasteMethod::Direct
    } else if s == "none"@ {
        PasteMethod::NoPaste
    } else {
        PasteMethod::Clipboard
    }
}

impl PasteMethod {
    /// The method a setting value names.
    pub fn from_setting(s: &str) -> (m: PasteMethod)
        ensures
            m == method_of(s@),
    {
        if str_eq(s, "direct") {
            PasteMethod::Direct
        } else if str_eq(s, "none") {
            PasteMethod::NoPaste
        } else {
            PasteMethod::Clipboard
        }
    }
}

impl<'a> From<&'a str> for PasteMethod {
    fn from(s: &'a str) -> (m: PasteMethod) {
        PasteMethod::from_setting(s)
    }
}

impl<'a> vstd::std_specs::convert::FromSpecImpl<&'a str> for PasteMethod {
    open spec fn obeys_from_spec() -> bool {
        true
    }

    open spec fn from_spec(v: &'a str) -> PasteMethod {
        method_of(v@)
    }
}

/// One step of a paste.
#[derive(Clone, Copy, Debug, PartialEq, Eq, Structural)]
pub enum PasteStep {
    /// Save the clipboard's current content (files, image or text).
    BackupClipboard,
    /// Put the text on the clipboard.
    WriteClipboard,
    /// Wait this many milliseconds.
    Sleep(u64),
    /// Switch to an ASCII input source until the paste is over.
    SwitchToAscii,
    /// Press this combination.
    Press(KeyCombo),
    /// Put the saved content back.
    RestoreClipboard,
    /// Type the text into the active window.
    TypeText,
}

/// The steps of a paste with the given method and settings.
pub open spec fn paste_steps(method: PasteMethod, write_to_clipboard: bool, switch_ime: bool) -> Seq<
    PasteStep,
> {
    match method {
        PasteMethod::NoPaste => seq![PasteStep::WriteClipboard],
        PasteMethod::Clipboard => {
            let v = KeyCombo {
                modifier: KeyModifier::Command,
                key_code: KEY_V,
                target: KeyTarget::Broadcast,
            };
            (if write_to_clipboard {
                Seq::empty()
            } else {
                seq![PasteStep::BackupClipboard]
            }) + seq![PasteStep::WriteClipboard, PasteStep::Sleep(CLIPBOARD_SETTLE_MS)] + (
            if switch_ime {
                seq![PasteStep::SwitchToAscii]
            } else {
                Seq::empty()
            }) + seq![PasteStep::Press(v), PasteStep::Sleep(PASTE_RESTORE_DELAY_MS)] + (
            if write_to_clipboard {
                Seq::empty()
            } else {
                seq![PasteStep::RestoreClipboard]
            })
        },
        PasteMethod::Direct => if write_to_clipboard {
            seq![PasteStep::TypeText, PasteStep::WriteClipboard]
        } else {
            seq![PasteStep::TypeText]
        },
    }
}

/// The steps that paste transcribed text, from the paste method setting and
/// the two switches (keep the text on the clipboard; switch the input source).
pub fn paste(paste_method: &str, write_to_clipboard: bool, switch_ime: bool) -> (r: Vec<PasteStep>)
    ensures
        r@ == paste_steps(method_of(paste_method@), write_to_clipboard, switch_ime),
{
    let method = PasteMethod::from_setting(paste_method);
    let mut r: Vec<PasteStep> = Vec::new();
    match method {
        PasteMethod::NoPaste => {
            r.push(PasteStep::WriteClipboard);
        },
        PasteMethod::Clipboard => {
            if !write_to_clipboard {
                r.push(PasteStep::BackupClipboard);
            }
            r.push(PasteStep::WriteClipboard);
            r.push(PasteStep::Sleep(CLIPBOARD_SETTLE_MS));
            if switch_ime {
                r.push(PasteStep::SwitchToAscii);
            }
            r.push(PasteStep::Press(paste_combo()));
            r.push(PasteStep::Sleep(PASTE_RESTORE_DELAY_MS));
            if !write_to_clipboard {
                r.push(PasteStep::RestoreClipboard);
            }
        },
        PasteMethod::Direct => {
            r.push(PasteStep::TypeText);
            if write_to_clipboard {
                r.push(PasteStep::WriteClipboard);
            }
        },
    }
    assert(r@ =~= paste_steps(method, write_to_clipboard, switch_ime));
    r
}

/// Whenever the clipboard method is told not to keep the text, what it backs
/// up first it restores last, and the paste itself comes in between.
pub proof fn law_clipboard_is_restored(switch_ime: bool)
    ensures
        ({
            let s = paste_steps(PasteMethod::Clipboard, false, switch_ime);
            &&& s[0] == PasteStep::BackupClipboard
            &&& s.last() == PasteStep::RestoreClipboard
            &&& exists|i: int| 0 < i < s.len() - 1 && s[i] is Press
        }),
{
    let s = paste_steps(PasteMethod::Clipboard, false, switch_ime);
    if switch_ime {
        assert(s[4] is Press);
    } else {
        assert(s[3] is Press);
    }
}

} // verus!
