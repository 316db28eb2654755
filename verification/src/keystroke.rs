//! Simulated key presses: which events to post, to whom, and when to fall back
//! to an AppleScript `keystroke`.
//!
//! Posting events is the caller's job; these functions decide what is posted.
//! A combination is a key-down followed by a key-up of the same key with the
//! modifier flags set, either broadcast to the HID event stream or delivered
//! to one process. Applications that embed a `WKWebView` ignore injected events
//! and get a System Events `keystroke` script instead.
use vstd::prelude::*;
use crate::text::{owned, push_str, str_eq};

verus! {

/// Virtual key codes of the US layout (low byte of `CGKeyCode`).
pub const KEY_A: u8 = 0x00;
pub const KEY_S: u8 = 0x01;
pub const KEY_D: u8 = 0x02;
pub const KEY_F: u8 = 0x03;
pub const KEY_H: u8 = 0x04;
pub const KEY_Z: u8 = 0x06;
pub const KEY_X: u8 = 0x07;
pub const KEY_C: u8 = 0x08;
pub const KEY_V: u8 = 0x09;
pub const KEY_B: u8 = 0x0B;
pub const KEY_Q: u8 = 0x0C;
pub const KEY_W: u8 = 0x0D;
pub const KEY_E: u8 = 0x0E;
pub const KEY_R: u8 = 0x0F;
pub const KEY_T: u8 = 0x11;
pub const KEY_Y: u8 = 0x10;
pub const KEY_RETURN: u8 = 0x24;
pub const KEY_TAB: u8 = 0x30;
pub const KEY_SPACE: u8 = 0x31;
pub const KEY_DELETE: u8 = 0x33;
pub const KEY_ESCAPE: u8 = 0x35;
pub const KEY_COMMAND: u8 = 0x37;
pub const KEY_SHIFT: u8 = 0x38;
pub const KEY_OPTION: u8 = 0x3A;
pub const KEY_CONTROL: u8 = 0x3B;

/// Event flag masks (`CGEventFlags`).
pub const FLAG_SHIFT: u64 = 0x0002_0000;
pub const FLAG_CONTROL: u64 = 0x0004_0000;
pub const FLAG_ALTERNATE: u64 = 0x0008_0000;
pub const FLAG_COMMAND: u64 = 0x0010_0000;

/// The bundle identifier of the one application known to need the script path.
pub const WKWEBVIEW_FALLBACK_APP: &'static str = "com.tencent.xinWeChat";

/// Modifier held during a key press.
#[derive(Clone, Copy, Debug, PartialEq, Eq, Structural)]
pub enum KeyModifier {
    NoModifier,
    Command,
    Shift,
    Control,
    Option,
    CommandShift,
}

/// Where a key event goes: the global HID stream or one process.
#[derive(Clone, Copy, Debug, PartialEq, Eq, Structural)]
pub enum KeyTarget {
    Broadcast,
    Pid(i32),
}

/// A modifier + key combination and its destination.
#[derive(Clone, Copy, Debug, PartialEq, Eq, Structural)]
pub struct KeyCombo {
    pub modifier: KeyModifier,
    pub key_code: u8,
    pub target: KeyTarget,
}

/// One keyboard event to post.
#[derive(Clone, Copy, Debug, PartialEq, Eq, Structural)]
pub struct KeyEvent {
    pub key_code: u16,
    pub key_down: bool,
    pub flags: u64,
    pub target: KeyTarget,
}

/// A key press to perform: posted events, or an AppleScript run by `osascript`.
#[derive(Debug)]
pub enum KeySend {
    Combo(KeyCombo),
    Script(String),
}

/// The event flags that `m` sets.
pub open spec fn spec_modifier_flags(m: KeyModifier) -> u64 {
    match m {
        KeyModifier::NoModifier => 0,
        KeyModifier::Command => FLAG_COMMAND,
        KeyModifier::Shift => FLAG_SHIFT,
        KeyModifier::Control => FLAG_CONTROL,
        KeyModifier::Option => FLAG_ALTERNATE,
        KeyModifier::CommandShift => (FLAG_COMMAND | FLAG_SHIFT),
    }
}

/// Event flags of a modifier.
pub fn modifier_flags(m: KeyModifier) -> (f: u64)
    ensures
        f == spec_modifier_flags(m),
{
    match m {
        KeyModifier::NoModifier => 0,
        KeyModifier::Command => FLAG_COMMAND,
        KeyModifier::Shift => FLAG_SHIFT,
        KeyModifier::Control => FLAG_CONTROL,
        KeyModifier::Option => FLAG_ALTERNATE,
        KeyModifier::CommandShift => FLAG_COMMAND | FLAG_SHIFT,
    }
}

/// Whether the application needs the AppleScript fallback.
pub open spec fn spec_needs_fallback(bundle_id: Option<Seq<char>>) -> bool {
    match bundle_id {
        Some(b) => b == WKWEBVIEW_FALLBACK_APP@,
        None => false,
    }
}

/// Whether a bundle id names an application that embeds a `WKWebView` and does
/// not react to injected key events (the fallback list holds WeChat).
pub fn needs_osascript_fallback(bundle_id: Option<&str>) -> (b: bool)
    ensures
        b == spec_needs_fallback(
            match bundle_id {
                Some(s) => Some(s@),
                None => None,
            },
        ),
{
    match bundle_id {
        Some(bid) => str_eq(bid, WKWEBVIEW_FALLBACK_APP),
        None => false,
    }
}

/// The applications that get the AppleScript fallback.
pub fn wkwebview_fallback_apps() -> (r: Vec<String>)
    ensures
        r@.len() == 1,
        r@[0]@ == WKWEBVIEW_FALLBACK_APP@,
{
    let mut r: Vec<String> = Vec::new();
    r.push(owned(WKWEBVIEW_FALLBACK_APP));
    r
}

/// A combination broadcast to the global event stream (native applications).
pub fn send_key_combo(modifier: KeyModifier, key_code: u8) -> (c: KeyCombo)
    ensures
        c == (KeyCombo { modifier, key_code, target: KeyTarget::Broadcast }),
{
    KeyCombo { modifier, key_code, target: KeyTarget::Broadcast }
}

/// Where a combination aimed at `pid` goes: a positive pid gets it directly
/// (Electron applications ignore broadcast events), any other pid means broadcast.
pub open spec fn pid_target(pid: i32) -> KeyTarget {
    if pid <= 0 {
        KeyTarget::Broadcast
    } else {
        KeyTarget::Pid(pid)
    }
}

/// A combination delivered to process `pid`; `pid <= 0` broadcasts.
pub fn send_key_combo_to_pid(modifier: KeyModifier, key_code: u8, pid: i32) -> (c: KeyCombo)
    ensures
        c == (KeyCombo { modifier, key_code, target: pid_target(pid) }),
{
    if pid <= 0 {
        return send_key_combo(modifier, key_code);
    }
    KeyCombo { modifier, key_code, target: KeyTarget::Pid(pid) }
}

/// The two events of a combination: key down, then key up, both with the
/// modifier's flags and the combination's target.
pub open spec fn spec_key_events(c: KeyCombo) -> Seq<KeyEvent> {
    seq![
        KeyEvent { key_code: c.key_code as u16, key_down: true, flags: spec_modifier_flags(c.modifier), target: c.target },
        KeyEvent { key_code: c.key_code as u16, key_down: false, flags: spec_modifier_flags(c.modifier), target: c.target },
    ]
}

/// The events that post a combination.
pub fn key_events(c: KeyCombo) -> (r: Vec<KeyEvent>)
    ensures
        r@ == spec_key_events(c),
{
    let flags = modifier_flags(c.modifier);
    let code: u16 = c.key_code as u16;
    let mut r: Vec<KeyEvent> = Vec::new();
    r.push(KeyEvent { key_code: code, key_down: true, flags, target: c.target });
    r.push(KeyEvent { key_code: code, key_down: false, flags, target: c.target });
    assert(r@ =~= spec_key_events(c));
    r
}

/// The System Events script that types `key` with the modifiers `using`
/// (such as `command down`) into the frontmost process and returns its name.
/// The keystroke is sent inside the System Events block, not inside a
/// `tell` of the process, which is what makes it reach embedded web views.
pub open spec fn keystroke_script(key: Seq<char>, using: Seq<char>) -> Seq<char> {
    "tell application \"System Events\"\n            set frontProc to first process whose frontmost is true\n            set procName to name of frontProc\n            keystroke \""@
        + key + "\" using "@ + using
        + "\n            return procName\n        end tell"@
}

/// The AppleScript of an `osascript` keystroke.
pub fn send_via_osascript(key_char: &str, using: &str) -> (s: String)
    ensures
        s@ == keystroke_script(key_char@, using@),
{
    let mut s = String::new();
    push_str(
        &mut s,
        "tell application \"System Events\"\n            set frontProc to first process whose frontmost is true\n            set procName to name of frontProc\n            keystroke \"",
    );
    push_str(&mut s, key_char);
    push_str(&mut s, "\" using ");
    push_str(&mut s, using);
    push_str(&mut s, "\n            return procName\n        end tell");
    s
}

/// Cmd+C, broadcast.
pub fn copy() -> (c: KeyCombo)
    ensures
        c == (KeyCombo { modifier: KeyModifier::Command, key_code: KEY_C, target: KeyTarget::Broadcast }),
{
    send_key_combo(KeyModifier::Command, KEY_C)
}

/// Cmd+V, broadcast.
pub fn paste() -> (c: KeyCombo)
    ensures
        c == (KeyCombo { modifier: KeyModifier::Command, key_code: KEY_V, target: KeyTarget::Broadcast }),
{
    send_key_combo(KeyModifier::Command, KEY_V)
}

/// Cmd+V delivered to `pid`.
pub fn paste_to_pid(pid: i32) -> (c: KeyCombo)
    ensures
        c == (KeyCombo { modifier: KeyModifier::Command, key_code: KEY_V, target: pid_target(pid) }),
{
    send_key_combo_to_pid(KeyModifier::Command, KEY_V, pid)
}

/// Cmd+C delivered to `pid`.
pub fn copy_to_pid(pid: i32) -> (c: KeyCombo)
    ensures
        c == (KeyCombo { modifier: KeyModifier::Command, key_code: KEY_C, target: pid_target(pid) }),
{
    send_key_combo_to_pid(KeyModifier::Command, KEY_C, pid)
}

/// Cmd+C through System Events.
pub fn copy_via_osascript() -> (s: String)
    ensures
        s@ == keystroke_script("c"@, "command down"@),
{
    send_via_osascript("c", "command down")
}

/// Cmd+V through System Events.
pub fn paste_via_osascript() -> (s: String)
    ensures
        s@ == keystroke_script("v"@, "command down"@),
{
    send_via_osascript("v", "command down")
}

/// Cmd+X, broadcast.
pub fn cut() -> (c: KeyCombo)
    ensures
        c == (KeyCombo { modifier: KeyModifier::Command, key_code: KEY_X, target: KeyTarget::Broadcast }),
{
    send_key_combo(KeyModifier::Command, KEY_X)
}

/// Cmd+A, broadcast.
pub fn select_all() -> (c: KeyCombo)
    ensures
        c == (KeyCombo { modifier: KeyModifier::Command, key_code: KEY_A, target: KeyTarget::Broadcast }),
{
    send_key_combo(KeyModifier::Command, KEY_A)
}

} // verus!
