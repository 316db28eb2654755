//! Temporary switch to an ASCII keyboard layout around a simulated paste.
//!
//! A CJK input method in the middle of composing can garble a Cmd+V. Before
//! pasting, the current input source is read; unless it already is an ASCII
//! layout, the ABC layout is selected (the US layout when ABC cannot be), and
//! the previous source is selected again once the paste is done. The sources
//! are read and selected by small JavaScript for Automation scripts that the
//! caller runs with `osascript`; this module writes the scripts, reads their
//! output and decides the next step.
use vstd::prelude::*;
use crate::text::{owned, push_str, str_eq, trim, trimmed, chars_of};

verus! {

/// Identifier of the ABC layout.
pub const ABC_LAYOUT: &'static str = "com.apple.keylayout.ABC";

/// Identifier of the US layout.
pub const US_LAYOUT: &'static str = "com.apple.keylayout.US";

/// Whether an input source id is one of the two ASCII layouts.
pub open spec fn spec_is_ascii_id(id: Seq<char>) -> bool {
    id == ABC_LAYOUT@ || id == US_LAYOUT@
}

/// Whether an input source id is an ASCII layout (ABC or US).
pub fn is_ascii_id(id: &str) -> (b: bool)
    ensures
        b == spec_is_ascii_id(id@),
{
    str_eq(id, ABC_LAYOUT) || str_eq(id, US_LAYOUT)
}

/// Holds the input source to select again after the paste.
pub struct InputSourceGuard {
    pub previous_id: String,
}

/// The next thing to do while switching: select a source and report back, or stop.
pub enum SwitchStep {
    Select(String),
    Done(Option<InputSourceGuard>),
}

/// A switch step by value.
pub enum StepView {
    Select(Seq<char>),
    Done(Option<Seq<char>>),
}

/// A step by value: the source to select, or the source a guard restores.
pub open spec fn step_view(s: SwitchStep) -> StepView {
    match s {
        SwitchStep::Select(id) => StepView::Select(id@),
        SwitchStep::Done(g) => StepView::Done(match g {
            Some(guard) => Some(guard.previous_id@),
            None => None,
        }),
    }
}

/// First step of a switch from `current`.
pub open spec fn start_step(current: Option<Seq<char>>) -> StepView {
    match current {
        Some(id) => if spec_is_ascii_id(id) {
            StepView::Done(None)
        } else {
            StepView::Select(ABC_LAYOUT@)
        },
        None => StepView::Done(None),
    }
}

/// Step after selecting `tried` with outcome `ok`, switching from `current`.
pub open spec fn next_step(current: Seq<char>, tried: Seq<char>, ok: bool) -> StepView {
    if ok {
        StepView::Done(Some(current))
    } else if tried == ABC_LAYOUT@ {
        StepView::Select(US_LAYOUT@)
    } else {
        StepView::Done(None)
    }
}

/// From a source that is not an ASCII layout, the switch tries ABC, then
/// US, and no more; whenever it switched, the guard selects the previous
/// source again after the paste. From an ASCII layout nothing is switched.
pub proof fn law_switch_restores_previous_source(id: Seq<char>, abc_ok: bool, us_ok: bool)
    ensures
        spec_is_ascii_id(id) ==> start_step(Some(id)) == StepView::Done(None),
        !spec_is_ascii_id(id) ==> {
            &&& start_step(Some(id)) == StepView::Select(ABC_LAYOUT@)
            &&& abc_ok ==> next_step(id, ABC_LAYOUT@, abc_ok) == StepView::Done(Some(id))
            &&& !abc_ok ==> next_step(id, ABC_LAYOUT@, abc_ok) == StepView::Select(US_LAYOUT@)
            &&& next_step(id, US_LAYOUT@, us_ok) == (if us_ok {
                StepView::Done(Some(id))
            } else {
                StepView::Done(None)
            })
        },
{
    assert(US_LAYOUT@ != ABC_LAYOUT@) by {
        reveal_strlit("com.apple.keylayout.US");
        reveal_strlit("com.apple.keylayout.ABC");
        assert(US_LAYOUT@.len() != ABC_LAYOUT@.len());
    }
}

impl InputSourceGuard {
    /// First step of the switch, from the current source id (`None` when it
    /// could not be read): nothing to do when unknown or already ASCII, else
    /// select the ABC layout.
    pub fn switch_to_ascii(current: Option<String>) -> (r: SwitchStep)
        ensures
            step_view(r) == start_step(crate::text::opt_seq(current)),
            match current {
                Some(id) => if spec_is_ascii_id(id@) {
                    r matches SwitchStep::Done(g) && g is None
                } else {
                    r matches SwitchStep::Select(s) && s@ == ABC_LAYOUT@
                },
                None => r matches SwitchStep::Done(g) && g is None,
            },
    {
        match current {
            Some(id) => {
                if is_ascii_id(&id) {
                    SwitchStep::Done(None)
                } else {
                    SwitchStep::Select(owned(ABC_LAYOUT))
                }
            },
            None => SwitchStep::Done(None),
        }
    }

    /// Next step after selecting `tried` with outcome `ok`, the source in use before
    /// being `current`: success keeps `current` to restore; a failed ABC
    /// selection falls back to US; a failed US selection gives up.
    pub fn after_select(current: String, tried: &str, ok: bool) -> (r: SwitchStep)
        ensures
            step_view(r) == next_step(current@, tried@, ok),
            ok ==> (r matches SwitchStep::Done(g) && g matches Some(guard) && guard.previous_id@
                == current@),
            !ok && tried@ == ABC_LAYOUT@ ==> (r matches SwitchStep::Select(s) && s@
                == US_LAYOUT@),
            !ok && tried@ != ABC_LAYOUT@ ==> (r matches SwitchStep::Done(g) && g is None),
    {
        if ok {
            SwitchStep::Done(Some(InputSourceGuard { previous_id: current }))
        } else if str_eq(tried, ABC_LAYOUT) {
            SwitchStep::Select(owned(US_LAYOUT))
        } else {
            SwitchStep::Done(None)
        }
    }

    /// The source to select again when the guard is dropped.
    pub fn restore_id(&self) -> (s: String)
        ensures
            s@ == self.previous_id@,
    {
        owned(self.previous_id.as_str())
    }
}

/// Start of the switch used before a paste.
pub fn switch_to_ascii_for_paste(current: Option<String>) -> (r: SwitchStep)
    ensures
        match current {
            Some(id) => if spec_is_ascii_id(id@) {
                r matches SwitchStep::Done(g) && g is None
            } else {
                r matches SwitchStep::Select(s) && s@ == ABC_LAYOUT@
            },
            None => r matches SwitchStep::Done(g) && g is None,
        },
{
    InputSourceGuard::switch_to_ascii(current)
}

/// The script that prints the current input source id.
pub open spec fn read_source_script() -> Seq<char> {
    "\nObjC.import('Carbon')\nconst src = $.TISCopyCurrentKeyboardInputSource();\nconst idRef = $.TISGetInputSourceProperty(src, $('TISPropertyInputSourceID').jsObject);\nconst id = ObjC.unwrap(ObjC.unwrap(idRef).toString).js;\nid;\n"@
}

/// The script that selects the enabled input source `id` and prints `true`
/// when that succeeded.
pub open spec fn select_source_script(id: Seq<char>) -> Seq<char> {
    "\nObjC.import('Carbon')\nconst list = $.TISCreateInputSourceList(null, false).jsObject;\nconst count = $.CFArrayGetCount(list);\nlet ok = false;\nfor (let i = 0; i < count; i++) {\n    const src = $.CFArrayGetValueAtIndex(list, i);\n    const idRef = $.TISGetInputSourceProperty(src, $('TISPropertyInputSourceID').jsObject);\n    const srcId = ObjC.unwrap(ObjC.unwrap(idRef).toString).js;\n    if (srcId === '"@ + id
        + "') {\n        const status = $.TISSelectInputSource(src);\n        ok = (status === 0);\n        break;\n    }\n}\nok ? 'true' : 'false';\n"@
}

/// Text of the script that reads the current source.
pub fn read_current_source_script() -> (s: String)
    ensures
        s@ == read_source_script(),
{
    owned("\nObjC.import('Carbon')\nconst src = $.TISCopyCurrentKeyboardInputSource();\nconst idRef = $.TISGetInputSourceProperty(src, $('TISPropertyInputSourceID').jsObject);\nconst id = ObjC.unwrap(ObjC.unwrap(idRef).toString).js;\nid;\n")
}

/// Text of the script that selects `id`.
pub fn select_source(id: &str) -> (s: String)
    ensures
        s@ == select_source_script(id@),
{
    let mut s = String::new();
    push_str(&mut s, "\nObjC.import('Carbon')\nconst list = $.TISCreateInputSourceList(null, false).jsObject;\nconst count = $.CFArrayGetCount(list);\nlet ok = false;\nfor (let i = 0; i < count; i++) {\n    const src = $.CFArrayGetValueAtIndex(list, i);\n    const idRef = $.TISGetInputSourceProperty(src, $('TISPropertyInputSourceID').jsObject);\n    const srcId = ObjC.unwrap(ObjC.unwrap(idRef).toString).js;\n    if (srcId === '");
    push_str(&mut s, id);
    push_str(&mut s, "') {\n        const status = $.TISSelectInputSource(src);\n        ok = (status === 0);\n        break;\n    }\n}\nok ? 'true' : 'false';\n");
    s
}

/// The current source id printed by the read script: the trimmed output,
/// `None` when that is empty.
pub fn read_current_source_id(stdout: &str) -> (r: Option<String>)
    ensures
        trim(stdout@).len() == 0 ==> r is None,
        trim(stdout@).len() > 0 ==> (r matches Some(s) && s@ == trim(stdout@)),
{
    let v = chars_of(stdout);
    let s = trimmed(&v);
    if s.as_str().is_empty() {
        None
    } else {
        Some(s)
    }
}

/// Whether the select script reported success: its trimmed output is `true`.
pub fn select_succeeded(stdout: &str) -> (b: bool)
    ensures
        b == (trim(stdout@) == "true"@),
{
    let v = chars_of(stdout);
    let s = trimmed(&v);
    str_eq(s.as_str(), "true")
}

} // verus!
