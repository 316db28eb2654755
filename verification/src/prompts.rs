//! Polishing prompts as the settings window manages them: titles must not be
//! blank, and deleting the active prompt makes the built-in one active again.
use vstd::prelude::*;
use crate::text::{chars_of, i64_decimal, owned, push_str, signed_decimal, trim, trim_bounds};

verus! {

/// A polishing prompt as the settings window lists it.
pub struct PromptInfo {
    pub id: i64,
    pub title: String,
    pub content: String,
    pub description: String,
    pub is_system: bool,
}

/// The built-in prompt, active when no other is.
pub const DEFAULT_PROMPT_ID: i64 = 1;

/// The active prompt from the stored setting (the built-in one when unset).
pub fn active_prompt_or_default(stored: Option<i64>) -> (id: i64)
    ensures
        id == (match stored {
            Some(s) => s,
            None => DEFAULT_PROMPT_ID,
        }),
{
    match stored {
        Some(s) => s,
        None => DEFAULT_PROMPT_ID,
    }
}

/// A new or edited prompt needs a title that is not blank.
pub fn check_prompt_title(title: &str) -> (r: Result<(), String>)
    ensures
        trim(title@).len() > 0 ==> r is Ok,
        trim(title@).len() == 0 ==> (r matches Err(e) && e@ == "title 不能为空"@),
{
    let v = chars_of(title);
    let (lo, hi) = trim_bounds(&v);
    if lo >= hi {
        return Err(owned("title 不能为空"));
    }
    Ok(())
}

/// Error for activating a prompt that does not exist.
pub fn missing_prompt_error(id: i64) -> (e: String)
    ensures
        e@ == "prompt id="@ + signed_decimal(id as int) + " 不存在"@,
{
    let mut e = owned("prompt id=");
    let d = i64_decimal(id);
    push_str(&mut e, d.as_str());
    push_str(&mut e, " 不存在");
    e
}

/// Whether editing prompt `id` changes the prompt in use (it is the active one).
pub fn refresh_after_update(active: i64, id: i64) -> (refresh: bool)
    ensures
        refresh == (active == id),
{
    active == id
}

/// The active prompt after prompt `deleted` is deleted.
pub open spec fn active_after_delete_spec(active: i64, deleted: i64) -> i64 {
    if active == deleted {
        DEFAULT_PROMPT_ID
    } else {
        active
    }
}

/// The active prompt after deleting `deleted`, and whether it changed (then
/// the built-in prompt is stored as active and put in use).
pub fn active_after_delete(active: i64, deleted: i64) -> (r: (i64, bool))
    ensures
        r.0 == active_after_delete_spec(active, deleted),
        r.1 == (active == deleted),
{
    if active == deleted {
        (DEFAULT_PROMPT_ID, true)
    } else {
        (active, false)
    }
}

/// Deleting the active prompt leaves the built-in prompt active; deleting
/// another leaves the active prompt as it was.
pub proof fn law_deleting_active_prompt_falls_back(active: i64, deleted: i64)
    ensures
        active == deleted ==> active_after_delete_spec(active, deleted) == DEFAULT_PROMPT_ID,
        active != deleted ==> active_after_delete_spec(active, deleted) == active,
{
}

} // verus!
