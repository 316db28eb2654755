//! Ending a recording: finding its file when the recorder did not report it,
//! and deciding whether the file is kept, discarded or refused as broken.
use vstd::prelude::*;
use crate::text::{ends_with, i64_decimal, owned, push_str, signed_decimal, starts_with, str_ends_with, str_starts_with};

verus! {

/// The end of every file name that the recorder gives recording `id`.
pub open spec fn recording_suffix(id: int) -> Seq<char> {
    "_"@ + signed_decimal(id) + ".mp4"@
}

/// `_<id>.mp4`.
pub fn recording_file_suffix(id: i64) -> (s: String)
    ensures
        s@ == recording_suffix(id as int),
{
    let mut s = owned("_");
    let d = i64_decimal(id);
    push_str(&mut s, d.as_str());
    push_str(&mut s, ".mp4");
    s
}

/// The first of the directory's file names that belongs to recording `id`.
pub fn find_recording_file(names: &Vec<String>, id: i64) -> (r: Option<usize>)
    ensures
        match r {
            Some(i) => {
                &&& i < names@.len()
                &&& ends_with(names@[i as int]@, recording_suffix(id as int))
                &&& forall|j: int| 0 <= j < i ==> !ends_with(#[trigger] names@[j]@, recording_suffix(id as int))
            },
            None => forall|j: int| 0 <= j < names@.len() ==> !ends_with(#[trigger] names@[j]@, recording_suffix(id as int)),
        },
{
    let suffix = recording_file_suffix(id);
    let mut i: usize = 0;
    while i < names.len()
        invariant
            i <= names@.len(),
            suffix@ == recording_suffix(id as int),
            forall|j: int| 0 <= j < i ==> !ends_with(#[trigger] names@[j]@, recording_suffix(id as int)),
        decreases names@.len() - i,
    {
        if str_ends_with(names[i].as_str(), suffix.as_str()) {
            return Some(i);
        }
        i = i + 1;
    }
    None
}

/// What to do with a stopped recording's file.
#[derive(Clone, Copy, Debug, PartialEq, Eq, Structural)]
pub enum StopStep {
    /// The file is missing or empty: report it.
    Broken,
    /// The user discarded the recording: delete the file, store nothing.
    Discard,
    /// Store the recording.
    Store,
}

/// The step for a file of length `file_len` (none: missing).
pub open spec fn stop_step(file_len: Option<u64>, discard: bool) -> StopStep {
    match file_len {
        None => StopStep::Broken,
        Some(n) => if n == 0 {
            StopStep::Broken
        } else if discard {
            StopStep::Discard
        } else {
            StopStep::Store
        },
    }
}

/// A missing or empty file is refused before a discard is honoured.
pub fn stop_store_step(file_len: Option<u64>, discard: bool) -> (s: StopStep)
    ensures
        s == stop_step(file_len, discard),
{
    match file_len {
        None => StopStep::Broken,
        Some(n) => if n == 0 {
            StopStep::Broken
        } else if discard {
            StopStep::Discard
        } else {
            StopStep::Store
        },
    }
}

/// Error for a broken recording file.
pub open spec fn broken_file_error(path: Seq<char>) -> Seq<char> {
    "录制文件异常: "@ + path
}

/// The error reported for a missing or empty recording file at `path`.
pub fn broken_file_message(path: &str) -> (e: String)
    ensures
        e@ == broken_file_error(path@),
{
    let mut e = owned("录制文件异常: ");
    push_str(&mut e, path);
    e
}


/// Whether `name` is a subtitle file of the recording whose file stem is
/// `stem`: it starts with `<stem>.` and ends with `.srt` (`<stem>.2.srt`, and
/// `<stem>.srt` too).
pub open spec fn is_subtitle_of(name: Seq<char>, stem: Seq<char>) -> bool {
    starts_with(name, stem + "."@) && ends_with(name, ".srt"@)
}

/// Indices of the file names in a recording's folder that are its subtitle
/// files, in order; a permanent delete removes them with the recording.
pub fn subtitle_files(names: &Vec<String>, stem: &str) -> (r: Vec<usize>)
    ensures
        forall|k: int| 0 <= k < r@.len() ==> (#[trigger] r@[k]) < names@.len() && is_subtitle_of(names@[r@[k] as int]@, stem@),
        forall|k: int, l: int| 0 <= k < l < r@.len() ==> r@[k] < r@[l],
        forall|j: int| 0 <= j < names@.len() && is_subtitle_of(#[trigger] names@[j]@, stem@) ==> r@.contains(j as usize),
{
    let mut prefix = owned(stem);
    push_str(&mut prefix, ".");
    let mut r: Vec<usize> = Vec::new();
    let mut i: usize = 0;
    while i < names.len()
        invariant
            i <= names@.len(),
            prefix@ == stem@ + "."@,
            forall|k: int| 0 <= k < r@.len() ==> (#[trigger] r@[k]) < i && is_subtitle_of(names@[r@[k] as int]@, stem@),
            forall|k: int, l: int| 0 <= k < l < r@.len() ==> r@[k] < r@[l],
            forall|j: int| 0 <= j < i && is_subtitle_of(#[trigger] names@[j]@, stem@) ==> r@.contains(j as usize),
        decreases names@.len() - i,
    {
        let n = names[i].as_str();
        if str_starts_with(n, prefix.as_str()) && str_ends_with(n, ".srt") {
            let ghost old_r = r@;
            r.push(i);
            proof {
                assert(r@[old_r.len() as int] == i);
                assert forall|j: int| 0 <= j <= i && is_subtitle_of(#[trigger] names@[j]@, stem@) implies r@.contains(j as usize) by {
                    if j < i {
                        let k = choose|k: int| 0 <= k < old_r.len() && old_r[k] == j as usize;
                        assert(r@[k] == old_r[k]);
                    } else {
                        assert(r@[old_r.len() as int] == j as usize);
                    }
                }
            }
        }
        i = i + 1;
    }
    r
}

} // verus!
