//! Paths selected in the Finder, read through an AppleScript run by `osascript`
//! with a time limit (a first automation-permission prompt must not hang the caller).
use vstd::prelude::*;
use crate::text::{chars_of, lines, owned, push_str, str_eq, trim, trimmed};
use crate::context_text::split_lines;

verus! {

/// Seconds an `osascript` run may take before it is abandoned.
pub const OSA_TIMEOUT_SECS: u64 = 5;

/// Bundle identifier of the Finder.
pub const FINDER_BUNDLE_ID: &'static str = "com.apple.finder";

/// Whether the front application is the Finder, from its bundle id.
pub fn is_finder_frontmost(frontmost_bundle_id: Option<&str>) -> (b: bool)
    ensures
        b == (match frontmost_bundle_id {
            Some(s) => s@ == FINDER_BUNDLE_ID@,
            None => false,
        }),
{
    match frontmost_bundle_id {
        Some(s) => str_eq(s, FINDER_BUNDLE_ID),
        None => false,
    }
}

/// How an `osascript` run ended.
pub enum OsaOutcome {
    /// The process exited; its status and output.
    Finished { success: bool, stdout: String, stderr: String },
    /// The process could not be started.
    SpawnFailed(String),
    /// It did not finish within the time limit.
    TimedOut,
    /// The thread that ran it went away without an answer.
    Disconnected,
}

/// Result of an `osascript` run: its output on success, else a message.
pub open spec fn osa_result(o: OsaOutcome) -> Result<Seq<char>, Seq<char>> {
    match o {
        OsaOutcome::Finished { success, stdout, stderr } => if success {
            Ok(stdout@)
        } else {
            Err(stderr@)
        },
        OsaOutcome::SpawnFailed(e) => Err("osascript 执行失败: "@ + e@),
        OsaOutcome::TimedOut => Err("osascript 超时（可能等待自动化权限对话框）"@),
        OsaOutcome::Disconnected => Err("osascript 线程异常退出"@),
    }
}

/// Maps how an `osascript` run ended to its output or an error message.
pub fn run_osascript_timeout(outcome: OsaOutcome) -> (r: Result<String, String>)
    ensures
        match (r, osa_result(outcome)) {
            (Ok(s), Ok(t)) => s@ == t,
            (Err(s), Err(t)) => s@ == t,
            _ => false,
        },
{
    match outcome {
        OsaOutcome::Finished { success, stdout, stderr } => {
            if success {
                Ok(stdout)
            } else {
                Err(stderr)
            }
        },
        OsaOutcome::SpawnFailed(e) => {
            let mut m = String::new();
            push_str(&mut m, "osascript 执行失败: ");
            push_str(&mut m, e.as_str());
            Err(m)
        },
        OsaOutcome::TimedOut => Err(owned("osascript 超时（可能等待自动化权限对话框）")),
        OsaOutcome::Disconnected => Err(owned("osascript 线程异常退出")),
    }
}

/// The script that lists the POSIX paths of the Finder selection, one per line.
pub open spec fn finder_script() -> Seq<char> {
    "\ntell application \"Finder\"\n    set sel to selection\n    if (count of sel) = 0 then return \"\"\n    set paths to \"\"\n    repeat with f in sel\n        set paths to paths & (POSIX path of (f as alias)) & linefeed\n    end repeat\n    return paths\nend tell\n"@
}

/// Text of the selection script.
pub fn finder_selection_script() -> (s: String)
    ensures
        s@ == finder_script(),
{
    owned("\ntell application \"Finder\"\n    set sel to selection\n    if (count of sel) = 0 then return \"\"\n    set paths to \"\"\n    repeat with f in sel\n        set paths to paths & (POSIX path of (f as alias)) & linefeed\n    end repeat\n    return paths\nend tell\n")
}

/// The trimmed lines that are not empty, in order.
pub open spec fn nonempty_trimmed(ls: Seq<Seq<char>>) -> Seq<Seq<char>>
    decreases ls.len(),
{
    if ls.len() == 0 {
        Seq::empty()
    } else {
        let r = nonempty_trimmed(ls.drop_last());
        if trim(ls.last()).len() == 0 {
            r
        } else {
            r.push(trim(ls.last()))
        }
    }
}

/// The selected paths from the script's run: each output line trimmed, empty
/// lines dropped; a failed run gives its message.
pub fn get_finder_selection(outcome: OsaOutcome) -> (r: Result<Vec<String>, String>)
    ensures
        match (r, osa_result(outcome)) {
            (Ok(v), Ok(out)) => v@.map_values(|s: String| s@) == nonempty_trimmed(lines(out)),
            (Err(s), Err(t)) => s@ == t,
            _ => false,
        },
{
    let out = match run_osascript_timeout(outcome) {
        Ok(s) => s,
        Err(e) => return Err(e),
    };
    let v = chars_of(out.as_str());
    let ls = split_lines(&v);
    let ghost lsv = Seq::new(ls@.len(), |i: int| ls@[i]@);
    assert(lsv == lines(out@));
    let mut files: Vec<String> = Vec::new();
    let mut i: usize = 0;
    while i < ls.len()
        invariant
            i <= ls@.len(),
            lsv == Seq::new(ls@.len(), |k: int| ls@[k]@),
            files@.map_values(|s: String| s@) == nonempty_trimmed(lsv.take(i as int)),
        decreases ls@.len() - i,
    {
        proof {
            assert(lsv.take(i + 1).drop_last() =~= lsv.take(i as int));
        }
        let t = trimmed(ls[i].as_slice());
        if !t.as_str().is_empty() {
            files.push(t);
        }
        assert(files@.map_values(|s: String| s@) =~= nonempty_trimmed(lsv.take(i + 1)));
        i = i + 1;
    }
    assert(lsv.take(ls@.len() as int) =~= lsv);
    Ok(files)
}

} // verus!
