//! Showing a file in the file manager and opening a URL or file with its
//! default application: which command each platform runs, and the error
//! when it fails.
use vstd::prelude::*;
use crate::text::{owned, push_str};

verus! {

/// Desktop platforms.
#[derive(Clone, Copy, Debug, PartialEq, Eq, Structural)]
pub enum Platform {
    MacOs,
    Windows,
    Linux,
}

/// A command to run.
pub struct Launch {
    pub program: String,
    pub args: Vec<String>,
    /// Whether a failing exit status is an error (otherwise the command is
    /// started and not waited for).
    pub check_status: bool,
}

/// A command by value.
pub open spec fn launch_view(l: Launch) -> (Seq<char>, Seq<Seq<char>>, bool) {
    (l.program@, Seq::new(l.args@.len(), |i: int| l.args@[i]@), l.check_status)
}

/// The command that shows `path` in the file manager; on Linux the folder
/// `dir` (the path's parent, or the path itself) is opened instead.
pub open spec fn reveal_spec(p: Platform, path: Seq<char>, dir: Seq<char>) -> (Seq<char>, Seq<Seq<char>>, bool) {
    match p {
        Platform::MacOs => ("open"@, seq!["-R"@, path], true),
        Platform::Windows => ("explorer"@, seq!["/select,"@ + path], false),
        Platform::Linux => ("xdg-open"@, seq![dir], false),
    }
}

/// How to show `path` in the file manager (Finder selects it, Explorer
/// selects it, Linux opens the folder `dir`).
pub fn reveal_path(p: Platform, path: &str, dir: &str) -> (l: Launch)
    ensures
        launch_view(l) == reveal_spec(p, path@, dir@),
{
    let l = match p {
        Platform::MacOs => Launch {
            program: owned("open"),
            args: vec![owned("-R"), owned(path)],
            check_status: true,
        },
        Platform::Windows => {
            let mut a = owned("/select,");
            push_str(&mut a, path);
            Launch { program: owned("explorer"), args: vec![a], check_status: false }
        },
        Platform::Linux => Launch {
            program: owned("xdg-open"),
            args: vec![owned(dir)],
            check_status: false,
        },
    };
    assert(launch_view(l).1 =~= reveal_spec(p, path@, dir@).1);
    l
}

/// The command that opens `target` with its default application.
pub open spec fn open_spec(p: Platform, target: Seq<char>) -> (Seq<char>, Seq<Seq<char>>, bool) {
    match p {
        Platform::MacOs => ("open"@, seq![target], true),
        Platform::Windows => ("cmd"@, seq!["/c"@, "start"@, ""@, target], true),
        Platform::Linux => ("xdg-open"@, seq![target], true),
    }
}

/// How to open a URL or file with its default application; the exit status
/// is checked on every platform.
pub fn open_with_default(p: Platform, target: &str) -> (l: Launch)
    ensures
        launch_view(l) == open_spec(p, target@),
{
    let l = match p {
        Platform::MacOs => Launch { program: owned("open"), args: vec![owned(target)], check_status: true },
        Platform::Windows => Launch {
            program: owned("cmd"),
            args: vec![owned("/c"), owned("start"), owned(""), owned(target)],
            check_status: true,
        },
        Platform::Linux => Launch { program: owned("xdg-open"), args: vec![owned(target)], check_status: true },
    };
    assert(launch_view(l).1 =~= open_spec(p, target@).1);
    l
}

/// Error when showing `path` failed with exit status `status` (as the
/// status is written).
pub fn reveal_failed(status: &str, path: &str) -> (e: String)
    ensures
        e@ == "定位失败（exit "@ + status@ + "）: "@ + path@,
{
    let mut e = owned("定位失败（exit ");
    push_str(&mut e, status);
    push_str(&mut e, "）: ");
    push_str(&mut e, path);
    e
}

/// Error when opening `target` failed with exit status `status`.
pub fn open_failed(status: &str, target: &str) -> (e: String)
    ensures
        e@ == "打开失败（exit "@ + status@ + "）: "@ + target@,
{
    let mut e = owned("打开失败（exit ");
    push_str(&mut e, status);
    push_str(&mut e, "）: ");
    push_str(&mut e, target);
    e
}

} // verus!
