//! Finding the document behind a window: accessibility error texts, file
//! names taken from window titles, path components, `lsof` output, and the
//! Sublime Text session file.
use vstd::prelude::*;
use crate::text::{
    chars_of, contains, contains_chars, find, first_occurrence, occurs_at, owned, split_char,
    split_on, starts_with, str_eq, str_starts_with, string_of, trim, trimmed,
};
use crate::context_text::split_lines;
use crate::unicode::{spec_lowercase, to_lowercase};
use crate::json::{array_of, field, get, get_array, parse_json, spec_json, str_of, JsonValue};

verus! {

/// Description of an accessibility (`AXError`) code.
pub open spec fn ax_error_text(err: i32) -> Seq<char> {
    if err == 0 {
        "kAXErrorSuccess (成功)"@
    } else if err == -25200 {
        "kAXErrorFailure (通用失败)"@
    } else if err == -25202 {
        "kAXErrorIllegalArgument (非法参数)"@
    } else if err == -25203 {
        "kAXErrorInvalidUIElement (无效 UI 元素)"@
    } else if err == -25204 {
        "kAXErrorInvalidUIElementObserver (无效观察者)"@
    } else if err == -25205 {
        "kAXErrorCannotComplete (操作无法完成)"@
    } else if err == -25206 {
        "kAXErrorAttributeUnsupported (属性不支持)"@
    } else if err == -25207 {
        "kAXErrorActionUnsupported (动作不支持)"@
    } else if err == -25208 {
        "kAXErrorNotificationUnsupported (通知不支持)"@
    } else if err == -25209 {
        "kAXErrorNotImplemented (未实现)"@
    } else if err == -25210 {
        "kAXErrorNotificationAlreadyRegistered (通知已注册)"@
    } else if err == -25211 {
        "kAXErrorNotificationNotRegistered (通知未注册)"@
    } else if err == -25212 {
        "kAXErrorAPIDisabled (AX API 被禁用——检查辅助功能权限)"@
    } else if err == -25213 {
        "kAXErrorNoValue (无值)"@
    } else if err == -25214 {
        "kAXErrorParameterizedAttributeUnsupported (参数化属性不支持)"@
    } else if err == -25215 {
        "kAXErrorNotEnoughPrecision (精度不足)"@
    } else {
        "未知 AX 错误码"@
    }
}

/// Human-readable description of an accessibility error code.
pub fn ax_error_desc(err: i32) -> (r: &'static str)
    ensures
        r@ == ax_error_text(err),
{
    match err {
        0 => "kAXErrorSuccess (成功)",
        -25200 => "kAXErrorFailure (通用失败)",
        -25202 => "kAXErrorIllegalArgument (非法参数)",
        -25203 => "kAXErrorInvalidUIElement (无效 UI 元素)",
        -25204 => "kAXErrorInvalidUIElementObserver (无效观察者)",
        -25205 => "kAXErrorCannotComplete (操作无法完成)",
        -25206 => "kAXErrorAttributeUnsupported (属性不支持)",
        -25207 => "kAXErrorActionUnsupported (动作不支持)",
        -25208 => "kAXErrorNotificationUnsupported (通知不支持)",
        -25209 => "kAXErrorNotImplemented (未实现)",
        -25210 => "kAXErrorNotificationAlreadyRegistered (通知已注册)",
        -25211 => "kAXErrorNotificationNotRegistered (通知未注册)",
        -25212 => "kAXErrorAPIDisabled (AX API 被禁用——检查辅助功能权限)",
        -25213 => "kAXErrorNoValue (无值)",
        -25214 => "kAXErrorParameterizedAttributeUnsupported (参数化属性不支持)",
        -25215 => "kAXErrorNotEnoughPrecision (精度不足)",
        _ => "未知 AX 错误码",
    }
}

/// The components of a `/`-separated path that carry a name: empty pieces
/// (repeated or trailing separators) and `.` are not components.
pub open spec fn path_parts(pieces: Seq<Seq<char>>) -> Seq<Seq<char>>
    decreases pieces.len(),
{
    if pieces.len() == 0 {
        Seq::empty()
    } else {
        let r = path_parts(pieces.drop_last());
        let p = pieces.last();
        if p.len() == 0 || p == "."@ {
            r
        } else {
            r.push(p)
        }
    }
}

/// `Path::file_name`: the last component, unless there is none or it is `..`.
pub open spec fn file_name(path: Seq<char>) -> Option<Seq<char>> {
    let ps = path_parts(split_on(path, '/'));
    if ps.len() == 0 || ps.last() == ".."@ {
        None
    } else {
        Some(ps.last())
    }
}

/// Index of the last `c` in `s`, or -1.
pub open spec fn rfind_char(s: Seq<char>, c: char) -> int
    decreases s.len(),
{
    if s.len() == 0 {
        -1
    } else if s.last() == c {
        s.len() - 1
    } else {
        rfind_char(s.drop_last(), c)
    }
}

proof fn lemma_rfind_char_bounds(s: Seq<char>, c: char)
    ensures
        -1 <= rfind_char(s, c) < s.len(),
        rfind_char(s, c) >= 0 ==> s[rfind_char(s, c)] == c,
    decreases s.len(),
{
    if s.len() > 0 && s.last() != c {
        lemma_rfind_char_bounds(s.drop_last(), c);
    }
}

/// `Path::extension`: what follows the last `.` of the file name, unless the
/// name has no `.` or its only `.` is the first character.
pub open spec fn extension(path: Seq<char>) -> Option<Seq<char>> {
    match file_name(path) {
        Some(n) => {
            let k = rfind_char(n, '.');
            if k <= 0 {
                None
            } else {
                Some(n.subrange(k + 1, n.len() as int))
            }
        },
        None => None,
    }
}

/// The last name-carrying component of `v`, as characters.
pub(crate) fn file_name_of(v: &[char]) -> (r: Option<Vec<char>>)
    ensures
        match r {
            Some(n) => file_name(v@) == Some(n@),
            None => file_name(v@) is None,
        },
{
    let pieces = split_char(v, '/');
    let ghost pv = Seq::new(pieces@.len(), |i: int| pieces@[i]@);
    let mut last: Option<usize> = None;
    let mut i: usize = 0;
    while i < pieces.len()
        invariant
            i <= pieces@.len(),
            pv == Seq::new(pieces@.len(), |k: int| pieces@[k]@),
            match last {
                Some(j) => j < i && path_parts(pv.take(i as int)).len() > 0 && path_parts(
                    pv.take(i as int),
                ).last() == pv[j as int],
                None => path_parts(pv.take(i as int)).len() == 0,
            },
        decreases pieces@.len() - i,
    {
        proof {
            assert(pv.take(i + 1).drop_last() =~= pv.take(i as int));
        }
        let p = &pieces[i];
        let is_dot = p.len() == 1 && p[0] == '.';
        proof {
            if p@.len() == 1 {
                assert(is_dot == (p@ =~= "."@)) by {
                    reveal_strlit(".");
                }
            } else {
                reveal_strlit(".");
                assert(p@ != "."@);
            }
        }
        if p.len() > 0 && !is_dot {
            last = Some(i);
        }
        i = i + 1;
    }
    assert(pv.take(pieces@.len() as int) =~= pv);
    match last {
        Some(j) => {
            let p = &pieces[j];
            let is_dotdot = p.len() == 2 && p[0] == '.' && p[1] == '.';
            proof {
                reveal_strlit("..");
                if p@.len() == 2 {
                    assert(is_dotdot == (p@ =~= ".."@));
                } else {
                    assert(p@ != ".."@);
                }
            }
            if is_dotdot {
                None
            } else {
                let mut n: Vec<char> = Vec::new();
                let mut k: usize = 0;
                while k < p.len()
                    invariant
                        k <= p@.len(),
                        n@ == p@.subrange(0, k as int),
                    decreases p@.len() - k,
                {
                    n.push(p[k]);
                    k = k + 1;
                    assert(n@ =~= p@.subrange(0, k as int));
                }
                assert(n@ =~= p@);
                Some(n)
            }
        },
        None => None,
    }
}

/// Index of the last `c` in `v`, if any.
fn rfind_char_exec(v: &[char], c: char) -> (r: Option<usize>)
    ensures
        match r {
            Some(k) => k as int == rfind_char(v@, c),
            None => rfind_char(v@, c) == -1,
        },
{
    let mut i: usize = v.len();
    assert(v@.take(i as int) =~= v@);
    while i > 0
        invariant
            i <= v@.len(),
            rfind_char(v@, c) == rfind_char(v@.take(i as int), c),
        decreases i,
    {
        proof {
            assert(v@.take(i as int).drop_last() =~= v@.take(i - 1));
        }
        if v[i - 1] == c {
            return Some(i - 1);
        }
        i = i - 1;
    }
    None
}

/// The extension of a path, as characters.
pub(crate) fn extension_of(v: &[char]) -> (r: Option<Vec<char>>)
    ensures
        match r {
            Some(e) => extension(v@) == Some(e@),
            None => extension(v@) is None,
        },
{
    match file_name_of(v) {
        Some(n) => {
            proof {
                lemma_rfind_char_bounds(n@, '.');
            }
            match rfind_char_exec(&n, '.') {
                Some(k) => {
                    if k == 0 {
                        None
                    } else {
                        assert(k < n.len());
                        Some(crate::text::copy_range(&n, k + 1, n.len()))
                    }
                },
                None => None,
            }
        },
        None => None,
    }
}

/// The first non-empty line of a file search's output whose file name is
/// exactly `filename` (the search also lists partial matches).
pub open spec fn first_exact_match(ls: Seq<Seq<char>>, filename: Seq<char>) -> Option<Seq<char>>
    decreases ls.len(),
{
    if ls.len() == 0 {
        None
    } else if ls[0].len() > 0 && file_name(ls[0]) == Some(filename) {
        Some(ls[0])
    } else {
        first_exact_match(ls.drop_first(), filename)
    }
}

/// The path listed by `mdfind -name` whose file name is exactly `filename`.
pub fn find_exact_file(stdout: &str, filename: &str) -> (r: Option<String>)
    ensures
        match r {
            Some(p) => first_exact_match(crate::text::lines(stdout@), filename@) == Some(p@),
            None => first_exact_match(crate::text::lines(stdout@), filename@) is None,
        },
{
    let v = chars_of(stdout);
    let ls = split_lines(v.as_slice());
    let ghost lv = Seq::new(ls@.len(), |i: int| ls@[i]@);
    assert(lv.skip(0) =~= lv);
    let mut i: usize = 0;
    while i < ls.len()
        invariant
            i <= ls@.len(),
            lv == Seq::new(ls@.len(), |k: int| ls@[k]@),
            lv == crate::text::lines(stdout@),
            first_exact_match(lv, filename@) == first_exact_match(lv.skip(i as int), filename@),
        decreases ls@.len() - i,
    {
        let line = string_of(ls[i].as_slice(), 0, ls[i].len());
        proof {
            assert(ls@[i as int]@.subrange(0, ls@[i as int]@.len() as int) =~= ls@[i as int]@);
            assert(lv.skip(i as int)[0] == lv[i as int]);
            assert(lv.skip(i as int).drop_first() =~= lv.skip(i + 1));
        }
        if ls[i].len() > 0 && path_matches_filename(line.as_str(), filename) {
            return Some(line);
        }
        i = i + 1;
    }
    proof {
        assert(lv.skip(i as int) =~= Seq::<Seq<char>>::empty());
    }
    None
}

/// Whether the last component of `path` is exactly `filename` (case-sensitive).
pub fn path_matches_filename(path: &str, filename: &str) -> (b: bool)
    ensures
        b == (file_name(path@) == Some(filename@)),
{
    let v = chars_of(path);
    match file_name_of(&v) {
        Some(n) => {
            let f = chars_of(filename);
            let same = n.len() == f.len() && crate::text::matches_at(&n, &f, 0);
            proof {
                if same {
                    assert(n@.subrange(0, f@.len() as int) =~= n@);
                } else if n@ == f@ {
                    assert(n@.subrange(0, f@.len() as int) =~= f@);
                }
            }
            same
        },
        None => false,
    }
}

/// The part of `t` before the first occurrence of `sep` (all of `t` when absent).
pub open spec fn before_first(t: Seq<char>, sep: Seq<char>) -> Seq<char> {
    if contains(t, sep) {
        t.subrange(0, choose|i: int| first_occurrence(t, sep, i))
    } else {
        t
    }
}

/// `t` up to the first `sep`.
fn before_first_exec(t: &[char], sep: &str) -> (r: Vec<char>)
    ensures
        r@ == before_first(t@, sep@),
{
    let s = chars_of(sep);
    match find(t, &s) {
        Some(i) => {
            proof {
                let k = choose|k: int| first_occurrence(t@, sep@, k);
                crate::text::lemma_first_occurrence_unique(t@, sep@, i as int, k);
            }
            crate::text::copy_range(t, 0, i)
        },
        None => crate::text::copy_range(t, 0, t.len()),
    }
}

/// Names of applications that a window title can start with instead of a file name.
pub open spec fn is_app_name(lower: Seq<char>) -> bool {
    lower == "sublime text"@ || lower == "wps office"@ || lower == "code"@ || lower == "finder"@
        || lower == "terminal"@ || lower == "safari"@
}

/// Whether the title's leading part, lowercased, is an application name.
pub fn name_result_is_app_name(s: &str) -> (b: bool)
    ensures
        b == is_app_name(spec_lowercase(s@)),
{
    let l = to_lowercase(s);
    let t = l.as_str();
    str_eq(t, "sublime text") || str_eq(t, "wps office") || str_eq(t, "code") || str_eq(
        t,
        "finder",
    ) || str_eq(t, "terminal") || str_eq(t, "safari")
}

/// The file name a window title shows: the part before ` — ` (else before
/// ` - `), trimmed; none when that is empty, `untitled`, an application name,
/// or has neither a `.` nor a `/`.
pub open spec fn title_file_name(title: Seq<char>) -> Option<Seq<char>> {
    let part = if contains(title, " — "@) {
        before_first(title, " — "@)
    } else if contains(title, " - "@) {
        before_first(title, " - "@)
    } else {
        title
    };
    let n = trim(part);
    if n.len() == 0 || n == "untitled"@ || is_app_name(spec_lowercase(n)) {
        None
    } else if n.contains('.') || n.contains('/') {
        Some(n)
    } else {
        None
    }
}

fn has_char(v: &[char], c: char) -> (b: bool)
    ensures
        b == v@.contains(c),
{
    let mut i: usize = 0;
    while i < v.len()
        invariant
            i <= v@.len(),
            forall|j: int| 0 <= j < i ==> v@[j] != c,
        decreases v@.len() - i,
    {
        if v[i] == c {
            assert(v@[i as int] == c);
            return true;
        }
        i = i + 1;
    }
    false
}

/// The file name shown in a window title (`test.txt — Sublime Text` gives `test.txt`).
pub fn extract_filename_from_title(title: &str) -> (r: Option<String>)
    ensures
        match r {
            Some(s) => title_file_name(title@) == Some(s@),
            None => title_file_name(title@) is None,
        },
{
    let t = chars_of(title);
    let em = chars_of(" — ");
    let hy = chars_of(" - ");
    let part = if contains_chars(&t, &em) {
        before_first_exec(&t, " — ")
    } else if contains_chars(&t, &hy) {
        before_first_exec(&t, " - ")
    } else {
        assert(t@.subrange(0, t@.len() as int) =~= t@);
        crate::text::copy_range(&t, 0, t.len())
    };
    let name = trimmed(&part);
    if name.as_str().is_empty() || str_eq(name.as_str(), "untitled") || name_result_is_app_name(
        name.as_str(),
    ) {
        return None;
    }
    let nv = chars_of(name.as_str());
    if has_char(&nv, '.') || has_char(&nv, '/') {
        Some(name)
    } else {
        None
    }
}

/// ASCII lowercase of one character.
pub open spec fn ascii_lower(c: char) -> char {
    if 'A' <= c && c <= 'Z' {
        ((c as u32) + 32) as char
    } else {
        c
    }
}

/// `str::to_ascii_lowercase`.
pub open spec fn ascii_lowercase(s: Seq<char>) -> Seq<char> {
    s.map_values(|c: char| ascii_lower(c))
}

pub fn ascii_lower_char(c: char) -> (r: char)
    ensures
        r == ascii_lower(c),
{
    if 'A' <= c && c <= 'Z' {
        let u: u32 = c as u32;
        let b: u8 = (u + 32) as u8;
        b as char
    } else {
        c
    }
}

/// ASCII-lowercased copy of `v`.
pub fn ascii_lowercase_chars(v: &[char]) -> (r: Vec<char>)
    ensures
        r@ == ascii_lowercase(v@),
{
    let mut r: Vec<char> = Vec::new();
    let mut i: usize = 0;
    while i < v.len()
        invariant
            i <= v@.len(),
            r@ == ascii_lowercase(v@.take(i as int)),
        decreases v@.len() - i,
    {
        r.push(ascii_lower_char(v[i]));
        i = i + 1;
        assert(r@ =~= ascii_lowercase(v@.take(i as int)));
    }
    assert(v@.take(v@.len() as int) =~= v@);
    r
}

/// Process name of an application for `lsof -c`, from its bundle id: the
/// known office and editor families by name, else the last `.`-separated piece.
pub open spec fn procname(bundle_id: Seq<char>) -> Seq<char> {
    let id = ascii_lowercase(bundle_id);
    if contains(id, "kingsoft"@) {
        "wpsoffice"@
    } else if contains(id, "iwork.pages"@) {
        "Pages"@
    } else if contains(id, "iwork.keynote"@) {
        "Keynote"@
    } else if contains(id, "iwork.numbers"@) {
        "Numbers"@
    } else if contains(id, "sublimetext"@) {
        "Sublime"@
    } else {
        split_on(bundle_id, '.').last()
    }
}

proof fn lemma_split_on_nonempty(s: Seq<char>, d: char)
    ensures
        split_on(s, d).len() > 0,
    decreases s.len(),
{
    if s.len() > 0 {
        lemma_split_on_nonempty(s.drop_last(), d);
    }
}

/// Process name for a bundle id.
pub fn bundle_id_to_procname(bundle_id: &str) -> (r: String)
    ensures
        r@ == procname(bundle_id@),
{
    let b = chars_of(bundle_id);
    let id = ascii_lowercase_chars(&b);
    if contains_chars(&id, &chars_of("kingsoft")) {
        owned("wpsoffice")
    } else if contains_chars(&id, &chars_of("iwork.pages")) {
        owned("Pages")
    } else if contains_chars(&id, &chars_of("iwork.keynote")) {
        owned("Keynote")
    } else if contains_chars(&id, &chars_of("iwork.numbers")) {
        owned("Numbers")
    } else if contains_chars(&id, &chars_of("sublimetext")) {
        owned("Sublime")
    } else {
        let pieces = split_char(&b, '.');
        proof {
            lemma_split_on_nonempty(b@, '.');
            assert(pieces@.len() == split_on(b@, '.').len());
            assert(pieces@[pieces@.len() - 1]@ == split_on(b@, '.').last());
        }
        let last = &pieces[pieces.len() - 1];
        string_of(last, 0, last.len())
    }
}

/// Document extensions looked for among a process's open files.
pub open spec fn is_doc_ext(e: Seq<char>) -> bool {
    e == "docx"@ || e == "xlsx"@ || e == "pptx"@ || e == "pdf"@ || e == "doc"@ || e == "xls"@
        || e == "ppt"@ || e == "pages"@
}

/// Whether an open-file path is a document worth reading: not a device, not
/// an office lock file (`.~`), with a document extension (any case).
pub open spec fn is_doc_path(path: Seq<char>) -> bool {
    &&& !starts_with(path, "/dev/"@)
    &&& !contains(path, "/.~"@)
    &&& !contains(path, ".~"@)
    &&& match extension(path) {
        Some(e) => is_doc_ext(spec_lowercase(e)),
        None => false,
    }
}

/// Document paths among `lsof -F n` lines: the `n` lines, without the tag.
pub open spec fn lsof_docs(ls: Seq<Seq<char>>) -> Seq<Seq<char>>
    decreases ls.len(),
{
    if ls.len() == 0 {
        Seq::empty()
    } else {
        let r = lsof_docs(ls.drop_last());
        let l = ls.last();
        if l.len() > 0 && l[0] == 'n' && is_doc_path(l.drop_first()) {
            r.push(l.drop_first())
        } else {
            r
        }
    }
}

/// An open file of a process is found among its `lsof -F n` lines: a line
/// `n` + `p`, where `p` is not under `/dev/`, holds no `.~`, and has an
/// extension that lowercases to docx, xlsx, pptx, pdf, doc, xls, ppt or pages,
/// adds `p` after the documents of the lines before it.
pub proof fn law_open_documents_found(ls: Seq<Seq<char>>, p: Seq<char>, e: Seq<char>)
    requires
        !starts_with(p, "/dev/"@),
        !contains(p, ".~"@),
        extension(p) == Some(e),
        spec_lowercase(e) == "docx"@ || spec_lowercase(e) == "xlsx"@ || spec_lowercase(e) == "pptx"@
            || spec_lowercase(e) == "pdf"@ || spec_lowercase(e) == "doc"@ || spec_lowercase(e) == "xls"@
            || spec_lowercase(e) == "ppt"@ || spec_lowercase(e) == "pages"@,
    ensures
        lsof_docs(ls.push(seq!['n'] + p)) == lsof_docs(ls).push(p),
{
    let l = seq!['n'] + p;
    assert(l.drop_first() =~= p);
    assert(ls.push(l).drop_last() =~= ls);
    reveal_strlit("/.~");
    reveal_strlit(".~");
    if contains(p, "/.~"@) {
        let i = choose|i: int| occurs_at(p, "/.~"@, i);
        assert("/.~"@.len() == 3 && ".~"@.len() == 2);
        assert(p.subrange(i, i + 3) =~= "/.~"@);
        assert(p[i + 1] == p.subrange(i, i + 3)[1]);
        assert(p[i + 2] == p.subrange(i, i + 3)[2]);
        assert(p.subrange(i + 1, i + 3) =~= ".~"@);
        assert(occurs_at(p, ".~"@, i + 1));
    }
    assert(is_doc_path(p));
}

fn is_doc_path_exec(p: &[char]) -> (b: bool)
    ensures
        b == is_doc_path(p@),
{
    let dev = chars_of("/dev/");
    if dev.len() <= p.len() && crate::text::matches_at(p, &dev, 0) {
        return false;
    }
    if contains_chars(p, &chars_of("/.~")) || contains_chars(p, &chars_of(".~")) {
        return false;
    }
    match extension_of(p) {
        Some(e) => {
            let es = string_of(&e, 0, e.len());
            assert(e@.subrange(0, e@.len() as int) =~= e@);
            let l = to_lowercase(es.as_str());
            let t = l.as_str();
            str_eq(t, "docx") || str_eq(t, "xlsx") || str_eq(t, "pptx") || str_eq(t, "pdf")
                || str_eq(t, "doc") || str_eq(t, "xls") || str_eq(t, "ppt") || str_eq(t, "pages")
        },
        None => false,
    }
}

/// Paths of the documents a process has open, from `lsof -F n` output.
pub fn filter_lsof_doc_files(lsof_output: &str) -> (r: Vec<String>)
    ensures
        r@.map_values(|s: String| s@) == lsof_docs(crate::text::lines(lsof_output@)),
{
    let v = chars_of(lsof_output);
    let ls = split_lines(&v);
    let ghost lsv = Seq::new(ls@.len(), |i: int| ls@[i]@);
    let mut r: Vec<String> = Vec::new();
    let mut i: usize = 0;
    while i < ls.len()
        invariant
            i <= ls@.len(),
            lsv == Seq::new(ls@.len(), |k: int| ls@[k]@),
            r@.map_values(|s: String| s@) == lsof_docs(lsv.take(i as int)),
        decreases ls@.len() - i,
    {
        proof {
            assert(lsv.take(i + 1).drop_last() =~= lsv.take(i as int));
        }
        let l = &ls[i];
        if l.len() > 0 && l[0] == 'n' {
            let p = crate::text::copy_range(l, 1, l.len());
            assert(p@ =~= l@.drop_first());
            if is_doc_path_exec(&p) {
                r.push(string_of(&p, 0, p.len()));
                assert(p@.subrange(0, p@.len() as int) =~= p@);
            }
        }
        assert(r@.map_values(|s: String| s@) =~= lsof_docs(lsv.take(i + 1)));
        i = i + 1;
    }
    assert(lsv.take(ls@.len() as int) =~= lsv);
    r
}

/// One window of a Sublime Text session file, as far as the lookup reads it:
/// `file_history` (when it is an array: each entry, when it is a string) and
/// `buffers` (when it is an array: each buffer's `file`, when it is a string).
pub struct SessionWindow {
    pub file_history: Option<Vec<Option<String>>>,
    pub buffers: Option<Vec<Option<String>>>,
}

/// The candidate paths of one window, in lookup order: history entries, then
/// non-empty buffer files.
pub open spec fn window_paths(w: SessionWindow) -> Seq<Seq<char>> {
    history_paths(w) + buffer_paths(w)
}

/// History entries that are strings.
pub open spec fn history_paths(w: SessionWindow) -> Seq<Seq<char>> {
    match w.file_history {
        Some(v) => some_strings(v@, false),
        None => Seq::empty(),
    }
}

/// Buffer files that are non-empty strings.
pub open spec fn buffer_paths(w: SessionWindow) -> Seq<Seq<char>> {
    match w.buffers {
        Some(v) => some_strings(v@, true),
        None => Seq::empty(),
    }
}

/// The strings present in `v`, in order; empty ones left out when `skip_empty`.
pub open spec fn some_strings(v: Seq<Option<String>>, skip_empty: bool) -> Seq<Seq<char>>
    decreases v.len(),
{
    if v.len() == 0 {
        Seq::empty()
    } else {
        let r = some_strings(v.drop_last(), skip_empty);
        match v.last() {
            Some(s) => if skip_empty && s@.len() == 0 {
                r
            } else {
                r.push(s@)
            },
            None => r,
        }
    }
}

/// All candidate paths of a session, window by window.
pub open spec fn session_paths(ws: Seq<SessionWindow>) -> Seq<Seq<char>>
    decreases ws.len(),
{
    if ws.len() == 0 {
        Seq::empty()
    } else {
        session_paths(ws.drop_last()) + window_paths(ws.last())
    }
}

/// The first candidate whose file name is `filename`.
pub open spec fn first_match(paths: Seq<Seq<char>>, filename: Seq<char>) -> Option<Seq<char>>
    decreases paths.len(),
{
    if paths.len() == 0 {
        None
    } else if file_name(paths[0]) == Some(filename) {
        Some(paths[0])
    } else {
        first_match(paths.drop_first(), filename)
    }
}

proof fn lemma_first_match_append(a: Seq<Seq<char>>, b: Seq<Seq<char>>, f: Seq<char>)
    ensures
        first_match(a + b, f) == (match first_match(a, f) {
            Some(p) => Some(p),
            None => first_match(b, f),
        }),
    decreases a.len(),
{
    if a.len() > 0 {
        assert((a + b).drop_first() =~= a.drop_first() + b);
        lemma_first_match_append(a.drop_first(), b, f);
    } else {
        assert(a + b =~= b);
    }
}

/// First matching path among `v`'s strings, and the proof bookkeeping.
fn match_in(v: &Vec<Option<String>>, skip_empty: bool, filename: &str) -> (r: Option<String>)
    ensures
        opt_view(r) == first_match(some_strings(v@, skip_empty), filename@),
{
    let mut i: usize = 0;
    let ghost all = some_strings(v@, skip_empty);
    while i < v.len()
        invariant
            i <= v@.len(),
            all == some_strings(v@, skip_empty),
            first_match(some_strings(v@.take(i as int), skip_empty), filename@) is None,
        decreases v@.len() - i,
    {
        proof {
            assert(v@.take(i + 1).drop_last() =~= v@.take(i as int));
        }
        let ghost prev = some_strings(v@.take(i as int), skip_empty);
        if let Some(p) = &v[i] {
            let skip = skip_empty && p.as_str().is_empty();
            if !skip && path_matches_filename(p.as_str(), filename) {
                proof {
                    assert(some_strings(v@.take(i + 1), skip_empty) =~= prev.push(p@));
                    assert(prev.push(p@) =~= prev + seq![p@]);
                    assert(first_match(seq![p@], filename@) == Some(p@));
                    lemma_first_match_append(prev, seq![p@], filename@);
                    lemma_some_strings_prefix(v@, skip_empty, i + 1);
                    lemma_first_match_append(
                        some_strings(v@.take(i + 1), skip_empty),
                        some_strings(v@.skip(i + 1), skip_empty),
                        filename@,
                    );
                }
                return Some(owned(p.as_str()));
            }
            proof {
                if !skip {
                    assert(some_strings(v@.take(i + 1), skip_empty) =~= prev.push(p@));
                    assert(prev.push(p@) =~= prev + seq![p@]);
                    lemma_first_match_append(prev, seq![p@], filename@);
                    assert(seq![p@].drop_first() =~= Seq::<Seq<char>>::empty());
                    assert(first_match(seq![p@].drop_first(), filename@) is None);
                } else {
                    assert(some_strings(v@.take(i + 1), skip_empty) =~= prev);
                }
            }
        }
        i = i + 1;
    }
    proof {
        assert(v@.take(v@.len() as int) =~= v@);
    }
    None
}

/// An optional string by its view.
pub open spec fn opt_view(o: Option<String>) -> Option<Seq<char>> {
    match o {
        Some(s) => Some(s@),
        None => None,
    }
}

proof fn lemma_some_strings_prefix(v: Seq<Option<String>>, skip_empty: bool, k: int)
    requires
        0 <= k <= v.len(),
    ensures
        some_strings(v, skip_empty) == some_strings(v.take(k), skip_empty) + some_strings(
            v.skip(k),
            skip_empty,
        ),
    decreases v.len() - k,
{
    if k < v.len() {
        lemma_some_strings_prefix(v, skip_empty, k + 1);
        assert(v.take(k + 1).drop_last() =~= v.take(k));
        assert(v.skip(k).drop_first() =~= v.skip(k + 1));
        lemma_some_strings_front(v.skip(k), skip_empty);
        assert(some_strings(v.take(k + 1), skip_empty) == match v[k] {
            Some(s) => if skip_empty && s@.len() == 0 {
                some_strings(v.take(k), skip_empty)
            } else {
                some_strings(v.take(k), skip_empty).push(s@)
            },
            None => some_strings(v.take(k), skip_empty),
        });
        assert(v.skip(k)[0] == v[k]);
        match v[k] {
            Some(s) => {
                if !(skip_empty && s@.len() == 0) {
                    assert(some_strings(v.take(k), skip_empty).push(s@) + some_strings(
                        v.skip(k + 1),
                        skip_empty,
                    ) =~= some_strings(v.take(k), skip_empty) + (seq![s@] + some_strings(
                        v.skip(k + 1),
                        skip_empty,
                    )));
                }
            },
            None => {},
        }
    } else {
        assert(v.take(k) =~= v);
        assert(v.skip(k) =~= Seq::<Option<String>>::empty());
        assert(some_strings(v.skip(k), skip_empty) =~= Seq::<Seq<char>>::empty());
    }
}

proof fn lemma_some_strings_front(v: Seq<Option<String>>, skip_empty: bool)
    requires
        v.len() > 0,
    ensures
        some_strings(v, skip_empty) == (match v[0] {
            Some(s) => if skip_empty && s@.len() == 0 {
                Seq::empty()
            } else {
                seq![s@]
            },
            None => Seq::empty(),
        }) + some_strings(v.drop_first(), skip_empty),
    decreases v.len(),
{
    if v.len() == 1 {
        assert(v.drop_last() =~= Seq::<Option<String>>::empty());
        assert(v.drop_first() =~= Seq::<Option<String>>::empty());
        assert(some_strings(v.drop_first(), skip_empty) =~= Seq::<Seq<char>>::empty());
        match v[0] {
            Some(s) => {
                if !(skip_empty && s@.len() == 0) {
                    assert(Seq::<Seq<char>>::empty().push(s@) =~= seq![s@]);
                }
            },
            None => {},
        }
        assert(v.last() == v[0]);
    } else {
        lemma_some_strings_front(v.drop_last(), skip_empty);
        assert(v.drop_last().drop_first() =~= v.drop_first().drop_last());
        assert(v.drop_last()[0] == v[0]);
        assert(v.drop_first().last() == v.last());
        let head = match v[0] {
            Some(s) => if skip_empty && s@.len() == 0 {
                Seq::<Seq<char>>::empty()
            } else {
                seq![s@]
            },
            None => Seq::<Seq<char>>::empty(),
        };
        match v.last() {
            Some(s) => {
                if !(skip_empty && s@.len() == 0) {
                    assert((head + some_strings(v.drop_first().drop_last(), skip_empty)).push(s@)
                        =~= head + some_strings(v.drop_first().drop_last(), skip_empty).push(s@));
                }
            },
            None => {},
        }
    }
}

/// Path of the file named `filename` in a Sublime Text session: the first
/// window entry (history first, then buffers) whose file name matches exactly.
/// `windows` is `None` when the session has no `windows` array.
pub fn find_file_in_session_json(windows: &Option<Vec<SessionWindow>>, filename: &str) -> (r: Option<
    String,
>)
    ensures
        opt_view(r) == match windows {
            Some(ws) => first_match(session_paths(ws@), filename@),
            None => None,
        },
{
    let ws = match windows {
        Some(ws) => ws,
        None => return None,
    };
    let mut i: usize = 0;
    while i < ws.len()
        invariant
            i <= ws@.len(),
            *windows == Some(*ws),
            first_match(session_paths(ws@.take(i as int)), filename@) is None,
        decreases ws@.len() - i,
    {
        proof {
            assert(ws@.take(i + 1).drop_last() =~= ws@.take(i as int));
            assert(ws@.take(i + 1).last() == ws@[i as int]);
            assert(session_paths(ws@.take(i + 1)) == session_paths(ws@.take(i as int))
                + window_paths(ws@[i as int]));
            lemma_first_match_append(
                session_paths(ws@.take(i as int)),
                window_paths(ws@[i as int]),
                filename@,
            );
            lemma_first_match_append(
                history_paths(ws@[i as int]),
                buffer_paths(ws@[i as int]),
                filename@,
            );
            lemma_session_prefix(ws@, i + 1);
            lemma_first_match_append(
                session_paths(ws@.take(i + 1)),
                session_paths(ws@.skip(i + 1)),
                filename@,
            );
        }
        let w = &ws[i];
        let h: Option<String> = match &w.file_history {
            Some(v) => match_in(v, false, filename),
            None => None,
        };
        assert(opt_view(h) == first_match(history_paths(ws@[i as int]), filename@));
        if h.is_some() {
            return h;
        }
        let b: Option<String> = match &w.buffers {
            Some(v) => match_in(v, true, filename),
            None => None,
        };
        assert(opt_view(b) == first_match(buffer_paths(ws@[i as int]), filename@));
        if b.is_some() {
            return b;
        }
        i = i + 1;
    }
    proof {
        assert(ws@.take(ws@.len() as int) =~= ws@);
    }
    None
}

/// Texts of a list of optional strings.
pub open spec fn strs_view(v: Seq<Option<String>>) -> Seq<Option<Seq<char>>> {
    Seq::new(v.len(), |i: int| opt_view(v[i]))
}

/// The strings present in `v`, in order; empty ones left out when `skip_empty`.
pub open spec fn some_texts(v: Seq<Option<Seq<char>>>, skip_empty: bool) -> Seq<Seq<char>>
    decreases v.len(),
{
    if v.len() == 0 {
        Seq::empty()
    } else {
        let r = some_texts(v.drop_last(), skip_empty);
        match v.last() {
            Some(s) => if skip_empty && s.len() == 0 {
                r
            } else {
                r.push(s)
            },
            None => r,
        }
    }
}

proof fn lemma_some_texts(v: Seq<Option<String>>, skip_empty: bool)
    ensures
        some_strings(v, skip_empty) == some_texts(strs_view(v), skip_empty),
    decreases v.len(),
{
    if v.len() > 0 {
        lemma_some_texts(v.drop_last(), skip_empty);
        assert(strs_view(v).drop_last() =~= strs_view(v.drop_last()));
    }
}

/// A session window's `file_history` entries (each its text when it is a
/// string), when that member is an array.
pub open spec fn json_history(w: JsonValue) -> Option<Seq<Option<Seq<char>>>> {
    match array_of(field(w, "file_history"@)) {
        Some(a) => Some(Seq::new(a.len(), |i: int| item_text(a, false, i))),
        None => None,
    }
}

/// A session window's `buffers` (each its `file` member when that is a
/// string), when that member is an array.
pub open spec fn json_buffers(w: JsonValue) -> Option<Seq<Option<Seq<char>>>> {
    match array_of(field(w, "buffers"@)) {
        Some(a) => Some(Seq::new(a.len(), |i: int| item_text(a, true, i))),
        None => None,
    }
}

/// Both lists of a session window, as texts.
pub open spec fn window_view(w: SessionWindow) -> (Option<Seq<Option<Seq<char>>>>, Option<Seq<Option<Seq<char>>>>) {
    (
        match w.file_history {
            Some(v) => Some(strs_view(v@)),
            None => None,
        },
        match w.buffers {
            Some(v) => Some(strs_view(v@)),
            None => None,
        },
    )
}

/// The texts present in an optional list.
pub open spec fn present(o: Option<Seq<Option<Seq<char>>>>, skip_empty: bool) -> Seq<Seq<char>> {
    match o {
        Some(v) => some_texts(v, skip_empty),
        None => Seq::empty(),
    }
}

/// The candidate paths of a session window given as JSON.
pub open spec fn json_window_paths(w: JsonValue) -> Seq<Seq<char>> {
    present(json_history(w), false) + present(json_buffers(w), true)
}

/// All candidate paths of a session's windows given as JSON.
pub open spec fn json_session_paths(ws: Seq<JsonValue>) -> Seq<Seq<char>>
    decreases ws.len(),
{
    if ws.len() == 0 {
        Seq::empty()
    } else {
        json_session_paths(ws.drop_last()) + json_window_paths(ws.last())
    }
}

proof fn lemma_session_paths_of_json(ws: Seq<SessionWindow>, js: Seq<JsonValue>)
    requires
        ws.len() == js.len(),
        forall|k: int| 0 <= k < ws.len() ==> window_view(#[trigger] ws[k]) == (json_history(js[k]), json_buffers(js[k])),
    ensures
        session_paths(ws) == json_session_paths(js),
    decreases ws.len(),
{
    if ws.len() > 0 {
        lemma_session_paths_of_json(ws.drop_last(), js.drop_last());
        let w = ws.last();
        assert(window_view(ws[ws.len() - 1]) == (json_history(js[js.len() - 1]), json_buffers(js[js.len() - 1])));
        match w.file_history {
            Some(v) => lemma_some_texts(v@, false),
            None => {},
        }
        match w.buffers {
            Some(v) => lemma_some_texts(v@, true),
            None => {},
        }
    }
}

/// The text of `j` when it is a string.
fn text_of(j: &JsonValue) -> (r: Option<String>)
    ensures
        opt_view(r) == str_of(Some(*j)),
{
    match j {
        JsonValue::Str(s) => Some(owned(s.as_str())),
        _ => None,
    }
}

/// The text of item `k` when it is a string (`file_of` false), or of its
/// `file` member when that is a string (`file_of` true).
pub open spec fn item_text(a: Seq<JsonValue>, file_of: bool, k: int) -> Option<Seq<char>> {
    if file_of {
        str_of(field(a[k], "file"@))
    } else {
        str_of(Some(a[k]))
    }
}

/// Each item's text, as `item_text` reads it.
fn item_texts(a: &Vec<JsonValue>, file_of: bool) -> (r: Vec<Option<String>>)
    ensures
        strs_view(r@) == Seq::new(a@.len(), |k: int| item_text(a@, file_of, k)),
{
    let mut r: Vec<Option<String>> = Vec::new();
    let mut i: usize = 0;
    while i < a.len()
        invariant
            i <= a@.len(),
            r@.len() == i,
            forall|k: int| 0 <= k < i ==> opt_view(#[trigger] r@[k]) == item_text(a@, file_of, k),
        decreases a@.len() - i,
    {
        let t = if file_of {
            match get(&a[i], "file") {
                Some(f) => text_of(f),
                None => None,
            }
        } else {
            text_of(&a[i])
        };
        assert(opt_view(t) == item_text(a@, file_of, i as int));
        r.push(t);
        i = i + 1;
    }
    assert(strs_view(r@) =~= Seq::new(a@.len(), |k: int| item_text(a@, file_of, k)));
    r
}

/// The windows of a Sublime Text session's JSON: its `windows` array, each
/// window read as `SessionWindow` says; none without that array.
pub fn session_windows(j: &JsonValue) -> (r: Option<Vec<SessionWindow>>)
    ensures
        match r {
            None => array_of(field(*j, "windows"@)) is None,
            Some(ws) => array_of(field(*j, "windows"@)) matches Some(js) && ws@.len() == js.len() && forall|k: int|
                0 <= k < ws@.len() ==> window_view(#[trigger] ws@[k]) == (json_history(js[k]), json_buffers(js[k])),
        },
{
    let js = match get_array(j, "windows") {
        Some(js) => js,
        None => return None,
    };
    let mut ws: Vec<SessionWindow> = Vec::new();
    let mut i: usize = 0;
    while i < js.len()
        invariant
            i <= js@.len(),
            ws@.len() == i,
            forall|k: int| 0 <= k < i ==> window_view(#[trigger] ws@[k]) == (json_history(js@[k]), json_buffers(js@[k])),
        decreases js@.len() - i,
    {
        let w = &js[i];
        let file_history = match get_array(w, "file_history") {
            Some(a) => Some(item_texts(a, false)),
            None => None,
        };
        let buffers = match get_array(w, "buffers") {
            Some(a) => Some(item_texts(a, true)),
            None => None,
        };
        let sw = SessionWindow { file_history, buffers };
        assert(window_view(sw) == (json_history(js@[i as int]), json_buffers(js@[i as int])));
        ws.push(sw);
        i = i + 1;
    }
    Some(ws)
}

/// Where a Sublime Text session file with text `content` says `filename` is:
/// the first window entry (history first, then buffers) whose file name
/// matches; none when the text is not JSON or has no `windows` array.
pub open spec fn session_lookup(j: Option<JsonValue>, filename: Seq<char>) -> Option<Seq<char>> {
    match j {
        Some(v) => match array_of(field(v, "windows"@)) {
            Some(ws) => first_match(json_session_paths(ws), filename),
            None => None,
        },
        None => None,
    }
}

/// Path of `filename` in the Sublime Text session file with text `content`.
pub fn find_file_in_session(content: &str, filename: &str) -> (r: Option<String>)
    ensures
        opt_view(r) == session_lookup(spec_json(content@), filename@),
{
    let j = match parse_json(content) {
        Some(j) => j,
        None => return None,
    };
    let windows = session_windows(&j);
    proof {
        if windows is Some {
            let js = array_of(field(j, "windows"@))->0;
            lemma_session_paths_of_json(windows->0@, js);
        }
    }
    find_file_in_session_json(&windows, filename)
}

proof fn lemma_session_prefix(ws: Seq<SessionWindow>, k: int)
    requires
        0 <= k <= ws.len(),
    ensures
        session_paths(ws) == session_paths(ws.take(k)) + session_paths(ws.skip(k)),
    decreases ws.len() - k,
{
    if k < ws.len() {
        lemma_session_prefix(ws, k + 1);
        assert(ws.take(k + 1).drop_last() =~= ws.take(k));
        lemma_session_front(ws.skip(k));
        assert(ws.skip(k).drop_first() =~= ws.skip(k + 1));
        assert(ws.skip(k)[0] == ws[k]);
        assert(session_paths(ws.take(k)) + window_paths(ws[k]) + session_paths(ws.skip(k + 1))
            =~= session_paths(ws.take(k)) + (window_paths(ws[k]) + session_paths(
            ws.skip(k + 1),
        )));
    } else {
        assert(ws.take(k) =~= ws);
        assert(ws.skip(k) =~= Seq::<SessionWindow>::empty());
        assert(session_paths(ws) + session_paths(ws.skip(k)) =~= session_paths(ws));
    }
}

proof fn lemma_session_front(ws: Seq<SessionWindow>)
    requires
        ws.len() > 0,
    ensures
        session_paths(ws) == window_paths(ws[0]) + session_paths(ws.drop_first()),
    decreases ws.len(),
{
    if ws.len() == 1 {
        assert(ws.drop_last() =~= Seq::<SessionWindow>::empty());
        assert(ws.drop_first() =~= Seq::<SessionWindow>::empty());
        assert(session_paths(ws.drop_last()) =~= Seq::<Seq<char>>::empty());
        assert(Seq::<Seq<char>>::empty() + window_paths(ws[0]) =~= window_paths(ws[0]));
        assert(window_paths(ws[0]) + Seq::<Seq<char>>::empty() =~= window_paths(ws[0]));
    } else {
        lemma_session_front(ws.drop_last());
        assert(ws.drop_last().drop_first() =~= ws.drop_first().drop_last());
        assert(ws.drop_last()[0] == ws[0]);
        assert(ws.drop_first().last() == ws.last());
        assert(window_paths(ws[0]) + session_paths(ws.drop_first().drop_last()) + window_paths(
            ws.last(),
        ) =~= window_paths(ws[0]) + (session_paths(ws.drop_first().drop_last()) + window_paths(
            ws.last(),
        )));
    }
}

} // verus!
