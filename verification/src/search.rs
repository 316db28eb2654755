//! Merging the results of the launcher's search providers: the shell command
//! entry, the applications boost, which providers a tab uses, and the ten
//! best results by score (ties keep the providers' order).
use vstd::prelude::*;
use crate::text::{chars_of, lines, owned, push_str, str_eq, string_of, trim, trim_bounds, utf8_len};
use crate::context_text::split_lines;
use crate::file_hint::{file_name, file_name_of};
use crate::text::{decimal_digits, i64_decimal, signed_decimal};
use crate::context_text::utf8_len_reaches;

verus! {

/// One search result.
pub struct SearchResult {
    pub source: String,
    pub title: String,
    pub subtitle: String,
    pub action_type: String,
    pub action_data: String,
    pub score: i32,
}

/// A search result by value.
pub struct ResultView {
    pub source: Seq<char>,
    pub title: Seq<char>,
    pub subtitle: Seq<char>,
    pub action_type: Seq<char>,
    pub action_data: Seq<char>,
    pub score: i32,
}

impl View for SearchResult {
    type V = ResultView;

    open spec fn view(&self) -> ResultView {
        ResultView {
            source: self.source@,
            title: self.title@,
            subtitle: self.subtitle@,
            action_type: self.action_type@,
            action_data: self.action_data@,
            score: self.score,
        }
    }
}

/// Results by value.
pub open spec fn views(v: Seq<SearchResult>) -> Seq<ResultView> {
    v.map_values(|r: SearchResult| r@)
}

/// A browser bookmark.
pub struct BookmarkEntry {
    pub title: String,
    pub url: String,
    pub browser: String,
}

/// The search engine's indexed data (the application index is kept by the caller).
pub struct SearchEngine {
    pub bookmarks: Vec<BookmarkEntry>,
}

/// The engine over the loaded bookmarks.
pub fn init_search_engine(bookmarks: Vec<BookmarkEntry>) -> (e: SearchEngine)
    ensures
        e.bookmarks@ == bookmarks@,
{
    SearchEngine { bookmarks }
}

/// Hexadecimal digit (lowercase).
pub open spec fn hex_digit(d: u8) -> char {
    if d < 10 {
        (('0' as u8) + d) as char
    } else {
        (('a' as u8) + d - 10) as char
    }
}

/// One character of a JSON string: quote, backslash and control characters
/// escaped (`\b \t \n \f \r`, others as `\u00XX`).
pub open spec fn json_escape_char(c: char) -> Seq<char> {
    let u = c as u32;
    if c == '"' {
        seq!['\\', '"']
    } else if c == '\\' {
        seq!['\\', '\\']
    } else if u == 8 {
        seq!['\\', 'b']
    } else if u == 9 {
        seq!['\\', 't']
    } else if u == 10 {
        seq!['\\', 'n']
    } else if u == 12 {
        seq!['\\', 'f']
    } else if u == 13 {
        seq!['\\', 'r']
    } else if u < 0x20 {
        seq!['\\', 'u', '0', '0', hex_digit((u / 16) as u8), hex_digit((u % 16) as u8)]
    } else {
        seq![c]
    }
}

/// A JSON string's contents.
pub open spec fn json_escape(s: Seq<char>) -> Seq<char>
    decreases s.len(),
{
    if s.len() == 0 {
        Seq::empty()
    } else {
        json_escape(s.drop_last()) + json_escape_char(s.last())
    }
}

fn hex_char(d: u8) -> (c: char)
    requires
        d < 16,
    ensures
        c == hex_digit(d),
{
    if d < 10 {
        ((48 + d) as u8) as char
    } else {
        ((97 + d - 10) as u8) as char
    }
}

/// Escapes text for a JSON string.
pub fn json_escape_str(s: &str) -> (r: String)
    ensures
        r@ == json_escape(s@),
{
    let v = chars_of(s);
    let mut r = String::new();
    let mut i: usize = 0;
    while i < v.len()
        invariant
            i <= v@.len(),
            r@ == json_escape(v@.take(i as int)),
        decreases v@.len() - i,
    {
        proof {
            assert(v@.take(i + 1).drop_last() =~= v@.take(i as int));
        }
        let c = v[i];
        let u = c as u32;
        if c == '"' {
            r.push('\\');
            r.push('"');
        } else if c == '\\' {
            r.push('\\');
            r.push('\\');
        } else if u == 8 {
            r.push('\\');
            r.push('b');
        } else if u == 9 {
            r.push('\\');
            r.push('t');
        } else if u == 10 {
            r.push('\\');
            r.push('n');
        } else if u == 12 {
            r.push('\\');
            r.push('f');
        } else if u == 13 {
            r.push('\\');
            r.push('r');
        } else if u < 0x20 {
            r.push('\\');
            r.push('u');
            r.push('0');
            r.push('0');
            r.push(hex_char((u / 16) as u8));
            r.push(hex_char((u % 16) as u8));
        } else {
            r.push(c);
        }
        assert(r@ =~= json_escape(v@.take(i + 1)));
        i = i + 1;
    }
    assert(v@.take(v@.len() as int) =~= v@);
    r
}

/// Score of the shell command entry (above everything else).
pub const SHELL_SCORE: i32 = 10000;

/// The shell command entry for a query `>command` in the shell or all tab
/// (the command trimmed, and not empty).
pub open spec fn shell_entry(query: Seq<char>, tab: Seq<char>) -> Option<ResultView> {
    if query.len() > 0 && query[0] == '>' && (tab == "shell"@ || tab == "all"@) && trim(
        query.drop_first(),
    ).len() > 0 {
        let cmd = trim(query.drop_first());
        Some(
            ResultView {
                source: "shell"@,
                title: "▶ "@ + cmd,
                subtitle: "运行 Shell 命令"@,
                action_type: "shell"@,
                action_data: "{\"command\":\""@ + json_escape(cmd) + "\"}"@,
                score: SHELL_SCORE,
            },
        )
    } else {
        None
    }
}

/// The shell command entry, if the query asks for one.
pub fn shell_result(query: &str, tab: &str) -> (r: Option<SearchResult>)
    ensures
        match shell_entry(query@, tab@) {
            Some(e) => r matches Some(x) && x@ == e,
            None => r is None,
        },
{
    let q = chars_of(query);
    if q.len() == 0 || q[0] != '>' || !(str_eq(tab, "shell") || str_eq(tab, "all")) {
        return None;
    }
    let rest = crate::text::copy_range(&q, 1, q.len());
    assert(rest@ =~= query@.drop_first());
    let (lo, hi) = trim_bounds(&rest);
    if lo >= hi {
        return None;
    }
    let cmd = crate::text::string_of(&rest, lo, hi);
    let mut title = owned("▶ ");
    push_str(&mut title, cmd.as_str());
    let mut data = owned("{\"command\":\"");
    let esc = json_escape_str(cmd.as_str());
    push_str(&mut data, esc.as_str());
    push_str(&mut data, "\"}");
    Some(SearchResult {
        source: owned("shell"),
        title,
        subtitle: owned("运行 Shell 命令"),
        action_type: owned("shell"),
        action_data: data,
        score: SHELL_SCORE,
    })
}

/// Which providers a tab searches.
#[derive(Clone, Copy, Debug, PartialEq, Eq, Structural)]
pub struct SearchProviders {
    pub apps: bool,
    pub menus: bool,
    pub files: bool,
    pub bookmarks: bool,
}

/// Providers of a tab: `all` uses every one; `apps`, `files`, `bookmarks` their own.
pub open spec fn tab_providers(tab: Seq<char>) -> SearchProviders {
    SearchProviders {
        apps: tab == "all"@ || tab == "apps"@,
        menus: tab == "all"@,
        files: tab == "all"@ || tab == "files"@,
        bookmarks: tab == "all"@ || tab == "bookmarks"@,
    }
}

/// The providers to ask for a tab.
pub fn providers_for_tab(tab: &str) -> (p: SearchProviders)
    ensures
        p == tab_providers(tab@),
{
    let all = str_eq(tab, "all");
    SearchProviders {
        apps: all || str_eq(tab, "apps"),
        menus: all,
        files: all || str_eq(tab, "files"),
        bookmarks: all || str_eq(tab, "bookmarks"),
    }
}

/// `r` inserted into results ordered by descending score, after those that
/// score at least as much.
pub open spec fn insert_desc(s: Seq<ResultView>, x: ResultView) -> Seq<ResultView>
    decreases s.len(),
{
    if s.len() == 0 {
        seq![x]
    } else if s[0].score < x.score {
        seq![x] + s
    } else {
        seq![s[0]] + insert_desc(s.drop_first(), x)
    }
}

/// Results ordered by descending score; equal scores keep their order.
pub open spec fn sort_desc(s: Seq<ResultView>) -> Seq<ResultView>
    decreases s.len(),
{
    if s.len() == 0 {
        Seq::empty()
    } else {
        insert_desc(sort_desc(s.drop_last()), s.last())
    }
}

proof fn lemma_insert_at(s: Seq<ResultView>, x: ResultView, k: int)
    requires
        0 <= k <= s.len(),
        forall|j: int| 0 <= j < k ==> s[j].score >= x.score,
        k < s.len() ==> s[k].score < x.score,
    ensures
        insert_desc(s, x) == s.take(k) + seq![x] + s.skip(k),
    decreases s.len(),
{
    if s.len() == 0 {
        assert(s.take(k) + seq![x] + s.skip(k) =~= seq![x]);
    } else if k == 0 {
        assert(s.take(0) + seq![x] + s.skip(0) =~= seq![x] + s);
    } else {
        lemma_insert_at(s.drop_first(), x, k - 1);
        assert(seq![s[0]] + (s.drop_first().take(k - 1) + seq![x] + s.drop_first().skip(k - 1))
            =~= s.take(k) + seq![x] + s.skip(k));
    }
}

proof fn lemma_views_push(s: Seq<SearchResult>, x: SearchResult)
    ensures
        views(s.push(x)) == views(s).push(x@),
{
    assert(views(s.push(x)) =~= views(s).push(x@));
}

proof fn lemma_views_remove_first(s: Seq<SearchResult>)
    requires
        s.len() > 0,
    ensures
        views(s.remove(0)) == views(s).drop_first(),
        views(s)[0] == s[0]@,
{
    assert(views(s.remove(0)) =~= views(s).drop_first());
}

/// Inserts `x` into `out` (ordered by descending score) after the results
/// that score at least as much.
fn insert_sorted(out: &mut Vec<SearchResult>, x: SearchResult)
    ensures
        views(final(out)@) == insert_desc(views(old(out)@), x@),
{
    let mut k: usize = 0;
    while k < out.len() && out[k].score >= x.score
        invariant
            k <= out@.len(),
            forall|j: int| 0 <= j < k ==> out@[j].score >= x.score,
        decreases out@.len() - k,
    {
        k = k + 1;
    }
    let ghost before = views(out@);
    proof {
        lemma_insert_at(before, x@, k as int);
    }
    out.insert(k, x);
    assert(views(out@) =~= before.take(k as int) + seq![x@] + before.skip(k as int));
}

/// Sorts results by descending score, keeping the order of equal scores.
pub fn sort_by_score(items: Vec<SearchResult>) -> (r: Vec<SearchResult>)
    ensures
        views(r@) == sort_desc(views(items@)),
{
    let mut items = items;
    let ghost all = views(items@);
    let n0 = items.len();
    let mut out: Vec<SearchResult> = Vec::new();
    let mut done: usize = 0;
    assert(all.skip(0) =~= all);
    while items.len() > 0
        invariant
            done + items@.len() == n0,
            n0 == all.len(),
            views(items@) == all.skip(done as int),
            views(out@) == sort_desc(all.take(done as int)),
        decreases items@.len(),
    {
        let ghost before = items@;
        proof {
            lemma_views_remove_first(before);
        }
        let x = items.remove(0);
        proof {
            assert(all.skip(done as int)[0] == all[done as int]);
            assert(all.take(done + 1).drop_last() =~= all.take(done as int));
            assert(all.take(done + 1).last() == x@);
            assert(views(items@) =~= all.skip(done + 1));
        }
        insert_sorted(&mut out, x);
        done = done + 1;
    }
    assert(all.take(done as int) =~= all);
    out
}

/// At most the first `n` results.
pub open spec fn first_n(s: Seq<ResultView>, n: int) -> Seq<ResultView> {
    if s.len() > n {
        s.take(n)
    } else {
        s
    }
}

/// The best `n` results by score.
pub fn top_by_score(items: Vec<SearchResult>, n: usize) -> (r: Vec<SearchResult>)
    ensures
        views(r@) == first_n(sort_desc(views(items@)), n as int),
{
    let mut r = sort_by_score(items);
    r.truncate(n);
    assert(views(r@) =~= first_n(sort_desc(views(items@)), n as int));
    r
}

/// Application results get 100 more points than their match score.
pub open spec fn boosted(v: Seq<ResultView>) -> Seq<ResultView> {
    v.map_values(|r: ResultView| ResultView { score: (r.score + 100) as i32, ..r })
}

/// The results of a search: nothing for an empty query; otherwise the shell
/// entry and the results of the tab's providers (applications boosted), the
/// ten best by score.
pub open spec fn search_spec(
    query: Seq<char>,
    tab: Seq<char>,
    apps: Seq<ResultView>,
    menus: Seq<ResultView>,
    files: Seq<ResultView>,
    bookmarks: Seq<ResultView>,
) -> Seq<ResultView> {
    if query.len() == 0 {
        Seq::empty()
    } else {
        let p = tab_providers(tab);
        let all = (match shell_entry(query, tab) {
            Some(e) => seq![e],
            None => Seq::empty(),
        }) + (if p.apps {
            boosted(apps)
        } else {
            Seq::empty()
        }) + (if p.menus {
            menus
        } else {
            Seq::empty()
        }) + (if p.files {
            files
        } else {
            Seq::empty()
        }) + (if p.bookmarks {
            bookmarks
        } else {
            Seq::empty()
        });
        first_n(sort_desc(all), 10)
    }
}

fn append_all(dst: &mut Vec<SearchResult>, src: Vec<SearchResult>)
    ensures
        views(final(dst)@) == views(old(dst)@) + views(src@),
{
    let mut src = src;
    let ghost s0 = views(src@);
    let ghost d0 = views(dst@);
    let n0 = src.len();
    let mut k: usize = 0;
    assert(s0.skip(0) =~= s0);
    assert(d0 + s0.take(0) =~= d0);
    while src.len() > 0
        invariant
            k + src@.len() == n0,
            n0 == s0.len(),
            views(src@) == s0.skip(k as int),
            views(dst@) == d0 + s0.take(k as int),
        decreases src@.len(),
    {
        let ghost before = src@;
        proof {
            lemma_views_remove_first(before);
        }
        let x = src.remove(0);
        proof {
            assert(s0.skip(k as int)[0] == s0[k as int]);
            assert(views(src@) =~= s0.skip(k + 1));
            assert(x@ == s0[k as int]);
        }
        let ghost dbefore = dst@;
        dst.push(x);
        proof {
            lemma_views_push(dbefore, x);
            assert(s0.take(k + 1) =~= s0.take(k as int).push(s0[k as int]));
            assert(d0 + s0.take(k + 1) =~= (d0 + s0.take(k as int)).push(s0[k as int]));
        }
        k = k + 1;
    }
    assert(s0.take(k as int) =~= s0);
}

impl SearchEngine {
    /// Merges what the providers found for `query` in `tab` (each provider's
    /// results in its own order; those the tab does not use are ignored).
    pub fn search(
        &self,
        query: &str,
        tab: &str,
        apps: Vec<SearchResult>,
        menus: Vec<SearchResult>,
        files: Vec<SearchResult>,
        bookmarks: Vec<SearchResult>,
    ) -> (r: Vec<SearchResult>)
        requires
            forall|i: int| 0 <= i < apps@.len() ==> #[trigger] apps@[i].score <= i32::MAX - 100,
        ensures
            views(r@) == search_spec(
                query@,
                tab@,
                views(apps@),
                views(menus@),
                views(files@),
                views(bookmarks@),
            ),
    {
        if query.is_empty() {
            return Vec::new();
        }
        let p = providers_for_tab(tab);
        let ghost va = views(apps@);
        let ghost vm = views(menus@);
        let ghost vf = views(files@);
        let ghost vb = views(bookmarks@);
        let ghost sh = match shell_entry(query@, tab@) {
            Some(e) => seq![e],
            None => Seq::<ResultView>::empty(),
        };
        let mut results: Vec<SearchResult> = Vec::new();
        match shell_result(query, tab) {
            Some(s) => {
                results.push(s);
            },
            None => {},
        }
        assert(views(results@) =~= sh);
        if p.apps {
            let mut apps = apps;
            let ghost a0 = views(apps@);
            let n0 = apps.len();
            let mut k: usize = 0;
            let ghost r0 = views(results@);
            assert(a0.skip(0) =~= a0);
            assert(r0 + boosted(a0.take(0)) =~= r0);
            while apps.len() > 0
                invariant
                    k + apps@.len() == n0,
                    n0 == a0.len(),
                    views(apps@) == a0.skip(k as int),
                    forall|i: int| 0 <= i < apps@.len() ==> #[trigger] apps@[i].score <= i32::MAX - 100,
                    views(results@) == r0 + boosted(a0.take(k as int)),
                decreases apps@.len(),
            {
                let ghost before = apps@;
                proof {
                    lemma_views_remove_first(before);
                }
                let x = apps.remove(0);
                proof {
                    assert(a0.skip(k as int)[0] == a0[k as int]);
                    assert(views(apps@) =~= a0.skip(k + 1));
                    assert(x.score <= i32::MAX - 100);
                    assert(x@ == a0[k as int]);
                }
                let b = SearchResult { score: x.score + 100, ..x };
                let ghost rbefore = results@;
                results.push(b);
                proof {
                    lemma_views_push(rbefore, b);
                    assert(b@ == ResultView { score: (a0[k as int].score + 100) as i32, ..a0[k as int] });
                    assert(boosted(a0.take(k + 1)) =~= boosted(a0.take(k as int)).push(b@));
                    assert(r0 + boosted(a0.take(k + 1)) =~= (r0 + boosted(a0.take(k as int))).push(b@));
                }
                k = k + 1;
            }
            assert(a0.take(k as int) =~= a0);
        }
        let ghost s1 = sh + (if p.apps {
            boosted(va)
        } else {
            Seq::empty()
        });
        assert(views(results@) =~= s1);
        if p.menus {
            append_all(&mut results, menus);
        }
        let ghost s2 = s1 + (if p.menus {
            vm
        } else {
            Seq::empty()
        });
        assert(views(results@) =~= s2);
        if p.files {
            append_all(&mut results, files);
        }
        let ghost s3 = s2 + (if p.files {
            vf
        } else {
            Seq::empty()
        });
        assert(views(results@) =~= s3);
        if p.bookmarks {
            append_all(&mut results, bookmarks);
        }
        let ghost s4 = s3 + (if p.bookmarks {
            vb
        } else {
            Seq::empty()
        });
        assert(views(results@) =~= s4);
        top_by_score(results, 10)
    }
}

/// File search runs only for queries of at least two bytes.
pub fn file_query_long_enough(query: &str) -> (b: bool)
    ensures
        b == (utf8_len(query@) >= 2),
{
    let v = chars_of(query);
    utf8_len_reaches(&v, 2)
}

/// The result of a bookmark (title, URL, browser) with a match score:
/// subtitle `[browser] url`, opened as a URL.
pub open spec fn bookmark_view(title: Seq<char>, url: Seq<char>, browser: Seq<char>, score: i32) -> ResultView {
    ResultView {
        source: "bookmark"@,
        title,
        subtitle: "["@ + browser + "] "@ + url,
        action_type: "url"@,
        action_data: "{\"url\":\""@ + json_escape(url) + "\"}"@,
        score,
    }
}

/// The search result of a bookmark with a match score.
pub fn bookmark_result(bm: &BookmarkEntry, score: i32) -> (r: SearchResult)
    ensures
        r@ == bookmark_view(bm.title@, bm.url@, bm.browser@, score),
{
    let mut sub = owned("[");
    push_str(&mut sub, bm.browser.as_str());
    push_str(&mut sub, "] ");
    push_str(&mut sub, bm.url.as_str());
    let mut data = owned("{\"url\":\"");
    let esc = json_escape_str(bm.url.as_str());
    push_str(&mut data, esc.as_str());
    push_str(&mut data, "\"}");
    SearchResult {
        source: owned("bookmark"),
        title: owned(bm.title.as_str()),
        subtitle: sub,
        action_type: owned("url"),
        action_data: data,
        score,
    }
}

/// The result of a found file (`path` as listed, `name` its file name) with
/// a match score, opened with its default application.
pub open spec fn file_view(path: Seq<char>, name: Seq<char>, score: i32) -> ResultView {
    ResultView {
        source: "file"@,
        title: name,
        subtitle: path,
        action_type: "open_file"@,
        action_data: "{\"path\":\""@ + json_escape(path) + "\"}"@,
        score,
    }
}

/// The search result of a found file with a match score.
pub fn file_result(path: &str, name: &str, score: i32) -> (r: SearchResult)
    ensures
        r@ == file_view(path@, name@, score),
{
    let mut data = owned("{\"path\":\"");
    let esc = json_escape_str(path);
    push_str(&mut data, esc.as_str());
    push_str(&mut data, "\"}");
    SearchResult {
        source: owned("file"),
        title: owned(name),
        subtitle: owned(path),
        action_type: owned("open_file"),
        action_data: data,
        score,
    }
}

/// Characters of shell output returned at most.
pub const MAX_OUTPUT_CHARS: usize = 100 * 1024;

/// Shell output as shown: at most `MAX_OUTPUT_CHARS` characters, with a note
/// when cut.
pub open spec fn shell_output(s: Seq<char>) -> Seq<char> {
    if s.len() > MAX_OUTPUT_CHARS {
        s.take(MAX_OUTPUT_CHARS as int) + "...（输出已截断）"@
    } else {
        s
    }
}

/// The result of a shell command from its exit and output: a failure gives
/// `exit: <status>` and the error output; success gives the output (the
/// error output when there is none), cut to the limit.
pub fn execute_shell_result(success: bool, status: &str, stdout: String, stderr: String) -> (r: Result<String, String>)
    ensures
        !success ==> (r matches Err(e) && e@ == "exit: "@ + status@ + "\n"@ + stderr@),
        success ==> (r matches Ok(o) && o@ == shell_output(
            if stdout@.len() == 0 {
                stderr@
            } else {
                stdout@
            },
        )),
{
    if !success {
        let mut e = owned("exit: ");
        push_str(&mut e, status);
        push_str(&mut e, "\n");
        push_str(&mut e, stderr.as_str());
        return Err(e);
    }
    let result = if stdout.as_str().is_empty() {
        stderr
    } else {
        stdout
    };
    let v = chars_of(result.as_str());
    if v.len() > MAX_OUTPUT_CHARS {
        let mut t = crate::text::string_of(&v, 0, MAX_OUTPUT_CHARS);
        push_str(&mut t, "...（输出已截断）");
        assert(v@.subrange(0, MAX_OUTPUT_CHARS as int) =~= v@.take(MAX_OUTPUT_CHARS as int));
        Ok(t)
    } else {
        Ok(result)
    }
}


/// The matched bookmarks as results, in order; `scores[i]` is the match
/// score of bookmark `i` (none: it does not match).
pub open spec fn scored_bookmarks(bs: Seq<BookmarkEntry>, scores: Seq<Option<i32>>) -> Seq<ResultView>
    decreases bs.len(),
{
    if bs.len() == 0 {
        Seq::empty()
    } else {
        let r = scored_bookmarks(bs.drop_last(), scores);
        match scores[bs.len() - 1] {
            Some(sc) => r.push(bookmark_view(bs.last().title@, bs.last().url@, bs.last().browser@, sc)),
            None => r,
        }
    }
}

/// Bookmarks shown at most.
pub const MAX_BOOKMARK_RESULTS: usize = 10;

/// Bookmark search: the matched bookmarks, the ten best by score (equal
/// scores keep the bookmarks' order).
pub fn search_bookmarks(bookmarks: &Vec<BookmarkEntry>, scores: &Vec<Option<i32>>) -> (r: Vec<SearchResult>)
    requires
        scores@.len() == bookmarks@.len(),
    ensures
        views(r@) == first_n(sort_desc(scored_bookmarks(bookmarks@, scores@)), MAX_BOOKMARK_RESULTS as int),
{
    let mut hits: Vec<SearchResult> = Vec::new();
    let mut i: usize = 0;
    while i < bookmarks.len()
        invariant
            i <= bookmarks@.len(),
            scores@.len() == bookmarks@.len(),
            views(hits@) == scored_bookmarks(bookmarks@.take(i as int), scores@),
        decreases bookmarks@.len() - i,
    {
        proof {
            assert(bookmarks@.take(i + 1).drop_last() =~= bookmarks@.take(i as int));
            assert(bookmarks@.take(i + 1).last() == bookmarks@[i as int]);
        }
        match scores[i] {
            Some(sc) => {
                let ghost before = hits@;
                let r = bookmark_result(&bookmarks[i], sc);
                hits.push(r);
                proof {
                    lemma_views_push(before, r);
                }
            },
            None => {},
        }
        i = i + 1;
    }
    assert(bookmarks@.take(bookmarks@.len() as int) =~= bookmarks@);
    top_by_score(hits, MAX_BOOKMARK_RESULTS)
}

/// A file found by the file search: the listed path and its file name.
pub struct FileCandidate {
    pub path: String,
    pub name: String,
}

/// Lines of the file search output considered at most.
pub const MAX_FILE_LINES: usize = 20;

/// The name shown for a listed path: its file name, or the whole line when
/// it has none.
pub open spec fn shown_name(line: Seq<char>) -> Seq<char> {
    match file_name(line) {
        Some(n) => n,
        None => line,
    }
}

/// The candidates of the file search output: its first twenty lines.
pub open spec fn candidates_spec(stdout: Seq<char>) -> Seq<(Seq<char>, Seq<char>)> {
    let ls = lines(stdout);
    let k = if ls.len() > MAX_FILE_LINES { MAX_FILE_LINES as int } else { ls.len() as int };
    Seq::new(k as nat, |i: int| (ls[i], shown_name(ls[i])))
}

/// Candidates by value.
pub open spec fn candidate_views(v: Seq<FileCandidate>) -> Seq<(Seq<char>, Seq<char>)> {
    Seq::new(v.len(), |i: int| (v[i].path@, v[i].name@))
}

/// The files listed by the file search (one path per line).
pub fn file_candidates(stdout: &str) -> (r: Vec<FileCandidate>)
    ensures
        candidate_views(r@) == candidates_spec(stdout@),
{
    let v = chars_of(stdout);
    let ls = split_lines(v.as_slice());
    let ghost lv = Seq::new(ls@.len(), |i: int| ls@[i]@);
    let k: usize = if ls.len() > MAX_FILE_LINES { MAX_FILE_LINES } else { ls.len() };
    let mut r: Vec<FileCandidate> = Vec::new();
    let mut i: usize = 0;
    while i < k
        invariant
            i <= k,
            k <= ls@.len(),
            lv == lines(stdout@),
            lv == Seq::new(ls@.len(), |j: int| ls@[j]@),
            k == (if lv.len() > MAX_FILE_LINES { MAX_FILE_LINES as int } else { lv.len() as int }),
            candidate_views(r@) == Seq::new(i as nat, |j: int| (lv[j], shown_name(lv[j]))),
        decreases k - i,
    {
        let line = &ls[i];
        let path = string_of(line.as_slice(), 0, line.len());
        proof {
            assert(line@.subrange(0, line@.len() as int) =~= line@);
        }
        let name = match file_name_of(line.as_slice()) {
            Some(n) => {
                let t = string_of(n.as_slice(), 0, n.len());
                proof {
                    assert(n@.subrange(0, n@.len() as int) =~= n@);
                }
                t
            },
            None => string_of(line.as_slice(), 0, line.len()),
        };
        assert(path@ == line@);
        assert(name@ == shown_name(line@));
        assert(lv[i as int] == line@);
        let ghost old_r = r@;
        assert(candidate_views(old_r).len() == i);
        assert(old_r.len() == i);
        r.push(FileCandidate { path, name });
        proof {
            assert forall|j: int| 0 <= j < i implies #[trigger] candidate_views(r@)[j] == candidate_views(old_r)[j] by {
                assert(r@[j] == old_r[j]);
            }
            assert(candidate_views(r@)[i as int] == (lv[i as int], shown_name(lv[i as int])));
        }
        assert(candidate_views(r@) =~= Seq::new((i + 1) as nat, |j: int| (lv[j], shown_name(lv[j]))));
        i = i + 1;
    }
    assert(candidate_views(r@) =~= candidates_spec(stdout@));
    r
}

/// The matched candidates as results, in order; `scores[i]` is the match
/// score of candidate `i`'s name.
pub open spec fn scored_files(cs: Seq<FileCandidate>, scores: Seq<Option<i32>>) -> Seq<ResultView>
    decreases cs.len(),
{
    if cs.len() == 0 {
        Seq::empty()
    } else {
        let r = scored_files(cs.drop_last(), scores);
        match scores[cs.len() - 1] {
            Some(sc) => r.push(file_view(cs.last().path@, cs.last().name@, sc)),
            None => r,
        }
    }
}

/// Files shown at most.
pub const MAX_FILE_RESULTS: usize = 10;

/// File search: the matched candidates, the ten best by score.
pub fn search_files(candidates: &Vec<FileCandidate>, scores: &Vec<Option<i32>>) -> (r: Vec<SearchResult>)
    requires
        scores@.len() == candidates@.len(),
    ensures
        views(r@) == first_n(sort_desc(scored_files(candidates@, scores@)), MAX_FILE_RESULTS as int),
{
    let mut hits: Vec<SearchResult> = Vec::new();
    let mut i: usize = 0;
    while i < candidates.len()
        invariant
            i <= candidates@.len(),
            scores@.len() == candidates@.len(),
            views(hits@) == scored_files(candidates@.take(i as int), scores@),
        decreases candidates@.len() - i,
    {
        proof {
            assert(candidates@.take(i + 1).drop_last() =~= candidates@.take(i as int));
            assert(candidates@.take(i + 1).last() == candidates@[i as int]);
        }
        match scores[i] {
            Some(sc) => {
                let ghost before = hits@;
                let r = file_result(candidates[i].path.as_str(), candidates[i].name.as_str(), sc);
                hits.push(r);
                proof {
                    lemma_views_push(before, r);
                }
            },
            None => {},
        }
        i = i + 1;
    }
    assert(candidates@.take(candidates@.len() as int) =~= candidates@);
    top_by_score(hits, MAX_FILE_RESULTS)
}


/// An action bar entry (menu item or quicklink) as stored.
pub struct MenuRow {
    pub id: i64,
    pub title: String,
    pub action_type: String,
    pub action_data: String,
    pub is_enabled: bool,
}

/// Whether a stored entry can be found by the search: enabled and not a submenu.
pub open spec fn menu_searchable(enabled: bool, action_type: Seq<char>) -> bool {
    enabled && action_type != "submenu"@
}

/// The result of an action bar entry with a match score; its data is the
/// entry as a JSON object with sorted keys (as `serde_json` writes a map).
pub open spec fn menu_view(id: i64, title: Seq<char>, action_type: Seq<char>, action_data: Seq<char>, score: i32) -> ResultView {
    ResultView {
        source: "menu"@,
        title,
        subtitle: action_type,
        action_type: "menu"@,
        action_data: "{\"action_data\":\""@ + json_escape(action_data) + "\",\"action_type\":\""@
            + json_escape(action_type) + "\",\"id\":"@ + signed_decimal(id as int) + "}"@,
        score,
    }
}

/// The matched, searchable entries as results, in order; `scores[i]` is the
/// match score of entry `i`'s title.
pub open spec fn scored_menus(rows: Seq<MenuRow>, scores: Seq<Option<i32>>) -> Seq<ResultView>
    decreases rows.len(),
{
    if rows.len() == 0 {
        Seq::empty()
    } else {
        let r = scored_menus(rows.drop_last(), scores);
        let row = rows.last();
        match scores[rows.len() - 1] {
            Some(sc) => if menu_searchable(row.is_enabled, row.action_type@) {
                r.push(menu_view(row.id, row.title@, row.action_type@, row.action_data@, sc))
            } else {
                r
            },
            None => r,
        }
    }
}

/// Menu and quicklink results shown at most.
pub const MAX_MENU_RESULTS: usize = 5;

fn menu_result(row: &MenuRow, score: i32) -> (r: SearchResult)
    ensures
        r@ == menu_view(row.id, row.title@, row.action_type@, row.action_data@, score),
{
    let mut data = owned("{\"action_data\":\"");
    let d = json_escape_str(row.action_data.as_str());
    push_str(&mut data, d.as_str());
    push_str(&mut data, "\",\"action_type\":\"");
    let t = json_escape_str(row.action_type.as_str());
    push_str(&mut data, t.as_str());
    push_str(&mut data, "\",\"id\":");
    let n = i64_decimal(row.id);
    push_str(&mut data, n.as_str());
    push_str(&mut data, "}");
    SearchResult {
        source: owned("menu"),
        title: owned(row.title.as_str()),
        subtitle: owned(row.action_type.as_str()),
        action_type: owned("menu"),
        action_data: data,
        score,
    }
}

/// Menu and quicklink search: the enabled, non-submenu entries whose titles
/// match, the five best by score.
pub fn search_menus_and_quicklinks(rows: &Vec<MenuRow>, scores: &Vec<Option<i32>>) -> (r: Vec<SearchResult>)
    requires
        scores@.len() == rows@.len(),
    ensures
        views(r@) == first_n(sort_desc(scored_menus(rows@, scores@)), MAX_MENU_RESULTS as int),
{
    let mut hits: Vec<SearchResult> = Vec::new();
    let mut i: usize = 0;
    while i < rows.len()
        invariant
            i <= rows@.len(),
            scores@.len() == rows@.len(),
            views(hits@) == scored_menus(rows@.take(i as int), scores@),
        decreases rows@.len() - i,
    {
        proof {
            assert(rows@.take(i + 1).drop_last() =~= rows@.take(i as int));
            assert(rows@.take(i + 1).last() == rows@[i as int]);
        }
        let row = &rows[i];
        match scores[i] {
            Some(sc) => {
                if row.is_enabled && !str_eq(row.action_type.as_str(), "submenu") {
                    let ghost before = hits@;
                    let r = menu_result(row, sc);
                    hits.push(r);
                    proof {
                        lemma_views_push(before, r);
                    }
                }
            },
            None => {},
        }
        i = i + 1;
    }
    assert(rows@.take(rows@.len() as int) =~= rows@);
    top_by_score(hits, MAX_MENU_RESULTS)
}


/// Results in order of non-increasing score.
pub open spec fn best_first(s: Seq<ResultView>) -> bool {
    forall|i: int, j: int| 0 <= i < j < s.len() ==> s[i].score >= s[j].score
}

proof fn lemma_insert_desc(s: Seq<ResultView>, x: ResultView)
    requires
        best_first(s),
    ensures
        best_first(insert_desc(s, x)),
        insert_desc(s, x).len() == s.len() + 1,
        insert_desc(s, x).to_multiset() == s.to_multiset().insert(x),
    decreases s.len(),
{
    broadcast use vstd::seq_lib::group_seq_properties, vstd::multiset::group_multiset_axioms;
    if s.len() == 0 {
        assert(insert_desc(s, x) =~= seq![x]);
    } else if s[0].score < x.score {
        let r = seq![x] + s;
        assert(insert_desc(s, x) == r);
        assert forall|i: int, j: int| 0 <= i < j < r.len() implies r[i].score >= r[j].score by {
            if i > 0 {
                assert(r[i] == s[i - 1]);
                assert(r[j] == s[j - 1]);
            } else {
                assert(r[j] == s[j - 1]);
                assert(s[0].score >= s[j - 1].score);
            }
        }
        assert(r =~= seq![x].add(s));
        vstd::seq_lib::lemma_multiset_commutative(seq![x], s);
    } else {
        let t = s.drop_first();
        assert(best_first(t)) by {
            assert forall|i: int, j: int| 0 <= i < j < t.len() implies t[i].score >= t[j].score by {
                assert(t[i] == s[i + 1]);
                assert(t[j] == s[j + 1]);
            }
        }
        lemma_insert_desc(t, x);
        let it = insert_desc(t, x);
        let r = seq![s[0]] + it;
        assert(insert_desc(s, x) == r);
        assert forall|k: int| 0 <= k < it.len() implies s[0].score >= #[trigger] it[k].score by {
            assert(it.to_multiset().count(it[k]) > 0);
            assert(t.to_multiset().insert(x).count(it[k]) > 0);
            if it[k] != x {
                assert(t.to_multiset().count(it[k]) > 0);
                assert(t.contains(it[k]));
                let m = choose|m: int| 0 <= m < t.len() && t[m] == it[k];
                assert(s[m + 1] == t[m]);
            }
        }
        assert forall|i: int, j: int| 0 <= i < j < r.len() implies r[i].score >= r[j].score by {
            if i > 0 {
                assert(r[i] == it[i - 1]);
                assert(r[j] == it[j - 1]);
            } else {
                assert(r[j] == it[j - 1]);
            }
        }
        vstd::seq_lib::lemma_multiset_commutative(seq![s[0]], it);
        vstd::seq_lib::lemma_multiset_commutative(seq![s[0]], t);
        assert(s =~= seq![s[0]] + t);
    }
}

proof fn lemma_sort_desc(s: Seq<ResultView>)
    ensures
        best_first(sort_desc(s)),
        sort_desc(s).to_multiset() == s.to_multiset(),
        sort_desc(s).len() == s.len(),
    decreases s.len(),
{
    broadcast use vstd::seq_lib::group_seq_properties, vstd::multiset::group_multiset_axioms;
    if s.len() > 0 {
        lemma_sort_desc(s.drop_last());
        lemma_insert_desc(sort_desc(s.drop_last()), s.last());
        assert(s =~= s.drop_last().push(s.last()));
    }
}

/// In the `bookmarks`, `files` and `apps` tabs a search for a non-empty query
/// gives the ten best results of that tab's own provider (applications with
/// their score raised by 100), whatever the other providers found.
pub proof fn law_single_provider_tab(
    query: Seq<char>,
    apps: Seq<ResultView>,
    menus: Seq<ResultView>,
    files: Seq<ResultView>,
    bookmarks: Seq<ResultView>,
)
    requires
        query.len() > 0,
    ensures
        search_spec(query, "bookmarks"@, apps, menus, files, bookmarks) == first_n(sort_desc(bookmarks), 10),
        search_spec(query, "files"@, apps, menus, files, bookmarks) == first_n(sort_desc(files), 10),
        search_spec(query, "apps"@, apps, menus, files, bookmarks) == first_n(
            sort_desc(apps.map_values(|r: ResultView| ResultView { score: (r.score + 100) as i32, ..r })),
            10,
        ),
{
    reveal_strlit("bookmarks");
    reveal_strlit("files");
    reveal_strlit("apps");
    reveal_strlit("all");
    reveal_strlit("shell");
    assert("bookmarks"@.len() == 9 && "files"@.len() == 5 && "apps"@.len() == 4);
    assert("all"@.len() == 3 && "shell"@.len() == 5);
    assert("files"@[0] == 'f' && "shell"@[0] == 's');
    assert("files"@ != "shell"@);
    let e = Seq::<ResultView>::empty();
    assert(e + e + e + e + bookmarks =~= bookmarks);
    assert(e + e + e + files + e =~= files);
    assert(e + boosted(apps) + e + e + e =~= apps.map_values(
        |r: ResultView| ResultView { score: (r.score + 100) as i32, ..r },
    ));
}

/// The results of a search come best first, and there are at most ten.
pub proof fn law_search_results_ranked(
    query: Seq<char>,
    tab: Seq<char>,
    apps: Seq<ResultView>,
    menus: Seq<ResultView>,
    files: Seq<ResultView>,
    bookmarks: Seq<ResultView>,
)
    ensures
        best_first(search_spec(query, tab, apps, menus, files, bookmarks)),
        search_spec(query, tab, apps, menus, files, bookmarks).len() <= 10,
{
    if query.len() > 0 {
        let p = tab_providers(tab);
        let all = (match shell_entry(query, tab) {
            Some(e) => seq![e],
            None => Seq::empty(),
        }) + (if p.apps {
            boosted(apps)
        } else {
            Seq::empty()
        }) + (if p.menus {
            menus
        } else {
            Seq::empty()
        }) + (if p.files {
            files
        } else {
            Seq::empty()
        }) + (if p.bookmarks {
            bookmarks
        } else {
            Seq::empty()
        });
        lemma_sort_desc(all);
        let srt = sort_desc(all);
        let r = first_n(srt, 10);
        assert forall|i: int, j: int| 0 <= i < j < r.len() implies r[i].score >= r[j].score by {
            assert(r[i] == srt[i]);
            assert(r[j] == srt[j]);
        }
    }
}

/// Bookmark, file and menu searches give their best matches first, at most
/// their limit and no more than matched.
pub proof fn law_provider_results_ranked(items: Seq<ResultView>, n: int)
    requires
        n >= 0,
    ensures
        best_first(first_n(sort_desc(items), n)),
        first_n(sort_desc(items), n).len() <= n,
        first_n(sort_desc(items), n).len() <= items.len(),
{
    lemma_sort_desc(items);
    let srt = sort_desc(items);
    let r = first_n(srt, n);
    assert forall|i: int, j: int| 0 <= i < j < r.len() implies r[i].score >= r[j].score by {
        assert(r[i] == srt[i]);
        assert(r[j] == srt[j]);
    }
}

} // verus!
