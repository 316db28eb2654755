//! Chrome and Edge bookmarks: the bookmark tree under `roots` of the
//! bookmark file's JSON, walked in document order, keeps the links that have
//! both a name and a URL.
use vstd::prelude::*;
use crate::json::{array_of, field, get_array, get_str, key_index_from, parse_json, spec_json, str_of};
use crate::json::JsonValue;
use crate::search::BookmarkEntry;
use crate::text::{owned, str_eq};

verus! {

/// A bookmark by value: title, URL, browser.
pub type BookmarkView = (Seq<char>, Seq<char>, Seq<char>);

/// The value of a field, the empty text when it is missing.
pub open spec fn or_empty(s: Option<Seq<char>>) -> Seq<char> {
    match s {
        Some(t) => t,
        None => Seq::empty(),
    }
}

/// The children of a node: its `children` array (none when it has none).
pub open spec fn children(n: JsonValue) -> Seq<JsonValue> {
    match array_of(field(n, "children"@)) {
        Some(a) => a,
        None => Seq::empty(),
    }
}

/// The bookmark that `n` itself is: a node of `type` `url` whose `name` and
/// `url` are non-empty strings.
pub open spec fn own_entry(n: JsonValue, browser: Seq<char>) -> Seq<BookmarkView> {
    if str_of(field(n, "type"@)) == Some("url"@) && or_empty(str_of(field(n, "name"@))).len() > 0
        && or_empty(str_of(field(n, "url"@))).len() > 0 {
        seq![(or_empty(str_of(field(n, "name"@))), or_empty(str_of(field(n, "url"@))), browser)]
    } else {
        Seq::empty()
    }
}

/// A child of a node is smaller than the node.
pub proof fn lemma_child_decreases(n: JsonValue, k: int)
    requires
        0 <= k < children(n).len(),
    ensures
        decreases_to!(n => children(n)[k]),
{
    match n {
        JsonValue::Object(ms) => {
            let i = key_index_from(ms@, "children"@, 0);
            let m = ms@[i];
            assert(decreases_to!(n => ms));
            assert(decreases_to!(ms => ms@));
            assert(decreases_to!(ms@ => m));
            assert(decreases_to!(m => m.value));
            match m.value {
                JsonValue::Array(a) => {
                    assert(decreases_to!(m.value => a));
                    assert(decreases_to!(a => a@));
                    assert(decreases_to!(a@ => a@[k]));
                },
                _ => {},
            }
        },
        _ => {},
    }
}

/// The bookmarks below `n`: for each child in order, the child itself, then
/// the bookmarks below it.
pub open spec fn below(n: JsonValue, browser: Seq<char>) -> Seq<BookmarkView>
    decreases n, children(n).len() + 1,
{
    below_first(n, children(n).len() as int, browser)
}

/// The bookmarks from the first `k` children of `n`.
pub open spec fn below_first(n: JsonValue, k: int, browser: Seq<char>) -> Seq<BookmarkView>
    decreases n, k,
{
    if k <= 0 || k > children(n).len() {
        Seq::empty()
    } else {
        let c = children(n)[k - 1];
        proof {
            lemma_child_decreases(n, k - 1);
        }
        below_first(n, k - 1, browser) + own_entry(c, browser) + below(c, browser)
    }
}

/// Views of bookmarks.
pub open spec fn bookmark_views(v: Seq<BookmarkEntry>) -> Seq<BookmarkView> {
    Seq::new(v.len(), |i: int| (v[i].title@, v[i].url@, v[i].browser@))
}

/// The bookmark a node is, appended to `out`.
fn push_own(child: &JsonValue, browser: &str, out: &mut Vec<BookmarkEntry>)
    ensures
        bookmark_views(final(out)@) == bookmark_views(old(out)@) + own_entry(*child, browser@),
{
    let ghost before = bookmark_views(out@);
    let is_url = match get_str(child, "type") {
        Some(t) => str_eq(t.as_str(), "url"),
        None => false,
    };
    if is_url {
        let title = match get_str(child, "name") {
            Some(t) => t,
            None => String::new(),
        };
        let url = match get_str(child, "url") {
            Some(u) => u,
            None => String::new(),
        };
        if title.as_str().unicode_len() > 0 && url.as_str().unicode_len() > 0 {
            out.push(BookmarkEntry { title, url, browser: owned(browser) });
        }
    }
    assert(bookmark_views(out@) =~= before + own_entry(*child, browser@));
}

fn walk(node: &JsonValue, browser: &str, out: &mut Vec<BookmarkEntry>)
    ensures
        bookmark_views(final(out)@) == bookmark_views(old(out)@) + below(*node, browser@),
    decreases node,
{
    let ghost start = bookmark_views(out@);
    let cs = match get_array(node, "children") {
        Some(cs) => cs,
        None => {
            assert(below(*node, browser@) =~= Seq::empty());
            assert(bookmark_views(out@) =~= start + below(*node, browser@));
            return;
        },
    };
    assert(cs@ == children(*node));
    let mut i: usize = 0;
    while i < cs.len()
        invariant
            cs@ == children(*node),
            i <= cs@.len(),
            bookmark_views(out@) == start + below_first(*node, i as int, browser@),
        decreases cs@.len() - i,
    {
        let child = &cs[i];
        push_own(child, browser, out);
        proof {
            lemma_child_decreases(*node, i as int);
        }
        walk(child, browser, out);
        proof {
            assert(below_first(*node, i + 1, browser@) =~= below_first(*node, i as int, browser@)
                + own_entry(*child, browser@) + below(*child, browser@));
        }
        i = i + 1;
    }
}

/// The bookmarks below a `roots` node (none without one), tagged with `browser`.
pub fn chromium_bookmarks(roots: Option<&JsonValue>, browser: &str) -> (r: Vec<BookmarkEntry>)
    ensures
        bookmark_views(r@) == match roots {
            Some(n) => below(*n, browser@),
            None => Seq::empty(),
        },
{
    let mut out: Vec<BookmarkEntry> = Vec::new();
    assert(bookmark_views(out@) =~= Seq::empty());
    match roots {
        Some(n) => {
            walk(n, browser, &mut out);
        },
        None => {},
    }
    out
}

/// The bookmarks of a Chromium bookmark file's JSON `j`: those below its
/// `roots` member; none when the text is not JSON or has no `roots`.
pub open spec fn file_bookmarks(j: Option<JsonValue>, browser: Seq<char>) -> Seq<BookmarkView> {
    match j {
        Some(v) => match field(v, "roots"@) {
            Some(n) => below(n, browser),
            None => Seq::empty(),
        },
        None => Seq::empty(),
    }
}

/// The bookmarks of a Chromium bookmark file with text `content`, tagged with
/// `browser`.
pub fn chromium_bookmarks_of_file(content: &str, browser: &str) -> (r: Vec<BookmarkEntry>)
    ensures
        bookmark_views(r@) == file_bookmarks(spec_json(content@), browser@),
{
    match parse_json(content) {
        Some(j) => chromium_bookmarks(crate::json::get(&j, "roots"), browser),
        None => {
            let out: Vec<BookmarkEntry> = Vec::new();
            assert(bookmark_views(out@) =~= Seq::empty());
            out
        },
    }
}

} // verus!
