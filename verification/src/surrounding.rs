//! Surrounding text of a selection in the front application: which source
//! to try, what the browser script and the Sublime Text plugin are, and how
//! their answers become a before/after context.
use vstd::prelude::*;
use crate::context_text::{
    opt_pair, strip_control_chars, strip_ctrl, sublime_context, selection_context, tail_text, truncate_text_head, truncate_text_tail,
};
use crate::file_hint::{ascii_lowercase, ascii_lowercase_chars, file_name, opt_view};
use crate::text::{
    chars_of, contains, decimal_digits, decimal_string, contains_chars, find, first_occurrence, opt_seq, owned, push_str, str_eq,
    string_of, trim, trim_bounds, trimmed,
};
use crate::bookmarks::or_empty;
use crate::json::{field, get_str, get_u64, parse_json, spec_json, str_of, u64_of, JsonValue};

verus! {

/// Characters of context kept on each side in an editor.
pub const SURROUNDING_LIMIT: usize = 1000;

/// Lines of terminal scroll-back kept before the selection.
pub const TERMINAL_MAX_LINES: usize = 30;

/// Characters of terminal scroll-back kept on each side.
pub const TERMINAL_MAX_CHARS: usize = 1000;

/// Context around a selection.
pub struct SurroundingText {
    pub before: Option<String>,
    pub after: Option<String>,
    pub window_title: Option<String>,
}

/// The three parts of a context, by view.
pub open spec fn st_view(s: SurroundingText) -> (Option<Seq<char>>, Option<Seq<char>>, Option<Seq<char>>) {
    (opt_seq(s.before), opt_seq(s.after), opt_seq(s.window_title))
}

/// Kind of application, as far as context gathering distinguishes them.
#[derive(Clone, Copy, Debug, PartialEq, Eq, Structural)]
pub enum AppKind {
    Browser,
    Editor,
    Terminal,
    Unknown,
}

/// Accessibility roles that hold text.
pub open spec fn spec_is_text_role(role: Seq<char>) -> bool {
    role == "AXTextArea"@ || role == "AXTextField"@ || role == "AXText"@ || role == "AXStaticText"@
}

/// Whether an accessibility role is a text element.
pub fn is_text_element(role: &str) -> (b: bool)
    ensures
        b == spec_is_text_role(role@),
{
    str_eq(role, "AXTextArea") || str_eq(role, "AXTextField") || str_eq(role, "AXText") || str_eq(
        role,
        "AXStaticText",
    )
}

/// Whether an editor's accessibility text is not the real document: it is
/// empty, or does not contain the (trimmed) selection. Self-drawn editors
/// expose only a watermark or nothing.
pub open spec fn spec_needs_fallback(kind: AppKind, selected: Seq<char>, full: Seq<char>) -> bool {
    kind == AppKind::Editor && selected.len() > 0 && (trim(full).len() == 0 || !contains(
        trim(full),
        trim(selected),
    ))
}

/// Whether the editor's text must be looked for elsewhere.
pub fn needs_editor_fallback(kind: AppKind, selected_text: &str, full_text: &str) -> (b: bool)
    ensures
        b == spec_needs_fallback(kind, selected_text@, full_text@),
{
    if kind != AppKind::Editor || selected_text.is_empty() {
        return false;
    }
    let sv = chars_of(selected_text);
    let fv = chars_of(full_text);
    let (slo, shi) = trim_bounds(&sv);
    let (flo, fhi) = trim_bounds(&fv);
    if flo >= fhi {
        return true;
    }
    let st = crate::text::copy_range(&sv, slo, shi);
    let ft = crate::text::copy_range(&fv, flo, fhi);
    !contains_chars(&ft, &st)
}

/// A source of the document text when the accessibility text is not it.
#[derive(Clone, Copy, Debug, PartialEq, Eq, Structural)]
pub enum FallbackSource {
    /// The Sublime Text plugin export.
    SublimePlugin,
    /// The body text of the front Pages document, by AppleScript.
    PagesScript,
    /// The documents the process has open, by `lsof`.
    OpenFiles,
    /// The file named in the window title, found on disk.
    TitleFile,
}

/// Fallback sources to try, in order, for an application (by bundle id or
/// name) and whether its window has a title.
pub open spec fn fallback_order(app: Seq<char>, has_title: bool) -> Seq<FallbackSource> {
    (if contains(app, "sublimetext"@) {
        seq![FallbackSource::SublimePlugin]
    } else {
        Seq::empty()
    }) + (if contains(ascii_lowercase(app), "iwork"@) {
        seq![FallbackSource::PagesScript]
    } else {
        Seq::empty()
    }) + seq![FallbackSource::OpenFiles] + (if has_title {
        seq![FallbackSource::TitleFile]
    } else {
        Seq::empty()
    })
}

/// The fallback sources for an application, in the order they are tried.
pub fn fallback_sources(bundle_id_or_name: &str, has_title: bool) -> (r: Vec<FallbackSource>)
    ensures
        r@ == fallback_order(bundle_id_or_name@, has_title),
{
    let app = chars_of(bundle_id_or_name);
    let mut r: Vec<FallbackSource> = Vec::new();
    if contains_chars(&app, &chars_of("sublimetext")) {
        r.push(FallbackSource::SublimePlugin);
    }
    let low = ascii_lowercase_chars(&app);
    if contains_chars(&low, &chars_of("iwork")) {
        r.push(FallbackSource::PagesScript);
    }
    r.push(FallbackSource::OpenFiles);
    if has_title {
        r.push(FallbackSource::TitleFile);
    }
    assert(r@ =~= fallback_order(bundle_id_or_name@, has_title));
    r
}

/// `truncate_text_tail` as a value.
pub open spec fn tail_opt(s: Seq<char>, max_lines: nat, max_chars: nat) -> Option<Seq<char>> {
    if s.len() == 0 {
        None
    } else {
        Some(tail_text(s, max_lines, max_chars))
    }
}

/// `truncate_text_head` as a value.
pub open spec fn head_opt(s: Seq<char>, max_chars: nat) -> Option<Seq<char>> {
    if s.len() == 0 {
        None
    } else if s.len() <= max_chars {
        Some(s)
    } else {
        Some(s.take(max_chars as int).push('…'))
    }
}

/// Terminal context: the accessibility range of a terminal does not match its
/// text, so the (trimmed) selection is searched for; the scroll-back before it
/// is cut to its last lines and the output after it to its first characters.
/// When the selection is not in the visible text, the end of the scroll-back
/// is the context before it.
pub open spec fn terminal_context(full: Seq<char>, selected: Seq<char>) -> (Option<Seq<char>>, Option<Seq<char>>) {
    if full.len() == 0 || selected.len() == 0 {
        (None, None)
    } else {
        let sel = trim(selected);
        if contains(full, sel) {
            let pos = choose|i: int| first_occurrence(full, sel, i);
            (
                tail_opt(full.take(pos), TERMINAL_MAX_LINES as nat, TERMINAL_MAX_CHARS as nat),
                head_opt(full.skip(pos + sel.len()), TERMINAL_MAX_CHARS as nat),
            )
        } else {
            (tail_opt(full, TERMINAL_MAX_LINES as nat, TERMINAL_MAX_CHARS as nat), None)
        }
    }
}

/// Before/after context of a selection in terminal scroll-back.
pub fn terminal_surrounding(full_text: &str, selected_text: &str) -> (r: (Option<String>, Option<String>))
    ensures
        (opt_seq(r.0), opt_seq(r.1)) == terminal_context(full_text@, selected_text@),
{
    if full_text.is_empty() || selected_text.is_empty() {
        return (None, None);
    }
    let fv = chars_of(full_text);
    let sv = chars_of(selected_text);
    let (lo, hi) = trim_bounds(&sv);
    let sel = crate::text::copy_range(&sv, lo, hi);
    match find(&fv, &sel) {
        Some(pos) => {
            proof {
                let c = choose|c: int| first_occurrence(fv@, sel@, c);
                crate::text::lemma_first_occurrence_unique(fv@, sel@, pos as int, c);
            }
            let before = string_of(&fv, 0, pos);
            let n = fv.len();
            assert(pos + sel@.len() <= n);
            let after = string_of(&fv, pos + sel.len(), fv.len());
            assert(fv@.subrange(0, pos as int) =~= fv@.take(pos as int));
            assert(fv@.subrange(pos + sel@.len(), fv@.len() as int) =~= fv@.skip(pos + sel@.len()));
            let b = truncate_text_tail(before.as_str(), TERMINAL_MAX_LINES, TERMINAL_MAX_CHARS);
            let a = truncate_text_head(after.as_str(), TERMINAL_MAX_CHARS);
            (b, a)
        },
        None => (truncate_text_tail(full_text, TERMINAL_MAX_LINES, TERMINAL_MAX_CHARS), None),
    }
}

/// An empty side of a context counts as none.
pub open spec fn nonempty(o: Option<Seq<char>>) -> Option<Seq<char>> {
    match o {
        Some(s) => if s.len() == 0 {
            None
        } else {
            Some(s)
        },
        None => None,
    }
}

fn nonempty_string(o: Option<String>) -> (r: Option<String>)
    ensures
        opt_seq(r) == nonempty(opt_seq(o)),
{
    match o {
        Some(s) => if s.as_str().is_empty() {
            None
        } else {
            Some(s)
        },
        None => None,
    }
}

/// Drops empty before/after texts.
pub fn drop_empty_sides(s: SurroundingText) -> (r: SurroundingText)
    ensures
        opt_seq(r.before) == nonempty(opt_seq(s.before)),
        opt_seq(r.after) == nonempty(opt_seq(s.after)),
        opt_seq(r.window_title) == opt_seq(s.window_title),
{
    SurroundingText {
        before: nonempty_string(s.before),
        after: nonempty_string(s.after),
        window_title: s.window_title,
    }
}

/// What the accessibility tree's text means for the context of a selection.
pub enum SurroundingPlan {
    /// An editor whose tree lacks the document: try these sources in order;
    /// when none gives context, the context is the window title alone.
    Fallback(Vec<FallbackSource>),
    /// A terminal: the context found in the scroll-back (empty sides dropped).
    Terminal(SurroundingText),
    /// Cut the cleaned text around the selected range, keep the window
    /// title, and drop empty sides.
    AroundRange(String),
}

/// The accessibility text with control characters removed; none when it
/// could not be read.
pub open spec fn cleaned_value(ax_value: Option<Seq<char>>) -> Seq<char> {
    match ax_value {
        Some(v) => strip_ctrl(v),
        None => Seq::empty(),
    }
}

/// The context plan for a selection in an application of kind `kind`, from
/// the focused text element's value (`None`: unreadable) and the window title.
pub fn build_surrounding(
    kind: AppKind,
    selected_text: &str,
    ax_value: Option<String>,
    window_title: Option<String>,
    bundle_id_or_name: &str,
) -> (r: SurroundingPlan)
    ensures
        ({
            let full = cleaned_value(opt_seq(ax_value));
            if spec_needs_fallback(kind, selected_text@, full) {
                r matches SurroundingPlan::Fallback(v) && v@ == fallback_order(bundle_id_or_name@, window_title is Some)
            } else if kind == AppKind::Terminal {
                r matches SurroundingPlan::Terminal(st) && st_view(st) == (
                    nonempty(terminal_context(full, selected_text@).0),
                    nonempty(terminal_context(full, selected_text@).1),
                    opt_seq(window_title),
                )
            } else {
                r matches SurroundingPlan::AroundRange(t) && t@ == full
            }
        }),
{
    let full = match &ax_value {
        Some(v) => strip_control_chars(v.as_str()),
        None => String::new(),
    };
    proof {
        if ax_value is None {
            assert(full@ =~= Seq::<char>::empty());
        }
    }
    if needs_editor_fallback(kind, selected_text, full.as_str()) {
        return SurroundingPlan::Fallback(fallback_sources(bundle_id_or_name, window_title.is_some()));
    }
    if kind == AppKind::Terminal {
        let (before, after) = terminal_surrounding(full.as_str(), selected_text);
        return SurroundingPlan::Terminal(drop_empty_sides(SurroundingText { before, after, window_title }));
    }
    SurroundingPlan::AroundRange(full)
}

/// When every fallback source fails, the context is the window title alone.
pub fn degraded_surrounding(window_title: Option<String>) -> (r: SurroundingText)
    ensures
        st_view(r) == (None::<Seq<char>>, None::<Seq<char>>, opt_seq(window_title)),
{
    SurroundingText { before: None, after: None, window_title }
}

/// Whether the front application is Sublime Text, from its bundle id.
pub fn is_sublime_frontmost(frontmost_bundle_id: Option<&str>) -> (b: bool)
    ensures
        b == (match frontmost_bundle_id {
            Some(s) => contains(s@, "sublimetext"@),
            None => false,
        }),
{
    match frontmost_bundle_id {
        Some(s) => crate::text::str_contains(s, "sublimetext"),
        None => false,
    }
}

/// Name of the plugin file in the `Octopus` package.
pub const SUBLIME_PLUGIN_NAME: &'static str = "octopus_context.py";

/// File the plugin writes the current view to.
pub const SUBLIME_OUTPUT_PATH: &'static str = "/tmp/octopus_sublime_ctx.json";

/// Milliseconds to wait for the plugin's output file, polled every 50 ms.
pub const SUBLIME_OUTPUT_WAIT_MS: u64 = 300;

/// Source of the plugin that exports the current view's text, selection and
/// file path.
pub open spec fn plugin_source() -> Seq<char> {
    "import sublime\nimport sublime_plugin\nimport json\n\nclass OctopusExportContextCommand(sublime_plugin.TextCommand):\n    def run(self, edit):\n        view = self.view\n        content = view.substr(sublime.Region(0, view.size()))\n        sel = view.sel()\n        if sel:\n            r = sel[0]\n            data = {\n                \"content\": content,\n                \"sel_start\": r.begin(),\n                \"sel_end\": r.end(),\n                \"file_path\": view.file_name() or \"\",\n            }\n        else:\n            data = {\"content\": content, \"sel_start\": 0, \"sel_end\": 0}\n        with open(\"/tmp/octopus_sublime_ctx.json\", \"w\") as f:\n            json.dump(data, f)\n"@
}

/// The plugin source to install.
pub fn sublime_plugin_source() -> (s: String)
    ensures
        s@ == plugin_source(),
{
    owned("import sublime\nimport sublime_plugin\nimport json\n\nclass OctopusExportContextCommand(sublime_plugin.TextCommand):\n    def run(self, edit):\n        view = self.view\n        content = view.substr(sublime.Region(0, view.size()))\n        sel = view.sel()\n        if sel:\n            r = sel[0]\n            data = {\n                \"content\": content,\n                \"sel_start\": r.begin(),\n                \"sel_end\": r.end(),\n                \"file_path\": view.file_name() or \"\",\n            }\n        else:\n            data = {\"content\": content, \"sel_start\": 0, \"sel_end\": 0}\n        with open(\"/tmp/octopus_sublime_ctx.json\", \"w\") as f:\n            json.dump(data, f)\n")
}

/// Whether the plugin file must be (re)written: missing, or not the current source.
pub fn plugin_needs_write(existing: Option<&str>) -> (b: bool)
    ensures
        b == (match existing {
            Some(s) => s@ != plugin_source(),
            None => true,
        }),
{
    match existing {
        Some(s) => !str_eq(s, "import sublime\nimport sublime_plugin\nimport json\n\nclass OctopusExportContextCommand(sublime_plugin.TextCommand):\n    def run(self, edit):\n        view = self.view\n        content = view.substr(sublime.Region(0, view.size()))\n        sel = view.sel()\n        if sel:\n            r = sel[0]\n            data = {\n                \"content\": content,\n                \"sel_start\": r.begin(),\n                \"sel_end\": r.end(),\n                \"file_path\": view.file_name() or \"\",\n            }\n        else:\n            data = {\"content\": content, \"sel_start\": 0, \"sel_end\": 0}\n        with open(\"/tmp/octopus_sublime_ctx.json\", \"w\") as f:\n            json.dump(data, f)\n"),
        None => true,
    }
}

/// Package directories to look for, relative to the home directory, in order:
/// the one of the running major version first.
pub fn sublime_packages_candidates(bundle_id: &str) -> (r: Vec<String>)
    ensures
        contains(bundle_id@, "sublimetext.4"@) ==> r@.map_values(|s: String| s@) == seq![
            "Library/Application Support/Sublime Text/Packages"@,
            "Library/Application Support/Sublime Text 3/Packages"@,
        ],
        !contains(bundle_id@, "sublimetext.4"@) ==> r@.map_values(|s: String| s@) == seq![
            "Library/Application Support/Sublime Text 3/Packages"@,
            "Library/Application Support/Sublime Text/Packages"@,
        ],
{
    let mut r: Vec<String> = Vec::new();
    if crate::text::str_contains(bundle_id, "sublimetext.4") {
        r.push(owned("Library/Application Support/Sublime Text/Packages"));
        r.push(owned("Library/Application Support/Sublime Text 3/Packages"));
    } else {
        r.push(owned("Library/Application Support/Sublime Text 3/Packages"));
        r.push(owned("Library/Application Support/Sublime Text/Packages"));
    }
    assert(r@.map_values(|s: String| s@) =~= (if contains(bundle_id@, "sublimetext.4"@) {
        seq![
            "Library/Application Support/Sublime Text/Packages"@,
            "Library/Application Support/Sublime Text 3/Packages"@,
        ]
    } else {
        seq![
            "Library/Application Support/Sublime Text 3/Packages"@,
            "Library/Application Support/Sublime Text/Packages"@,
        ]
    }));
    r
}

/// Places where the `subl` command-line tool is looked for before `PATH`.
pub fn subl_candidates() -> (r: Vec<String>)
    ensures
        r@.map_values(|s: String| s@) == seq![
            "/Applications/Sublime Text.app/Contents/SharedSupport/bin/subl"@,
            "/usr/local/bin/subl"@,
            "/opt/homebrew/bin/subl"@,
        ],
{
    let mut r: Vec<String> = Vec::new();
    r.push(owned("/Applications/Sublime Text.app/Contents/SharedSupport/bin/subl"));
    r.push(owned("/usr/local/bin/subl"));
    r.push(owned("/opt/homebrew/bin/subl"));
    assert(r@.map_values(|s: String| s@) =~= seq![
        "/Applications/Sublime Text.app/Contents/SharedSupport/bin/subl"@,
        "/usr/local/bin/subl"@,
        "/opt/homebrew/bin/subl"@,
    ]);
    r
}

/// Window title of the plugin export: the file name of its path (the path
/// itself when it has none); nothing for an unsaved view.
pub open spec fn plugin_title(file_path: Option<Seq<char>>) -> Option<Seq<char>> {
    match file_path {
        Some(p) => if p.len() == 0 {
            None
        } else {
            match file_name(p) {
                Some(n) => Some(n),
                None => Some(p),
            }
        },
        None => None,
    }
}

/// Context from the Sublime Text plugin export: `content`, character offsets
/// `sel_start`/`sel_end` and `file_path` as the export holds them (a missing
/// offset is 0, a missing content is empty). `None` when the content is empty
/// or the trimmed selected text is not in it.
pub fn try_sublime_plugin_context(
    content: &str,
    sel_start: usize,
    sel_end: usize,
    file_path: Option<&str>,
    selected_text: &str,
) -> (r: Option<SurroundingText>)
    ensures
        match r {
            Some(s) => {
                let ctx = sublime_context_spec(content@, sel_start, sel_end, selected_text@);
                ctx is Some && opt_seq(s.before) == (ctx->0).0 && opt_seq(s.after) == (ctx->0).1
                    && opt_seq(s.window_title) == plugin_title(
                    match file_path {
                        Some(p) => Some(p@),
                        None => None,
                    },
                )
            },
            None => sublime_context_spec(content@, sel_start, sel_end, selected_text@) is None,
        },
{
    let ctx = sublime_context(content, sel_start, sel_end, selected_text);
    match ctx {
        Some((before, after)) => {
            let window_title = match file_path {
                Some(p) => {
                    if p.is_empty() {
                        None
                    } else {
                        let v = chars_of(p);
                        match crate::file_hint::file_name_of(&v) {
                            Some(n) => {
                                assert(n@.subrange(0, n@.len() as int) =~= n@);
                                Some(string_of(&n, 0, n.len()))
                            },
                            None => Some(owned(p)),
                        }
                    }
                },
                None => None,
            };
            Some(SurroundingText { before, after, window_title })
        },
        None => None,
    }
}

/// What `sublime_context` gives, by views: `None` for empty content or a
/// selection missing from it, else both sides (each `None` when empty).
pub open spec fn sublime_context_spec(content: Seq<char>, sel_start: usize, sel_end: usize, selected: Seq<char>) -> Option<(Option<Seq<char>>, Option<Seq<char>>)> {
    if content.len() == 0 {
        None
    } else {
        let st = trim(selected);
        if st.len() > 0 && !contains(content, st) {
            None
        } else {
            let (b, a) = selection_context(content, sel_start as int, sel_end as int, 1000);
            Some((if b.len() > 0 { Some(b) } else { None }, if a.len() > 0 { Some(a) } else { None }))
        }
    }
}

/// One character of a JavaScript string literal: backslash, double quote, CR,
/// LF and the two Unicode line terminators are escaped.
pub open spec fn js_escape_char(c: char) -> Seq<char> {
    if c == '\\' {
        seq!['\\', '\\']
    } else if c == '"' {
        seq!['\\', '"']
    } else if c == '\n' {
        seq!['\\', 'n']
    } else if c == '\r' {
        seq!['\\', 'r']
    } else if c == '\u{2028}' {
        seq!['\\', 'u', '2', '0', '2', '8']
    } else if c == '\u{2029}' {
        seq!['\\', 'u', '2', '0', '2', '9']
    } else {
        seq![c]
    }
}

/// `s` escaped for a double-quoted JavaScript string.
pub open spec fn js_escape(s: Seq<char>) -> Seq<char>
    decreases s.len(),
{
    if s.len() == 0 {
        Seq::empty()
    } else {
        js_escape(s.drop_last()) + js_escape_char(s.last())
    }
}

/// Escapes text for a double-quoted JavaScript string literal.
pub fn escape_js_string(s: &str) -> (r: String)
    ensures
        r@ == js_escape(s@),
{
    let v = chars_of(s);
    let mut r = String::new();
    let mut i: usize = 0;
    while i < v.len()
        invariant
            i <= v@.len(),
            r@ == js_escape(v@.take(i as int)),
        decreases v@.len() - i,
    {
        proof {
            assert(v@.take(i + 1).drop_last() =~= v@.take(i as int));
        }
        let c = v[i];
        if c == '\\' {
            r.push('\\');
            r.push('\\');
        } else if c == '"' {
            r.push('\\');
            r.push('"');
        } else if c == '\n' {
            r.push('\\');
            r.push('n');
        } else if c == '\r' {
            r.push('\\');
            r.push('r');
        } else if c == '\u{2028}' {
            push_str(&mut r, "\\u2028");
            proof {
                reveal_strlit("\\u2028");
            }
        } else if c == '\u{2029}' {
            push_str(&mut r, "\\u2029");
            proof {
                reveal_strlit("\\u2029");
            }
        } else {
            r.push(c);
        }
        assert(r@ =~= js_escape(v@.take(i + 1)));
        i = i + 1;
    }
    assert(v@.take(v@.len() as int) =~= v@);
    r
}

/// The page script that finds the selection in the DOM (exactly, ignoring
/// case, by its middle, by its head and tail) inside the smallest element of
/// at least 2000 more characters, and returns up to 1000 characters on each
/// side and the document title as JSON.
pub open spec fn browser_js(escaped: Seq<char>) -> Seq<char> {
    "(function(){\n  var sel=\""@ + escaped + "\";\n  sel=sel.trim();\n  if(!sel) return JSON.stringify({before:\"\",after:\"\",title:document.title});\n  function findIn(text){\n    var i=text.indexOf(sel);\n    if(i>=0) return i;\n    i=text.toLowerCase().indexOf(sel.toLowerCase());\n    if(i>=0) return i;\n    var mid=sel.slice(Math.floor(sel.length*0.2),Math.floor(sel.length*0.8)).trim();\n    if(mid.length>5){\n      i=text.indexOf(mid);\n      if(i>=0) return i;\n      i=text.toLowerCase().indexOf(mid.toLowerCase());\n      if(i>=0) return i;\n    }\n    var head=sel.slice(0,30).trim();\n    var tail=sel.slice(-30).trim();\n    if(head.length>5&&tail.length>5){\n      var h=text.indexOf(head);\n      var t=text.indexOf(tail);\n      if(h>=0&&t>=0&&t>=h) return h;\n    }\n    if(tail.length>5){\n      i=text.indexOf(tail);\n      if(i>=0) return i;\n    }\n    return -1;\n  }\n  var bodyText=document.body.textContent||\"\";\n  if(findIn(bodyText)<0) return JSON.stringify({before:\"\",after:\"\",title:document.title});\n  var targetChars=2000+sel.length;\n  var all=document.querySelectorAll(\"*\");\n  var best=document.body;\n  var bestLen=bodyText.length;\n  for(var i=0;i<all.length&&i<5000;i++){\n    var t=all[i].textContent||\"\";\n    if(t.length<bestLen&&findIn(t)>=0){\n      best=all[i];\n      bestLen=t.length;\n    }\n  }\n  var scope=best;\n  while(scope&&scope.parentNode&&scope!==document.body){\n    if((scope.textContent||\"\").length>=targetChars) break;\n    scope=scope.parentNode;\n  }\n  if(!scope) scope=document.body;\n  var full=scope.textContent||\"\";\n  var idx=findIn(full);\n  if(idx<0) return JSON.stringify({before:\"\",after:\"\",title:document.title});\n  var ml=1000;\n  var b=idx>0?full.slice(Math.max(0,idx-ml),idx):\"\";\n  var end=idx+sel.length;\n  if(end>full.length) end=full.length;\n  var a=end<full.length?full.slice(end,end+ml):\"\";\n  return JSON.stringify({before:b,after:a,title:document.title});\n})()\n"@
}

/// The page script for a selection.
pub fn browser_js_source(selected_text: &str) -> (s: String)
    ensures
        s@ == browser_js(js_escape(selected_text@)),
{
    let escaped = escape_js_string(selected_text);
    let mut s = String::new();
    push_str(&mut s, "(function(){\n  var sel=\"");
    push_str(&mut s, escaped.as_str());
    push_str(&mut s, "\";\n  sel=sel.trim();\n  if(!sel) return JSON.stringify({before:\"\",after:\"\",title:document.title});\n  function findIn(text){\n    var i=text.indexOf(sel);\n    if(i>=0) return i;\n    i=text.toLowerCase().indexOf(sel.toLowerCase());\n    if(i>=0) return i;\n    var mid=sel.slice(Math.floor(sel.length*0.2),Math.floor(sel.length*0.8)).trim();\n    if(mid.length>5){\n      i=text.indexOf(mid);\n      if(i>=0) return i;\n      i=text.toLowerCase().indexOf(mid.toLowerCase());\n      if(i>=0) return i;\n    }\n    var head=sel.slice(0,30).trim();\n    var tail=sel.slice(-30).trim();\n    if(head.length>5&&tail.length>5){\n      var h=text.indexOf(head);\n      var t=text.indexOf(tail);\n      if(h>=0&&t>=0&&t>=h) return h;\n    }\n    if(tail.length>5){\n      i=text.indexOf(tail);\n      if(i>=0) return i;\n    }\n    return -1;\n  }\n  var bodyText=document.body.textContent||\"\";\n  if(findIn(bodyText)<0) return JSON.stringify({before:\"\",after:\"\",title:document.title});\n  var targetChars=2000+sel.length;\n  var all=document.querySelectorAll(\"*\");\n  var best=document.body;\n  var bestLen=bodyText.length;\n  for(var i=0;i<all.length&&i<5000;i++){\n    var t=all[i].textContent||\"\";\n    if(t.length<bestLen&&findIn(t)>=0){\n      best=all[i];\n      bestLen=t.length;\n    }\n  }\n  var scope=best;\n  while(scope&&scope.parentNode&&scope!==document.body){\n    if((scope.textContent||\"\").length>=targetChars) break;\n    scope=scope.parentNode;\n  }\n  if(!scope) scope=document.body;\n  var full=scope.textContent||\"\";\n  var idx=findIn(full);\n  if(idx<0) return JSON.stringify({before:\"\",after:\"\",title:document.title});\n  var ml=1000;\n  var b=idx>0?full.slice(Math.max(0,idx-ml),idx):\"\";\n  var end=idx+sel.length;\n  if(end>full.length) end=full.length;\n  var a=end<full.length?full.slice(end,end+ml):\"\";\n  return JSON.stringify({before:b,after:a,title:document.title});\n})()\n");
    s
}

/// The AppleScript that runs the page script stored at `js_path` in the front
/// tab: Chrome and Edge `execute ... javascript`, Safari `do JavaScript`;
/// other browsers have none.
pub open spec fn browser_script_spec(bundle_id: Seq<char>, js_path: Seq<char>) -> Option<Seq<char>> {
    if bundle_id == "com.google.Chrome"@ || bundle_id == "com.microsoft.edgemac"@ {
        let app = if bundle_id == "com.google.Chrome"@ {
            "Google Chrome"@
        } else {
            "Microsoft Edge"@
        };
        Some("tell application \""@ + app + "\"\n    set jsCode to (read POSIX file \""@ + js_path + "\" as «class utf8»)\n    execute (active tab of window 1) javascript jsCode\nend tell"@)
    } else if bundle_id == "com.apple.Safari"@ {
        Some("tell application \"Safari\"\n    set jsCode to (read POSIX file \""@ + js_path + "\" as «class utf8»)\n    do JavaScript jsCode in document 1\nend tell"@)
    } else {
        None
    }
}

/// The AppleScript for a browser, if it is one that can run page scripts.
pub fn browser_script(bundle_id: &str, js_path: &str) -> (r: Option<String>)
    ensures
        opt_seq(r) == browser_script_spec(bundle_id@, js_path@),
{
    let chrome = str_eq(bundle_id, "com.google.Chrome");
    if chrome || str_eq(bundle_id, "com.microsoft.edgemac") {
        let mut s = String::new();
        push_str(&mut s, "tell application \"");
        if chrome {
            push_str(&mut s, "Google Chrome");
        } else {
            push_str(&mut s, "Microsoft Edge");
        }
        push_str(&mut s, "\"\n    set jsCode to (read POSIX file \"");
        push_str(&mut s, js_path);
        push_str(&mut s, "\" as «class utf8»)\n    execute (active tab of window 1) javascript jsCode\nend tell");
        Some(s)
    } else if str_eq(bundle_id, "com.apple.Safari") {
        let mut s = String::new();
        push_str(&mut s, "tell application \"Safari\"\n    set jsCode to (read POSIX file \"");
        push_str(&mut s, js_path);
        push_str(&mut s, "\" as «class utf8»)\n    do JavaScript jsCode in document 1\nend tell");
        Some(s)
    } else {
        None
    }
}

/// The fields of the page script's JSON answer, each present when it is a string.
pub struct BrowserFields {
    pub before: Option<String>,
    pub after: Option<String>,
    pub title: Option<String>,
}

/// Diagnostic line of a successful page script run.
pub open spec fn browser_diag(json_len: nat) -> Seq<char> {
    "browser: AppleScript execute javascript ("@ + decimal_digits(json_len) + " chars result)"@
}

/// The context a page script's answer `json_str` gives, with fields
/// `before`, `after` and `title`: empty fields count as absent, and an answer
/// with none of the three is no context; otherwise the diagnostic line counts
/// the answer's bytes.
pub open spec fn browser_result(
    r: Option<(SurroundingText, Option<String>)>,
    json_str: Seq<char>,
    before: Option<Seq<char>>,
    after: Option<Seq<char>>,
    title: Option<Seq<char>>,
) -> bool {
    let b = nonempty(before);
    let a = nonempty(after);
    let t = nonempty(title);
    if b is None && a is None && t is None {
        r is None
    } else {
        &&& r is Some
        &&& opt_seq((r->0).0.before) == b
        &&& opt_seq((r->0).0.after) == a
        &&& opt_seq((r->0).0.window_title) == t
        &&& (r->0).1 matches Some(dd)
        &&& dd@ == browser_diag(vstd::utf8::encode_utf8(json_str).len())
    }
}

/// Context from the page script's answer (`json_str` is its trimmed output):
/// empty fields count as absent, and an answer with none of the three is no context.
pub fn browser_context(json_str: &str, fields: BrowserFields) -> (r: Option<(SurroundingText, Option<String>)>)
    ensures
        browser_result(
            r,
            json_str@,
            opt_seq(fields.before),
            opt_seq(fields.after),
            opt_seq(fields.title),
        ),
{
    let before = nonempty_string(fields.before);
    let after = nonempty_string(fields.after);
    let window_title = nonempty_string(fields.title);
    if before.is_none() && after.is_none() && window_title.is_none() {
        return None;
    }
    let bytes = json_str.as_bytes();
    let mut d = String::new();
    push_str(&mut d, "browser: AppleScript execute javascript (");
    let n = decimal_string(bytes.len());
    push_str(&mut d, n.as_str());
    push_str(&mut d, " chars result)");
    Some((SurroundingText { before, after, window_title }, Some(d)))
}

/// The fields of a page script's answer read as JSON: `before`, `after` and
/// `title`, each when it is a string.
pub fn page_answer_fields(j: &JsonValue) -> (f: BrowserFields)
    ensures
        opt_seq(f.before) == str_of(field(*j, "before"@)),
        opt_seq(f.after) == str_of(field(*j, "after"@)),
        opt_seq(f.title) == str_of(field(*j, "title"@)),
{
    BrowserFields { before: get_str(j, "before"), after: get_str(j, "after"), title: get_str(j, "title") }
}

/// Context from what the page script printed (`output`): the output is
/// trimmed and read as JSON; no context when it is not JSON.
pub fn browser_answer_context(output: &str) -> (r: Option<(SurroundingText, Option<String>)>)
    ensures
        match spec_json(trim(output@)) {
            None => r is None,
            Some(j) => browser_result(
                r,
                trim(output@),
                str_of(field(j, "before"@)),
                str_of(field(j, "after"@)),
                str_of(field(j, "title"@)),
            ),
        },
{
    let v = chars_of(output);
    let answer = trimmed(&v);
    assert(v@ == output@);
    let j = match parse_json(answer.as_str()) {
        Some(j) => j,
        None => return None,
    };
    let fields = page_answer_fields(&j);
    browser_context(answer.as_str(), fields)
}

/// A whole number of the export, 0 when it is missing.
pub open spec fn number_or_zero(n: Option<u64>) -> u64 {
    match n {
        Some(x) => x,
        None => 0,
    }
}

/// What the Sublime Text plugin's export `j` holds: `content` (empty when it
/// is not a string), `sel_start` and `sel_end` (0 when not whole numbers),
/// and `file_path` when it is a string; none when the export is not JSON.
pub open spec fn sublime_fields_spec(j: Option<JsonValue>) -> Option<
    (Seq<char>, usize, usize, Option<Seq<char>>),
> {
    match j {
        Some(v) => Some(
            (
                or_empty(str_of(field(v, "content"@))),
                number_or_zero(u64_of(field(v, "sel_start"@))) as usize,
                number_or_zero(u64_of(field(v, "sel_end"@))) as usize,
                str_of(field(v, "file_path"@)),
            ),
        ),
        None => None,
    }
}

/// Reads the Sublime Text plugin's export file text `content`.
pub fn sublime_export_fields(content: &str) -> (r: Option<(String, usize, usize, Option<String>)>)
    ensures
        match r {
            Some((t, s, e, f)) => sublime_fields_spec(spec_json(content@)) == Some(
                (t@, s, e, opt_seq(f)),
            ),
            None => sublime_fields_spec(spec_json(content@)) is None,
        },
{
    let j = match parse_json(content) {
        Some(j) => j,
        None => return None,
    };
    let text = match get_str(&j, "content") {
        Some(t) => t,
        None => String::new(),
    };
    let start = match get_u64(&j, "sel_start") {
        Some(n) => n,
        None => 0,
    };
    let end = match get_u64(&j, "sel_end") {
        Some(n) => n,
        None => 0,
    };
    let file = get_str(&j, "file_path");
    Some((text, start as usize, end as usize, file))
}

/// The script that reads the body text of the front Pages document.
pub open spec fn pages_script() -> Seq<char> {
    "tell application \"Pages\"\n    set d to document 1\n    return body text of d\nend tell"@
}

/// Text of the Pages body-text script.
pub fn pages_body_script() -> (s: String)
    ensures
        s@ == pages_script(),
{
    owned("tell application \"Pages\"\n    set d to document 1\n    return body text of d\nend tell")
}

/// Context provider based on the accessibility tree.
pub struct AxProvider;

impl AxProvider {
    /// Surrounding text and diagnostics of a gather, from what the attempts
    /// gave: `within_deadline` is whether there was time left to try at all,
    /// `browser` what the page script gave (browsers only; tried first), `ax`
    /// what the accessibility tree gave (tried when the page script gave nothing).
    pub fn gather_outcome(
        kind: AppKind,
        within_deadline: bool,
        browser: Option<(SurroundingText, Option<String>)>,
        ax: Result<(SurroundingText, Option<String>), String>,
    ) -> (r: (Option<SurroundingText>, Option<String>))
        ensures
            !within_deadline ==> r.0 is None && (r.1 matches Some(d) && d@
                == "gather timeout (surrounding skipped)"@),
            within_deadline && kind == AppKind::Browser && browser is Some ==> (r.0 matches Some(
                s,
            ) && st_view(s) == st_view((browser->0).0) && opt_seq(r.1) == opt_seq((browser->0).1)),
            within_deadline && !(kind == AppKind::Browser && browser is Some) ==> {
                let prefix = if kind == AppKind::Browser {
                    "browser AppleScript JS 失败，fallback 到 AX\n"@
                } else {
                    Seq::empty()
                };
                match ax {
                    Ok((s, d)) => r.0 matches Some(rs) && st_view(rs) == st_view(s) && (if kind
                        == AppKind::Browser {
                        r.1 matches Some(rd) && rd@ == prefix + match d {
                            Some(dd) => dd@,
                            None => Seq::empty(),
                        }
                    } else {
                        opt_seq(r.1) == opt_seq(d)
                    }),
                    Err(e) => r.0 is None && (r.1 matches Some(rd) && rd@ == prefix
                        + "gather_surrounding error: "@ + e@),
                }
            },
    {
        if !within_deadline {
            return (None, Some(owned("gather timeout (surrounding skipped)")));
        }
        let is_browser = kind == AppKind::Browser;
        if is_browser {
            if let Some((s, d)) = browser {
                return (Some(s), d);
            }
        }
        let mut prefix = String::new();
        if is_browser {
            push_str(&mut prefix, "browser AppleScript JS 失败，fallback 到 AX\n");
        }
        match ax {
            Ok((s, d)) => {
                if is_browser {
                    match d {
                        Some(dd) => push_str(&mut prefix, dd.as_str()),
                        None => {},
                    }
                    assert(prefix@ =~= "browser AppleScript JS 失败，fallback 到 AX\n"@ + match d {
                        Some(dd) => dd@,
                        None => Seq::empty(),
                    });
                    (Some(s), Some(prefix))
                } else {
                    (Some(s), d)
                }
            },
            Err(e) => {
                push_str(&mut prefix, "gather_surrounding error: ");
                push_str(&mut prefix, e.as_str());
                proof {
                    if !is_browser {
                        assert(prefix@ =~= Seq::<char>::empty() + "gather_surrounding error: "@ + e@);
                    }
                }
                (None, Some(prefix))
            },
        }
    }
}

} // verus!
