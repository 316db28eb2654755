//! Plain text of a document file, by kind: PDF (through `pdftotext`), Pages
//! (printable runs of the protobuf document entry), Office Open XML (through
//! `officecli`, else the XML parts), and anything else as (lossy) UTF-8.
//!
//! The caller reads the file, the archive entries and the helper tools' output;
//! these functions decide what the text is.
use vstd::prelude::*;
use vstd::utf8::{decode_utf8, valid_utf8};
use crate::context_text::{merge_cjk, merge_cjk_line_breaks, split_lines};
use crate::doc_text::{
    extract_text_from_ooxml_xml, extract_xlsx_shared_strings, extract_xlsx_sheet_text, ooxml_text,
    shared_run, sheet_scan,
};
use crate::file_hint::extension;
use crate::text::{
    chars_of, contains, contains_chars, ends_with, find, first_occurrence, is_ctrl, is_ctrl_char,
    join, join_chars, join_strings, lines, seqs_of, starts_with, str_ends_with, str_eq,
    str_starts_with, string_of, trim, trim_bounds,
};
use crate::unicode::{spec_lowercase, spec_utf8_lossy, to_lowercase, utf8_decode, utf8_lossy};

verus! {

/// How a document is read, from its extension.
#[derive(Clone, Copy, Debug, PartialEq, Eq, Structural)]
pub enum DocKind {
    Pdf,
    Pages,
    Docx,
    Pptx,
    Xlsx,
    Plain,
}

/// Kind for a lowercased extension.
pub open spec fn kind_of_ext(e: Seq<char>) -> DocKind {
    if e == "pdf"@ {
        DocKind::Pdf
    } else if e == "pages"@ {
        DocKind::Pages
    } else if e == "docx"@ {
        DocKind::Docx
    } else if e == "pptx"@ {
        DocKind::Pptx
    } else if e == "xlsx"@ {
        DocKind::Xlsx
    } else {
        DocKind::Plain
    }
}

/// Kind of the document at `path`; a path without an extension is not read.
pub open spec fn document_kind_of(path: Seq<char>) -> Option<DocKind> {
    match extension(path) {
        Some(e) => Some(kind_of_ext(spec_lowercase(e))),
        None => None,
    }
}

/// How to read the document at `path` (`None`: not at all).
pub fn document_kind(path: &str) -> (r: Option<DocKind>)
    ensures
        r == document_kind_of(path@),
{
    let v = chars_of(path);
    match crate::file_hint::extension_of(&v) {
        Some(e) => {
            let es = string_of(&e, 0, e.len());
            assert(e@.subrange(0, e@.len() as int) =~= e@);
            let l = to_lowercase(es.as_str());
            let t = l.as_str();
            Some(
                if str_eq(t, "pdf") {
                    DocKind::Pdf
                } else if str_eq(t, "pages") {
                    DocKind::Pages
                } else if str_eq(t, "docx") {
                    DocKind::Docx
                } else if str_eq(t, "pptx") {
                    DocKind::Pptx
                } else if str_eq(t, "xlsx") {
                    DocKind::Xlsx
                } else {
                    DocKind::Plain
                },
            )
        },
        None => None,
    }
}

/// What the bytes of a file of no known document kind hold.
pub enum PlainContent {
    /// Nothing: no text.
    Empty,
    /// A zip archive (an Office file under another name): read as a `.docx`.
    Zip,
    /// Text, decoded as UTF-8 with invalid sequences replaced.
    Text(String),
}

/// Whether `b` starts with the local file header signature of a zip archive.
pub open spec fn is_zip(b: Seq<u8>) -> bool {
    b.len() >= 4 && b[0] == 0x50 && b[1] == 0x4B && b[2] == 0x03 && b[3] == 0x04
}

/// Classifies the bytes of a plain file.
pub fn read_plain_text(bytes: &[u8]) -> (r: PlainContent)
    ensures
        bytes@.len() == 0 ==> r is Empty,
        bytes@.len() > 0 && is_zip(bytes@) ==> r is Zip,
        bytes@.len() > 0 && !is_zip(bytes@) ==> (r matches PlainContent::Text(s) && s@
            == spec_utf8_lossy(bytes@)),
{
    if bytes.len() == 0 {
        return PlainContent::Empty;
    }
    if bytes.len() >= 4 && bytes[0] == 0x50 && bytes[1] == 0x4B && bytes[2] == 0x03 && bytes[3]
        == 0x04 {
        return PlainContent::Zip;
    }
    PlainContent::Text(utf8_lossy(bytes))
}

/// A line of `officecli view` output without its `[/path] ` label.
pub open spec fn strip_label(line: Seq<char>) -> Seq<char> {
    if contains(line, "] "@) {
        line.subrange((choose|i: int| first_occurrence(line, "] "@, i)) + 2, line.len() as int)
    } else {
        line
    }
}

/// The lines of `officecli` output with their labels removed, joined by newlines.
pub open spec fn officecli_clean(raw: Seq<char>) -> Seq<char> {
    join(lines(raw).map_values(|l: Seq<char>| strip_label(l)), "\n"@)
}

/// Text from `officecli view <file> text`: `None` when it failed, printed
/// nothing, or printed only white space once the labels are removed.
pub fn try_officecli_text(success: bool, stdout: &[u8]) -> (r: Option<String>)
    ensures
        !success || stdout@.len() == 0 ==> r is None,
        success && stdout@.len() > 0 ==> {
            let c = officecli_clean(spec_utf8_lossy(stdout@));
            if trim(c).len() == 0 {
                r is None
            } else {
                r matches Some(s) && s@ == c
            }
        },
{
    if !success || stdout.len() == 0 {
        return None;
    }
    let raw = utf8_lossy(stdout);
    let v = chars_of(raw.as_str());
    let ls = split_lines(&v);
    let ghost lsv = Seq::new(ls@.len(), |i: int| ls@[i]@);
    let sep = chars_of("] ");
    let mut cleaned: Vec<Vec<char>> = Vec::new();
    let mut i: usize = 0;
    while i < ls.len()
        invariant
            i <= ls@.len(),
            sep@ == "] "@,
            lsv == Seq::new(ls@.len(), |k: int| ls@[k]@),
            cleaned@.len() == i,
            forall|k: int| 0 <= k < i ==> #[trigger] cleaned@[k]@ == strip_label(lsv[k]),
        decreases ls@.len() - i,
    {
        let l = &ls[i];
        match find(l, &sep) {
            Some(p) => {
                proof {
                    reveal_strlit("] ");
                    let c = choose|c: int| first_occurrence(l@, "] "@, c);
                    crate::text::lemma_first_occurrence_unique(l@, "] "@, p as int, c);
                    assert(sep@.len() == 2);
                    assert(crate::text::occurs_at(l@, sep@, p as int));
                }
                let n = l.len();
                assert(p + 2 <= n);
                cleaned.push(crate::text::copy_range(l, p + 2, l.len()));
            },
            None => {
                cleaned.push(crate::text::copy_range(l, 0, l.len()));
                assert(l@.subrange(0, l@.len() as int) =~= l@);
            },
        }
        i = i + 1;
    }
    assert(Seq::new(cleaned@.len(), |k: int| cleaned@[k]@) =~= lines(raw@).map_values(
        |l: Seq<char>| strip_label(l),
    ));
    let out = join_chars(&cleaned, "\n");
    let ov = chars_of(out.as_str());
    let (lo, hi) = trim_bounds(&ov);
    if lo >= hi {
        None
    } else {
        Some(out)
    }
}

/// Text from `pdftotext <file> -`: `None` when it failed or printed nothing,
/// else its output with layout line breaks after CJK characters merged.
pub fn read_pdf_text(success: bool, stdout: &[u8]) -> (r: Option<String>)
    ensures
        !success || stdout@.len() == 0 ==> r is None,
        success && stdout@.len() > 0 ==> (r matches Some(s) && s@ == merge_cjk(
            spec_utf8_lossy(stdout@),
        )),
{
    if !success || stdout.len() == 0 {
        return None;
    }
    let raw = utf8_lossy(stdout);
    Some(merge_cjk_line_breaks(raw.as_str()))
}

/// One entry of a zip archive: its name and, when it could be read, its bytes.
pub struct ZipEntry {
    pub name: String,
    pub data: Option<Vec<u8>>,
}

/// Number of characters of `s` that are not control characters.
pub open spec fn non_ctrl_count(s: Seq<char>) -> nat
    decreases s.len(),
{
    if s.len() == 0 {
        0
    } else {
        non_ctrl_count(s.drop_last()) + if is_ctrl(s.last()) {
            0nat
        } else {
            1nat
        }
    }
}

/// Whether a byte continues a printable run of the document entry.
pub open spec fn in_run(b: u8) -> bool {
    (b >= 0x20 && b != 0x7f) || b >= 0xc0
}

/// Whether a finished run is kept as a text fragment: at least six bytes of
/// valid UTF-8, at least four characters that are not control characters, and
/// no two consecutive zero-width spaces.
pub open spec fn fragment_ok(run: Seq<u8>) -> bool {
    run.len() >= 6 && valid_utf8(run) && non_ctrl_count(decode_utf8(run)) >= 4 && !contains(
        decode_utf8(run),
        "\u{200B}\u{200B}"@,
    )
}

/// Fragments found so far and the current run, after the bytes `b`.
pub open spec fn pages_scan(b: Seq<u8>) -> (Seq<Seq<char>>, Seq<u8>)
    decreases b.len(),
{
    if b.len() == 0 {
        (Seq::empty(), Seq::empty())
    } else {
        let (frags, run) = pages_scan(b.drop_last());
        if in_run(b.last()) {
            (frags, run.push(b.last()))
        } else if fragment_ok(run) {
            (frags.push(decode_utf8(run)), Seq::empty())
        } else {
            (frags, Seq::empty())
        }
    }
}

fn count_non_ctrl(v: &[char]) -> (n: usize)
    ensures
        n == non_ctrl_count(v@),
{
    let mut n: usize = 0;
    let mut i: usize = 0;
    while i < v.len()
        invariant
            i <= v@.len(),
            n == non_ctrl_count(v@.take(i as int)),
            n <= i,
        decreases v@.len() - i,
    {
        proof {
            assert(v@.take(i + 1).drop_last() =~= v@.take(i as int));
        }
        if !is_ctrl_char(v[i]) {
            n = n + 1;
        }
        i = i + 1;
    }
    assert(v@.take(v@.len() as int) =~= v@);
    n
}

/// The text fragment a finished run gives, if it is kept.
fn fragment_of(run: &Vec<u8>) -> (r: Option<String>)
    ensures
        fragment_ok(run@) ==> (r matches Some(s) && s@ == decode_utf8(run@)),
        !fragment_ok(run@) ==> r is None,
{
    if run.len() < 6 {
        return None;
    }
    match utf8_decode(run.as_slice()) {
        Some(s) => {
            let v = chars_of(s.as_str());
            let zw = chars_of("\u{200B}\u{200B}");
            if count_non_ctrl(&v) >= 4 && !contains_chars(&v, &zw) {
                Some(s)
            } else {
                None
            }
        },
        None => None,
    }
}

/// Text fragments of the `Index/Document.iwa` entry of a Pages file: runs of
/// printable bytes (a run still open at the end is not counted), kept as
/// `fragment_ok` says.
pub fn pages_fragments(buf: &[u8]) -> (r: Vec<String>)
    ensures
        seqs_of(r@) == pages_scan(buf@).0,
{
    let mut frags: Vec<String> = Vec::new();
    let mut run: Vec<u8> = Vec::new();
    let mut i: usize = 0;
    while i < buf.len()
        invariant
            i <= buf@.len(),
            (seqs_of(frags@), run@) == pages_scan(buf@.take(i as int)),
        decreases buf@.len() - i,
    {
        proof {
            assert(buf@.take(i + 1).drop_last() =~= buf@.take(i as int));
        }
        let byte = buf[i];
        if byte >= 0x20 && byte != 0x7f || byte >= 0xc0 {
            run.push(byte);
        } else {
            match fragment_of(&run) {
                Some(s) => {
                    frags.push(s);
                },
                None => {},
            }
            run = Vec::new();
        }
        assert(seqs_of(frags@) =~= pages_scan(buf@.take(i + 1)).0);
        i = i + 1;
    }
    assert(buf@.take(buf@.len() as int) =~= buf@);
    frags
}

/// Result of reading a Pages archive: the first `Index/Document.iwa` entry
/// with fragments gives them joined by spaces; an unreadable entry on the way
/// ends the search with nothing.
pub open spec fn pages_text_spec(entries: Seq<Option<ZipEntry>>) -> Option<Seq<char>>
    decreases entries.len(),
{
    if entries.len() == 0 {
        None
    } else {
        match entries[0] {
            None => None,
            Some(e) => if e.name@ != "Index/Document.iwa"@ {
                pages_text_spec(entries.drop_first())
            } else {
                match e.data {
                    None => None,
                    Some(d) => if pages_scan(d@).0.len() > 0 {
                        Some(join(pages_scan(d@).0, " "@))
                    } else {
                        pages_text_spec(entries.drop_first())
                    },
                }
            },
        }
    }
}

/// Text of a Pages document from its archive entries, in archive order.
pub fn read_pages_text(entries: &Vec<Option<ZipEntry>>) -> (r: Option<String>)
    ensures
        crate::text::opt_seq(r) == pages_text_spec(entries@),
{
    let mut i: usize = 0;
    assert(entries@.skip(0) =~= entries@);
    while i < entries.len()
        invariant
            i <= entries@.len(),
            pages_text_spec(entries@) == pages_text_spec(entries@.skip(i as int)),
        decreases entries@.len() - i,
    {
        proof {
            assert(entries@.skip(i as int).drop_first() =~= entries@.skip(i + 1));
            assert(entries@.skip(i as int)[0] == entries@[i as int]);
        }
        match &entries[i] {
            None => {
                return None;
            },
            Some(e) => {
                if str_eq(e.name.as_str(), "Index/Document.iwa") {
                    match &e.data {
                        None => {
                            return None;
                        },
                        Some(d) => {
                            let frags = pages_fragments(d.as_slice());
                            if frags.len() > 0 {
                                return Some(join_strings(&frags, " "));
                            }
                        },
                    }
                }
            },
        }
        i = i + 1;
    }
    assert(entries@.skip(entries@.len() as int) =~= Seq::<Option<ZipEntry>>::empty());
    None
}

/// Whether an archive entry holds text of an Office document with extension
/// `ext`: the body of a `.docx`, each slide of a `.pptx`.
pub open spec fn ooxml_target(ext: Seq<char>, name: Seq<char>) -> bool {
    if ext == "docx"@ {
        name == "word/document.xml"@
    } else if ext == "pptx"@ {
        starts_with(name, "ppt/slides/slide"@) && ends_with(name, ".xml"@)
    } else {
        false
    }
}

/// Whether `name` is a text part of an Office document with extension `ext`.
pub fn is_ooxml_target(ext: &str, name: &str) -> (b: bool)
    ensures
        b == ooxml_target(ext@, name@),
{
    if str_eq(ext, "docx") {
        str_eq(name, "word/document.xml")
    } else if str_eq(ext, "pptx") {
        str_starts_with(name, "ppt/slides/slide") && str_ends_with(name, ".xml")
    } else {
        false
    }
}

/// Texts of the target parts of an Office archive, in order; `None` when an
/// entry could not be opened or a target part is not readable UTF-8.
pub open spec fn ooxml_parts(entries: Seq<Option<ZipEntry>>, ext: Seq<char>) -> Option<
    Seq<Seq<char>>,
>
    decreases entries.len(),
{
    if entries.len() == 0 {
        Some(Seq::empty())
    } else {
        match ooxml_parts(entries.drop_last(), ext) {
            None => None,
            Some(acc) => match entries.last() {
                None => None,
                Some(e) => if !ooxml_target(ext, e.name@) {
                    Some(acc)
                } else {
                    match e.data {
                        Some(d) => if valid_utf8(d@) {
                            Some(acc.push(ooxml_text(decode_utf8(d@))))
                        } else {
                            None
                        },
                        None => None,
                    }
                },
            },
        }
    }
}

/// Text of a `.docx` or `.pptx` archive: its parts' texts joined by blank lines.
pub open spec fn ooxml_doc_text(entries: Seq<Option<ZipEntry>>, ext: Seq<char>) -> Option<
    Seq<char>,
> {
    match ooxml_parts(entries, ext) {
        Some(t) => if t.len() == 0 {
            None
        } else {
            Some(join(t, "\n\n"@))
        },
        None => None,
    }
}

proof fn lemma_ooxml_parts_none(entries: Seq<Option<ZipEntry>>, ext: Seq<char>, k: int)
    requires
        0 <= k <= entries.len(),
        ooxml_parts(entries.take(k), ext) is None,
    ensures
        ooxml_parts(entries, ext) is None,
    decreases entries.len() - k,
{
    if k < entries.len() {
        assert(entries.take(k + 1).drop_last() =~= entries.take(k));
        lemma_ooxml_parts_none(entries, ext, k + 1);
    } else {
        assert(entries.take(k) =~= entries);
    }
}

/// Each slide of a `.pptx` (an entry named `ppt/slides/slide…xml` with
/// readable UTF-8 bytes) adds its text after the texts of the entries before
/// it; the body of a `.docx` (`word/document.xml`) does the same.
pub proof fn law_each_slide_adds_its_text(entries: Seq<Option<ZipEntry>>, e: ZipEntry)
    requires
        e.data matches Some(d) && valid_utf8(d@),
    ensures
        starts_with(e.name@, "ppt/slides/slide"@) && ends_with(e.name@, ".xml"@) ==> ooxml_parts(
            entries.push(Some(e)),
            "pptx"@,
        ) == match ooxml_parts(entries, "pptx"@) {
            Some(acc) => Some(acc.push(ooxml_text(decode_utf8(e.data->0@)))),
            None => None,
        },
        e.name@ == "word/document.xml"@ ==> ooxml_parts(entries.push(Some(e)), "docx"@) == match ooxml_parts(
            entries,
            "docx"@,
        ) {
            Some(acc) => Some(acc.push(ooxml_text(decode_utf8(e.data->0@)))),
            None => None,
        },
{
    reveal_strlit("pptx");
    reveal_strlit("docx");
    assert("pptx"@[1] == 'p' && "docx"@[1] == 'o');
    assert("pptx"@ != "docx"@);
    assert(entries.push(Some(e)).drop_last() =~= entries);
}

/// Text of a `.docx` or `.pptx` document from its archive entries.
pub fn read_ooxml_text(entries: &Vec<Option<ZipEntry>>, ext: &str) -> (r: Option<String>)
    ensures
        crate::text::opt_seq(r) == ooxml_doc_text(entries@, ext@),
{
    let mut texts: Vec<String> = Vec::new();
    let mut i: usize = 0;
    while i < entries.len()
        invariant
            i <= entries@.len(),
            ooxml_parts(entries@.take(i as int), ext@) == Some(seqs_of(texts@)),
        decreases entries@.len() - i,
    {
        proof {
            assert(entries@.take(i + 1).drop_last() =~= entries@.take(i as int));
        }
        match &entries[i] {
            None => {
                proof {
                    lemma_ooxml_parts_none(entries@, ext@, i + 1);
                }
                return None;
            },
            Some(e) => {
                if is_ooxml_target(ext, e.name.as_str()) {
                    let content = match &e.data {
                        Some(d) => utf8_decode(d.as_slice()),
                        None => None,
                    };
                    match content {
                        Some(xml) => {
                            texts.push(extract_text_from_ooxml_xml(xml.as_str()));
                            assert(seqs_of(texts@) =~= ooxml_parts(entries@.take(i + 1), ext@)->0);
                        },
                        None => {
                            proof {
                                lemma_ooxml_parts_none(entries@, ext@, i + 1);
                            }
                            return None;
                        },
                    }
                }
            },
        }
        i = i + 1;
    }
    assert(entries@.take(entries@.len() as int) =~= entries@);
    if texts.len() == 0 {
        None
    } else {
        Some(join_strings(&texts, "\n\n"))
    }
}

/// Shared strings and sheet texts of a spreadsheet archive so far; `None` when
/// an entry could not be opened or is not readable UTF-8 (every entry is read).
pub open spec fn xlsx_scan(entries: Seq<Option<ZipEntry>>) -> Option<(Seq<Seq<char>>, Seq<Seq<char>>)>
    decreases entries.len(),
{
    if entries.len() == 0 {
        Some((Seq::empty(), Seq::empty()))
    } else {
        match xlsx_scan(entries.drop_last()) {
            None => None,
            Some((shared, sheets)) => match entries.last() {
                None => None,
                Some(e) => match e.data {
                    None => None,
                    Some(d) => if !valid_utf8(d@) {
                        None
                    } else {
                        let content = decode_utf8(d@);
                        if e.name@ == "xl/sharedStrings.xml"@ {
                            Some((shared_run(content).out, sheets))
                        } else if starts_with(e.name@, "xl/worksheets/sheet"@) && ends_with(
                            e.name@,
                            ".xml"@,
                        ) {
                            Some((shared, sheets.push(join(sheet_scan(content, shared, 0), "\t"@))))
                        } else {
                            Some((shared, sheets))
                        }
                    },
                },
            },
        }
    }
}

/// Text of a spreadsheet: each sheet's cells joined by tabs, sheets by newlines.
pub open spec fn xlsx_text(entries: Seq<Option<ZipEntry>>) -> Option<Seq<char>> {
    match xlsx_scan(entries) {
        Some((_, sheets)) => if sheets.len() == 0 {
            None
        } else {
            Some(join(sheets, "\n"@))
        },
        None => None,
    }
}

proof fn lemma_xlsx_scan_none(entries: Seq<Option<ZipEntry>>, k: int)
    requires
        0 <= k <= entries.len(),
        xlsx_scan(entries.take(k)) is None,
    ensures
        xlsx_scan(entries) is None,
    decreases entries.len() - k,
{
    if k < entries.len() {
        assert(entries.take(k + 1).drop_last() =~= entries.take(k));
        lemma_xlsx_scan_none(entries, k + 1);
    } else {
        assert(entries.take(k) =~= entries);
    }
}

/// Text of a spreadsheet from its archive entries, in archive order (a sheet
/// uses the shared strings read before it).
pub fn read_xlsx_text(entries: &Vec<Option<ZipEntry>>) -> (r: Option<String>)
    ensures
        crate::text::opt_seq(r) == xlsx_text(entries@),
{
    let mut shared: Vec<String> = Vec::new();
    let mut sheets: Vec<String> = Vec::new();
    let mut i: usize = 0;
    while i < entries.len()
        invariant
            i <= entries@.len(),
            xlsx_scan(entries@.take(i as int)) == Some((seqs_of(shared@), seqs_of(sheets@))),
        decreases entries@.len() - i,
    {
        proof {
            assert(entries@.take(i + 1).drop_last() =~= entries@.take(i as int));
        }
        let content = match &entries[i] {
            None => None,
            Some(e) => match &e.data {
                Some(d) => utf8_decode(d.as_slice()),
                None => None,
            },
        };
        let c = match content {
            Some(c) => c,
            None => {
                proof {
                    lemma_xlsx_scan_none(entries@, i + 1);
                }
                return None;
            },
        };
        let e = match &entries[i] {
            Some(e) => e,
            None => {
                return None;
            },
        };
        if str_eq(e.name.as_str(), "xl/sharedStrings.xml") {
            shared = extract_xlsx_shared_strings(c.as_str());
        } else if str_starts_with(e.name.as_str(), "xl/worksheets/sheet") && str_ends_with(
            e.name.as_str(),
            ".xml",
        ) {
            let cells = extract_xlsx_sheet_text(c.as_str(), &shared);
            sheets.push(join_strings(&cells, "\t"));
            assert(seqs_of(sheets@) =~= (xlsx_scan(entries@.take(i + 1))->0).1);
        }
        i = i + 1;
    }
    assert(entries@.take(entries@.len() as int) =~= entries@);
    if sheets.len() == 0 {
        None
    } else {
        Some(join_strings(&sheets, "\n"))
    }
}

} // verus!
