//! Plain-text extraction from Office documents (OOXML word processing and
//! presentation parts, spreadsheet parts) and from iWork archives.
//!
//! The scanners read the XML as a character stream; they are deliberately
//! tag-shape based, not full XML parsers.
use vstd::prelude::*;
use crate::text::{
    chars_of, concat, contains, copy_range, find_char, find_char_from, join, join_strings,
    lemma_find_char_from_bounds, range_contains, range_eq, range_starts_with, seqs_of,
    starts_with, string_of, trim, trim_bounds,
};

verus! {

/// Scanner state of the OOXML text extraction.
pub struct OoxmlState {
    pub in_tag: bool,
    pub tag: Seq<char>,
    pub in_text: bool,
    pub text: Seq<char>,
    pub out: Seq<Seq<char>>,
}

pub open spec fn is_text_open(t: Seq<char>) -> bool {
    starts_with(t, "w:t"@) || starts_with(t, "a:t"@)
}

pub open spec fn is_text_close(t: Seq<char>) -> bool {
    starts_with(t, "/w:t"@) || starts_with(t, "/a:t"@)
}

pub open spec fn is_paragraph(t: Seq<char>) -> bool {
    t == "w:p"@ || starts_with(t, "w:p "@) || t == "a:p"@
}

/// One character of the OOXML scan: `<` opens a tag, `>` closes it and acts on
/// its trimmed name, other characters go to the tag name or to the current text run.
pub open spec fn ooxml_step(s: OoxmlState, ch: char) -> OoxmlState {
    if ch == '<' {
        OoxmlState { in_tag: true, tag: Seq::empty(), ..s }
    } else if ch == '>' {
        let t = trim(s.tag);
        if is_text_open(t) {
            OoxmlState { in_tag: false, in_text: true, ..s }
        } else if is_text_close(t) {
            if s.text.len() > 0 {
                OoxmlState {
                    in_tag: false,
                    in_text: false,
                    out: s.out.push(s.text),
                    text: Seq::empty(),
                    ..s
                }
            } else {
                OoxmlState { in_tag: false, in_text: false, ..s }
            }
        } else if is_paragraph(t) {
            if s.out.len() > 0 && s.out.last().len() > 0 {
                OoxmlState { in_tag: false, out: s.out.push(seq!['\n']), ..s }
            } else {
                OoxmlState { in_tag: false, ..s }
            }
        } else {
            OoxmlState { in_tag: false, ..s }
        }
    } else if s.in_tag {
        OoxmlState { tag: s.tag.push(ch), ..s }
    } else if s.in_text {
        OoxmlState { text: s.text.push(ch), ..s }
    } else {
        s
    }
}

/// State after scanning all of `xml`.
pub open spec fn ooxml_run(xml: Seq<char>) -> OoxmlState
    decreases xml.len(),
{
    if xml.len() == 0 {
        OoxmlState {
            in_tag: false,
            tag: Seq::empty(),
            in_text: false,
            text: Seq::empty(),
            out: Seq::empty(),
        }
    } else {
        ooxml_step(ooxml_run(xml.drop_last()), xml.last())
    }
}

/// Text of the `<w:t>` / `<a:t>` runs of an OOXML part, with a line break
/// for each new non-empty paragraph.
pub open spec fn ooxml_text(xml: Seq<char>) -> Seq<char> {
    concat(ooxml_run(xml).out)
}

fn concat_chars(parts: &Vec<Vec<char>>) -> (s: String)
    ensures
        s@ == concat(Seq::new(parts@.len(), |i: int| parts@[i]@)),
{
    let ghost ps = Seq::new(parts@.len(), |i: int| parts@[i]@);
    let mut s = String::new();
    let mut i: usize = 0;
    while i < parts.len()
        invariant
            i <= parts@.len(),
            ps == Seq::new(parts@.len(), |k: int| parts@[k]@),
            s@ == concat(ps.take(i as int)),
        decreases parts@.len() - i,
    {
        proof {
            assert(ps.take(i + 1).drop_last() =~= ps.take(i as int));
        }
        let p = &parts[i];
        crate::text::push_chars(&mut s, p, 0, p.len());
        proof {
            assert(p@.subrange(0, p@.len() as int) =~= p@);
        }
        i = i + 1;
    }
    assert(ps.take(parts@.len() as int) =~= ps);
    s
}

/// Text runs of an OOXML part (`word/document.xml`, `ppt/slides/slideN.xml`).
pub fn extract_text_from_ooxml_xml(xml: &str) -> (r: String)
    ensures
        r@ == ooxml_text(xml@),
{
    let x = chars_of(xml);
    let w_t = chars_of("w:t");
    let a_t = chars_of("a:t");
    let w_t_end = chars_of("/w:t");
    let a_t_end = chars_of("/a:t");
    let w_p = chars_of("w:p");
    let w_p_attr = chars_of("w:p ");
    let a_p = chars_of("a:p");
    let mut in_tag = false;
    let mut tag: Vec<char> = Vec::new();
    let mut in_text = false;
    let mut text: Vec<char> = Vec::new();
    let mut out: Vec<Vec<char>> = Vec::new();
    let mut i: usize = 0;
    assert(x@.take(0) =~= Seq::<char>::empty());
    assert(Seq::new(out@.len(), |k: int| out@[k]@) =~= Seq::<Seq<char>>::empty());
    assert(tag@ =~= Seq::<char>::empty());
    assert(text@ =~= Seq::<char>::empty());
    while i < x.len()
        invariant
            i <= x@.len(),
            x@ == xml@,
            w_t@ == "w:t"@,
            a_t@ == "a:t"@,
            w_t_end@ == "/w:t"@,
            a_t_end@ == "/a:t"@,
            w_p@ == "w:p"@,
            w_p_attr@ == "w:p "@,
            a_p@ == "a:p"@,
            (OoxmlState {
                in_tag,
                tag: tag@,
                in_text,
                text: text@,
                out: Seq::new(out@.len(), |k: int| out@[k]@),
            }) == ooxml_run(x@.take(i as int)),
        decreases x@.len() - i,
    {
        let ch = x[i];
        let ghost before = ooxml_run(x@.take(i as int));
        proof {
            assert(x@.take(i + 1).drop_last() =~= x@.take(i as int));
            assert(x@.take(i + 1).last() == ch);
        }
        if ch == '<' {
            in_tag = true;
            tag.clear();
        } else if ch == '>' {
            in_tag = false;
            let (lo, hi) = trim_bounds(&tag);
            if range_starts_with(&tag, lo, hi, &w_t) || range_starts_with(&tag, lo, hi, &a_t) {
                in_text = true;
            } else if range_starts_with(&tag, lo, hi, &w_t_end) || range_starts_with(
                &tag,
                lo,
                hi,
                &a_t_end,
            ) {
                if text.len() > 0 {
                    let mut run: Vec<char> = Vec::new();
                    std::mem::swap(&mut run, &mut text);
                    out.push(run);
                }
                in_text = false;
            } else if range_eq(&tag, lo, hi, &w_p) || range_starts_with(&tag, lo, hi, &w_p_attr)
                || range_eq(&tag, lo, hi, &a_p) {
                if out.len() > 0 && out[out.len() - 1].len() > 0 {
                    let mut nl: Vec<char> = Vec::new();
                    nl.push('\n');
                    out.push(nl);
                    proof {
                        assert(nl@ =~= seq!['\n']);
                    }
                }
            }
        } else if in_tag {
            tag.push(ch);
        } else if in_text {
            text.push(ch);
        }
        proof {
            assert(Seq::new(out@.len(), |k: int| out@[k]@) =~= ooxml_run(x@.take(i + 1)).out);
        }
        i = i + 1;
    }
    assert(x@.take(x@.len() as int) =~= x@);
    concat_chars(&out)
}

/// Scanner state of the shared-strings extraction.
pub struct SharedState {
    pub in_tag: bool,
    pub tag: Seq<char>,
    pub collect: bool,
    pub buf: Seq<char>,
    pub out: Seq<Seq<char>>,
}

/// One character of the shared-strings scan: text after a tag starting with
/// `t` is collected until a tag starting with `/t`.
pub open spec fn shared_step(s: SharedState, ch: char) -> SharedState {
    if ch == '<' {
        SharedState { in_tag: true, tag: Seq::empty(), ..s }
    } else if ch == '>' {
        let t = trim(s.tag);
        if starts_with(t, "t"@) && !starts_with(t, "/t"@) {
            SharedState { in_tag: false, collect: true, buf: Seq::empty(), ..s }
        } else if starts_with(t, "/t"@) {
            SharedState {
                in_tag: false,
                collect: false,
                out: if s.collect && s.buf.len() > 0 {
                    s.out.push(s.buf)
                } else {
                    s.out
                },
                ..s
            }
        } else {
            SharedState { in_tag: false, ..s }
        }
    } else if s.in_tag {
        SharedState { tag: s.tag.push(ch), ..s }
    } else if s.collect {
        SharedState { buf: s.buf.push(ch), ..s }
    } else {
        s
    }
}

pub open spec fn shared_run(xml: Seq<char>) -> SharedState
    decreases xml.len(),
{
    if xml.len() == 0 {
        SharedState {
            in_tag: false,
            tag: Seq::empty(),
            collect: false,
            buf: Seq::empty(),
            out: Seq::empty(),
        }
    } else {
        shared_step(shared_run(xml.drop_last()), xml.last())
    }
}

/// The shared string table of `xl/sharedStrings.xml` (non-empty `<t>` texts, in order).
pub fn extract_xlsx_shared_strings(xml: &str) -> (r: Vec<String>)
    ensures
        seqs_of(r@) == shared_run(xml@).out,
{
    let x = chars_of(xml);
    let t = chars_of("t");
    let t_end = chars_of("/t");
    let mut in_tag = false;
    let mut tag: Vec<char> = Vec::new();
    let mut collect = false;
    let mut buf: Vec<char> = Vec::new();
    let mut out: Vec<String> = Vec::new();
    let mut i: usize = 0;
    assert(x@.take(0) =~= Seq::<char>::empty());
    assert(seqs_of(out@) =~= Seq::<Seq<char>>::empty());
    assert(tag@ =~= Seq::<char>::empty());
    assert(buf@ =~= Seq::<char>::empty());
    while i < x.len()
        invariant
            i <= x@.len(),
            x@ == xml@,
            t@ == "t"@,
            t_end@ == "/t"@,
            (SharedState { in_tag, tag: tag@, collect, buf: buf@, out: seqs_of(out@) })
                == shared_run(x@.take(i as int)),
        decreases x@.len() - i,
    {
        let ch = x[i];
        proof {
            assert(x@.take(i + 1).drop_last() =~= x@.take(i as int));
            assert(x@.take(i + 1).last() == ch);
        }
        if ch == '<' {
            in_tag = true;
            tag.clear();
        } else if ch == '>' {
            in_tag = false;
            let (lo, hi) = trim_bounds(&tag);
            let is_close = range_starts_with(&tag, lo, hi, &t_end);
            if range_starts_with(&tag, lo, hi, &t) && !is_close {
                collect = true;
                buf.clear();
            } else if is_close {
                if collect && buf.len() > 0 {
                    out.push(string_of(&buf, 0, buf.len()));
                    proof {
                        assert(buf@.subrange(0, buf@.len() as int) =~= buf@);
                    }
                }
                collect = false;
            }
        } else if in_tag {
            tag.push(ch);
        } else if collect {
            buf.push(ch);
        }
        proof {
            assert(seqs_of(out@) =~= shared_run(x@.take(i + 1)).out);
        }
        i = i + 1;
    }
    assert(x@.take(x@.len() as int) =~= x@);
    out
}

/// Decimal value of a digit sequence.
pub open spec fn decimal(d: Seq<char>) -> nat
    decreases d.len(),
{
    if d.len() == 0 {
        0
    } else {
        decimal(d.drop_last()) * 10 + ((d.last() as u32) - ('0' as u32)) as nat
    }
}

pub open spec fn is_digit(c: char) -> bool {
    '0' <= c && c <= '9'
}

/// The digits part of a number: `s` without one leading `+`.
pub open spec fn digits_part(s: Seq<char>) -> Seq<char> {
    if s.len() > 0 && s[0] == '+' {
        s.drop_first()
    } else {
        s
    }
}

pub open spec fn all_digits(d: Seq<char>) -> bool {
    forall|i: int| 0 <= i < d.len() ==> is_digit(#[trigger] d[i])
}

/// `usize::from_str`: an optional `+`, then at least one ASCII digit, value within `usize`.
pub open spec fn parse_usize(s: Seq<char>) -> Option<nat> {
    let d = digits_part(s);
    if d.len() == 0 || !all_digits(d) {
        None
    } else if decimal(d) > usize::MAX {
        None
    } else {
        Some(decimal(d))
    }
}

proof fn lemma_decimal_monotone(d: Seq<char>, k: int)
    requires
        0 <= k <= d.len(),
        forall|i: int| 0 <= i < d.len() ==> is_digit(#[trigger] d[i]),
    ensures
        decimal(d.take(k)) <= decimal(d),
    decreases d.len() - k,
{
    if k < d.len() {
        lemma_decimal_monotone(d, k + 1);
        assert(d.take(k + 1).drop_last() =~= d.take(k));
        assert(is_digit(d[k]));
    } else {
        assert(d.take(k) =~= d);
    }
}

/// Parses `v[lo..hi]` as a `usize` the way `str::parse::<usize>` does.
pub fn parse_usize_range(v: &[char], lo: usize, hi: usize) -> (r: Option<usize>)
    requires
        lo <= hi <= v@.len(),
    ensures
        match parse_usize(v@.subrange(lo as int, hi as int)) {
            Some(n) => r == Some(n as usize),
            None => r is None,
        },
{
    let ghost s = v@.subrange(lo as int, hi as int);
    let mut start: usize = lo;
    if hi > lo && v[lo] == '+' {
        start = lo + 1;
    }
    let ghost d = v@.subrange(start as int, hi as int);
    proof {
        assert(s.len() > 0 ==> s[0] == v@[lo as int]);
        if hi > lo && v@[lo as int] == '+' {
            assert(d =~= s.drop_first());
        } else {
            assert(d =~= s);
        }
    }
    assert(d == digits_part(s));
    if start == hi {
        return None;
    }
    let mut i: usize = start;
    while i < hi
        invariant
            lo <= start <= i <= hi <= v@.len(),
            d == v@.subrange(start as int, hi as int),
            s == v@.subrange(lo as int, hi as int),
            d == digits_part(s),
            forall|k: int| start <= k < i ==> is_digit(v@[k]),
        decreases hi - i,
    {
        if !('0' <= v[i] && v[i] <= '9') {
            proof {
                assert(!is_digit(d[i - start]));
            }
            return None;
        }
        i = i + 1;
    }
    assert(forall|k: int| 0 <= k < d.len() ==> is_digit(#[trigger] d[k]));
    let mut acc: usize = 0;
    let mut j: usize = start;
    while j < hi
        invariant
            lo <= start <= j <= hi <= v@.len(),
            d == v@.subrange(start as int, hi as int),
            s == v@.subrange(lo as int, hi as int),
            d == digits_part(s),
            d.len() > 0,
            forall|k: int| 0 <= k < d.len() ==> is_digit(#[trigger] d[k]),
            acc as nat == decimal(d.take(j - start)),
        decreases hi - j,
    {
        proof {
            assert(d.take(j - start + 1).drop_last() =~= d.take(j - start));
            assert(d.take(j - start + 1).last() == v@[j as int]);
            assert(is_digit(d[j - start]));
        }
        let dig = (v[j] as u32 - '0' as u32) as usize;
        proof {
            assert(decimal(d.take(j - start + 1)) == decimal(d.take(j - start)) * 10 + dig);
        }
        match acc.checked_mul(10) {
            Some(m) => match m.checked_add(dig) {
                Some(n) => {
                    acc = n;
                },
                None => {
                    proof {
                        lemma_decimal_monotone(d, j - start + 1);
                    }
                    return None;
                },
            },
            None => {
                proof {
                    lemma_decimal_monotone(d, j - start + 1);
                }
                return None;
            },
        }
        j = j + 1;
    }
    assert(d.take(hi - start) =~= d);
    Some(acc)
}

/// Whether `c[i..]` starts a cell element: `<` followed by `c`.
pub open spec fn at_cell(c: Seq<char>, i: int) -> bool {
    c[i] == '<' && i + 1 < c.len() && c[i + 1] == 'c'
}

/// Cell values of a worksheet part, scanning from position `i`: for each
/// `<c ...>` immediately followed by a tag whose trimmed name starts with `v`,
/// the text up to the next `<`; `t="s"` cells are looked up in `shared`
/// (and dropped when the index does not parse or is out of range).
pub open spec fn sheet_scan(c: Seq<char>, shared: Seq<Seq<char>>, i: int) -> Seq<Seq<char>>
    decreases c.len() + 2 - i,
{
    if i < 0 || i >= c.len() {
        Seq::empty()
    } else if !at_cell(c, i) {
        sheet_scan(c, shared, i + 1)
    } else {
        proof {
            lemma_find_char_from_bounds(c, i + 2, '>');
        }
        let a_end = find_char_from(c, i + 2, '>');
        let is_shared = contains(c.subrange(i + 2, a_end), "t=\"s\""@);
        let j = a_end + 1;
        if j < c.len() && c[j] == '<' {
            proof {
                lemma_find_char_from_bounds(c, j + 1, '>');
            }
            let t_end = find_char_from(c, j + 1, '>');
            let k = t_end + 1;
            if starts_with(trim(c.subrange(j + 1, t_end)), "v"@) {
                proof {
                    lemma_find_char_from_bounds(c, k, '<');
                }
                let v_end = find_char_from(c, k, '<');
                let val = if k <= c.len() {
                    c.subrange(k, v_end)
                } else {
                    Seq::empty()
                };
                let here: Seq<Seq<char>> = if val.len() == 0 {
                    Seq::empty()
                } else if is_shared {
                    match parse_usize(val) {
                        Some(n) => if n < shared.len() {
                            seq![shared[n as int]]
                        } else {
                            Seq::empty()
                        },
                        None => Seq::empty(),
                    }
                } else {
                    seq![val]
                };
                here + sheet_scan(c, shared, v_end)
            } else {
                sheet_scan(c, shared, k)
            }
        } else {
            sheet_scan(c, shared, j)
        }
    }
}

/// Cell texts of `xl/worksheets/sheetN.xml`.
pub fn extract_xlsx_sheet_text(xml: &str, shared: &Vec<String>) -> (r: Vec<String>)
    ensures
        seqs_of(r@) == sheet_scan(xml@, seqs_of(shared@), 0),
{
    let c = chars_of(xml);
    let ts = chars_of("t=\"s\"");
    let v_tag = chars_of("v");
    let ghost sh = seqs_of(shared@);
    let n = c.len();
    let mut texts: Vec<String> = Vec::new();
    let mut i: usize = 0;
    assert(seqs_of(texts@) =~= Seq::<Seq<char>>::empty());
    while i < n
        invariant
            c@ == xml@,
            n == c@.len(),
            ts@ == "t=\"s\""@,
            v_tag@ == "v"@,
            sh == seqs_of(shared@),
            i <= n,
            seqs_of(texts@) + sheet_scan(c@, sh, i as int) == sheet_scan(c@, sh, 0),
        decreases n - i,
    {
        let ghost before = seqs_of(texts@);
        if c[i] == '<' && i + 1 < n && c[i + 1] == 'c' {
            let a_end = find_char(&c, i + 2, '>');
            proof {
                lemma_find_char_from_bounds(c@, i + 2, '>');
            }
            if a_end >= n {
                proof {
                    assert(sheet_scan(c@, sh, (a_end + 1) as int) =~= Seq::<Seq<char>>::empty());
                    assert(sheet_scan(c@, sh, n as int) =~= Seq::<Seq<char>>::empty());
                }
                i = n;
            } else {
                let is_shared = range_contains(&c, i + 2, a_end, &ts);
                let j = a_end + 1;
                if j < n && c[j] == '<' {
                    let t_end = find_char(&c, j + 1, '>');
                    proof {
                        lemma_find_char_from_bounds(c@, j + 1, '>');
                    }
                    let (lo, hi) = trim_bounds_range(&c, j + 1, t_end);
                    let is_v = range_starts_with(&c, lo, hi, &v_tag);
                    if t_end >= n {
                        proof {
                            let k = t_end + 1;
                            lemma_find_char_from_bounds(c@, k, '<');
                            assert(sheet_scan(c@, sh, k) =~= Seq::<Seq<char>>::empty());
                            assert(sheet_scan(c@, sh, n as int) =~= Seq::<Seq<char>>::empty());
                            if is_v {
                                assert(sheet_scan(c@, sh, i as int) =~= Seq::<Seq<char>>::empty()
                                    + Seq::<Seq<char>>::empty());
                            }
                        }
                        i = n;
                    } else {
                        let k = t_end + 1;
                        if is_v {
                            let v_end = find_char(&c, k, '<');
                            proof {
                                lemma_find_char_from_bounds(c@, k as int, '<');
                            }
                            if v_end > k {
                                if is_shared {
                                    match parse_usize_range(&c, k, v_end) {
                                        Some(idx) => {
                                            if idx < shared.len() {
                                                texts.push(
                                                    crate::text::owned(shared[idx].as_str()),
                                                );
                                            }
                                        },
                                        None => {},
                                    }
                                } else {
                                    texts.push(string_of(&c, k, v_end));
                                }
                            }
                            proof {
                                let val = c@.subrange(k as int, v_end as int);
                                let here: Seq<Seq<char>> = if val.len() == 0 {
                                    Seq::empty()
                                } else if is_shared {
                                    match parse_usize(val) {
                                        Some(m) => if m < sh.len() {
                                            seq![sh[m as int]]
                                        } else {
                                            Seq::empty()
                                        },
                                        None => Seq::empty(),
                                    }
                                } else {
                                    seq![val]
                                };
                                assert(seqs_of(texts@) =~= before + here);
                                assert(sheet_scan(c@, sh, i as int) == here + sheet_scan(
                                    c@,
                                    sh,
                                    v_end as int,
                                ));
                                assert(before + (here + sheet_scan(c@, sh, v_end as int)) =~= (
                                before + here) + sheet_scan(c@, sh, v_end as int));
                            }
                            i = v_end;
                        } else {
                            i = k;
                        }
                    }
                } else {
                    i = j;
                }
            }
        } else {
            i = i + 1;
        }
    }
    proof {
        assert(sheet_scan(c@, sh, i as int) =~= Seq::<Seq<char>>::empty());
        assert(seqs_of(texts@) + Seq::<Seq<char>>::empty() =~= seqs_of(texts@));
    }
    texts
}

/// Bounds of `trim(v[lo..hi])` within `v`.
fn trim_bounds_range(v: &[char], lo: usize, hi: usize) -> (r: (usize, usize))
    requires
        lo <= hi <= v@.len(),
    ensures
        lo <= r.0 <= r.1 <= hi,
        v@.subrange(r.0 as int, r.1 as int) == trim(v@.subrange(lo as int, hi as int)),
{
    let t = copy_range(v, lo, hi);
    let (a, b) = trim_bounds(&t);
    proof {
        assert(t@.subrange(a as int, b as int) =~= v@.subrange(lo + a, lo + b));
    }
    (lo + a, lo + b)
}

} // verus!
