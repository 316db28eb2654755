//! Surrounding-text extraction around a selection: cleaning accessibility
//! values, cutting context windows, merging layout line breaks.
use vstd::prelude::*;
use crate::unicode::{nfkc_char, nfkc_str, spec_lowercase, spec_nfkc, spec_nfkc_char, to_lowercase};
use crate::text::{contains_chars, 
    all_ws, chars_of, contains, first_occurrence, find, is_ctrl, is_ctrl_char, join, join_chars,
    lines, opt_seq, push_chars, push_str, split_on, string_of, strip_cr, trim, trim_bounds,
    trim_end, utf8_len, utf8_width,
};

verus! {

/// `s` without C0/C1 control characters, except line feed, tab and carriage return.
pub open spec fn strip_ctrl(s: Seq<char>) -> Seq<char>
    decreases s.len(),
{
    if s.len() == 0 {
        s
    } else {
        let r = strip_ctrl(s.drop_last());
        let c = s.last();
        if c == '\n' || c == '\t' || c == '\r' || !is_ctrl(c) {
            r.push(c)
        } else {
            r
        }
    }
}

/// Removes control characters (NULs and other terminal residue) but keeps
/// `\n`, `\t` and `\r`.
pub fn strip_control_chars(s: &str) -> (r: String)
    ensures
        r@ == strip_ctrl(s@),
{
    let v = chars_of(s);
    let mut r = String::new();
    let mut i: usize = 0;
    while i < v.len()
        invariant
            i <= v@.len(),
            v@ == s@,
            r@ == strip_ctrl(v@.take(i as int)),
        decreases v@.len() - i,
    {
        proof {
            assert(v@.take(i + 1).drop_last() =~= v@.take(i as int));
        }
        let c = v[i];
        if c == '\n' || c == '\t' || c == '\r' || !is_ctrl_char(c) {
            r.push(c);
        }
        i = i + 1;
    }
    assert(v@.take(v@.len() as int) =~= v@);
    r
}

/// The lines of `v` (`str::lines`), each as a character vector.
pub fn split_lines(v: &[char]) -> (r: Vec<Vec<char>>)
    ensures
        Seq::new(r@.len(), |i: int| r@[i]@) == lines(v@),
{
    let mut done: Vec<Vec<char>> = Vec::new();
    let mut cur: Vec<char> = Vec::new();
    let mut i: usize = 0;
    assert(v@.take(0) =~= Seq::<char>::empty());
    assert(Seq::new(done@.len(), |k: int| done@[k]@).push(cur@) =~= split_on(
        v@.take(0),
        '\n',
    ));
    while i < v.len()
        invariant
            i <= v@.len(),
            Seq::new(done@.len(), |k: int| done@[k]@).push(cur@) == split_on(
                v@.take(i as int),
                '\n',
            ),
        decreases v@.len() - i,
    {
        proof {
            assert(v@.take(i + 1).drop_last() =~= v@.take(i as int));
        }
        let c = v[i];
        if c == '\n' {
            let mut piece: Vec<char> = Vec::new();
            std::mem::swap(&mut piece, &mut cur);
            done.push(piece);
            assert(Seq::new(done@.len(), |k: int| done@[k]@).push(cur@) =~= split_on(
                v@.take(i + 1),
                '\n',
            ));
        } else {
            cur.push(c);
            assert(Seq::new(done@.len(), |k: int| done@[k]@).push(cur@) =~= split_on(
                v@.take(i + 1),
                '\n',
            ));
        }
        i = i + 1;
    }
    assert(v@.take(v@.len() as int) =~= v@);
    let ghost p = split_on(v@, '\n');
    let ghost n = done@.len();
    let mut r: Vec<Vec<char>> = Vec::new();
    let mut j: usize = 0;
    while j < done.len()
        invariant
            j <= done@.len(),
            p == Seq::new(done@.len(), |k: int| done@[k]@).push(cur@),
            r@.len() == j,
            forall|k: int| 0 <= k < j ==> r@[k]@ == strip_cr(p[k]),
        decreases done@.len() - j,
    {
        let d = &done[j];
        let mut e: usize = d.len();
        if e > 0 && d[e - 1] == '\r' {
            e = e - 1;
        }
        let mut line: Vec<char> = Vec::new();
        let mut k: usize = 0;
        while k < e
            invariant
                k <= e <= d@.len(),
                line@ == d@.subrange(0, k as int),
            decreases e - k,
        {
            line.push(d[k]);
            k = k + 1;
            assert(line@ =~= d@.subrange(0, k as int));
        }
        proof {
            assert(p[j as int] == d@);
            if d@.len() > 0 && d@.last() == '\r' {
                assert(line@ =~= d@.drop_last());
            } else {
                assert(line@ =~= d@);
            }
        }
        r.push(line);
        j = j + 1;
    }
    if cur.len() > 0 {
        r.push(cur);
    }
    proof {
        assert(p.len() - 1 == n);
        assert(Seq::new(r@.len(), |i: int| r@[i]@) =~= lines(v@));
    }
    r
}

/// Tail of `s`: the last `max_lines` lines joined by `\n`, then at most the
/// last `max_chars` characters of that.
pub open spec fn tail_text(s: Seq<char>, max_lines: nat, max_chars: nat) -> Seq<char> {
    let ls = lines(s);
    let start = if ls.len() > max_lines {
        ls.len() - max_lines
    } else {
        0
    };
    let by_lines = join(ls.subrange(start as int, ls.len() as int), "\n"@);
    if by_lines.len() > max_chars {
        by_lines.subrange(by_lines.len() - max_chars, by_lines.len() as int)
    } else {
        by_lines
    }
}

/// Terminal scroll-back before the selection: last `max_lines` lines, at most
/// `max_chars` characters; `None` for empty input.
pub fn truncate_text_tail(s: &str, max_lines: usize, max_chars: usize) -> (r: Option<String>)
    ensures
        s@.len() == 0 ==> r is None,
        s@.len() > 0 ==> opt_seq(r) == Some(tail_text(s@, max_lines as nat, max_chars as nat)),
{
    let v = chars_of(s);
    if v.len() == 0 {
        return None;
    }
    let ls = split_lines(&v);
    let start: usize = if ls.len() > max_lines {
        ls.len() - max_lines
    } else {
        0
    };
    let mut kept: Vec<Vec<char>> = Vec::new();
    let mut i: usize = start;
    while i < ls.len()
        invariant
            start <= i <= ls@.len(),
            kept@.len() == i - start,
            forall|k: int| 0 <= k < kept@.len() ==> kept@[k]@ == ls@[start + k]@,
        decreases ls@.len() - i,
    {
        let mut line: Vec<char> = Vec::new();
        let l = &ls[i];
        let mut k: usize = 0;
        while k < l.len()
            invariant
                k <= l@.len(),
                line@ == l@.subrange(0, k as int),
            decreases l@.len() - k,
        {
            line.push(l[k]);
            k = k + 1;
            assert(line@ =~= l@.subrange(0, k as int));
        }
        assert(line@ =~= l@);
        kept.push(line);
        i = i + 1;
    }
    let by_lines = join_chars(&kept, "\n");
    proof {
        let lsv = Seq::new(ls@.len(), |i: int| ls@[i]@);
        assert(Seq::new(kept@.len(), |i: int| kept@[i]@) =~= lsv.subrange(
            start as int,
            lsv.len() as int,
        ));
    }
    let b = chars_of(by_lines.as_str());
    if b.len() > max_chars {
        Some(string_of(&b, b.len() - max_chars, b.len()))
    } else {
        Some(by_lines)
    }
}

/// Terminal output after the selection: the first `max_chars` characters, with
/// `…` appended when something was cut; `None` for empty input.
pub fn truncate_text_head(s: &str, max_chars: usize) -> (r: Option<String>)
    ensures
        s@.len() == 0 ==> r is None,
        s@.len() > 0 && s@.len() <= max_chars ==> opt_seq(r) == Some(s@),
        s@.len() > max_chars ==> opt_seq(r) == Some(s@.take(max_chars as int).push('…')),
{
    let v = chars_of(s);
    if v.len() == 0 {
        return None;
    }
    if v.len() <= max_chars {
        Some(string_of(&v, 0, v.len()))
    } else {
        let mut head = string_of(&v, 0, max_chars);
        head.push('…');
        Some(head)
    }
}

/// Character index whose UTF-8 prefix is `bytes` long, if `bytes` is on a character boundary.
pub open spec fn is_boundary(s: Seq<char>, bytes: int, k: int) -> bool {
    0 <= k <= s.len() && utf8_len(s.take(k)) == bytes
}

proof fn lemma_utf8_len_strict(s: Seq<char>, k: int)
    requires
        0 <= k < s.len(),
    ensures
        utf8_len(s.take(k)) < utf8_len(s.take(k + 1)),
{
    assert(s.take(k + 1).drop_last() =~= s.take(k));
}

pub proof fn lemma_utf8_len_mono(s: Seq<char>, a: int, b: int)
    requires
        0 <= a <= b <= s.len(),
    ensures
        utf8_len(s.take(a)) <= utf8_len(s.take(b)),
        a < b ==> utf8_len(s.take(a)) < utf8_len(s.take(b)),
    decreases b - a,
{
    if a < b {
        lemma_utf8_len_mono(s, a, b - 1);
        lemma_utf8_len_strict(s, b - 1);
    }
}

/// Character index of the byte offset `pos_bytes` of `s`.
pub fn char_index_of_byte(s: &str, pos_bytes: usize) -> (k: usize)
    requires
        exists|k: int| is_boundary(s@, pos_bytes as int, k),
    ensures
        is_boundary(s@, pos_bytes as int, k as int),
{
    let v = chars_of(s);
    let mut k: usize = 0;
    let mut acc: usize = 0;
    while acc < pos_bytes
        invariant
            v@ == s@,
            k <= v@.len(),
            acc as int == utf8_len(v@.take(k as int)),
            acc <= pos_bytes,
            exists|j: int| is_boundary(s@, pos_bytes as int, j),
        decreases pos_bytes - acc,
    {
        proof {
            let j = choose|j: int| is_boundary(s@, pos_bytes as int, j);
            if k as int >= j {
                lemma_utf8_len_mono(s@, j, k as int);
            }
            assert(k < v@.len());
            lemma_utf8_len_strict(v@, k as int);
            assert(v@.take(k + 1).drop_last() =~= v@.take(k as int));
            lemma_utf8_len_mono(v@, k + 1, j);
        }
        let c = v[k];
        let u = c as u32;
        let w: usize = if u < 0x80 {
            1
        } else if u < 0x800 {
            2
        } else if u < 0x10000 {
            3
        } else {
            4
        };
        proof {
            assert(w == utf8_width(c));
        }
        acc = acc + w;
        assert(k < v.len());
        k = k + 1;
    }
    k
}

/// Context window around a selection that starts at byte `pos_bytes` of
/// `full_text`: up to `limit` characters before it and after it; a side with
/// nothing in it is `None`.
pub open spec fn slice_before(chars: Seq<char>, pc: int, limit: int) -> Option<Seq<char>> {
    if pc > 0 {
        let start = if pc > limit {
            pc - limit
        } else {
            0
        };
        Some(chars.subrange(start, pc))
    } else {
        None
    }
}

pub open spec fn slice_after(chars: Seq<char>, end: int, limit: int) -> Option<Seq<char>> {
    if end < chars.len() {
        let stop = if end + limit < chars.len() {
            end + limit
        } else {
            chars.len() as int
        };
        Some(chars.subrange(end, stop))
    } else {
        None
    }
}

/// Cuts `limit` characters of context on each side of the selection `sel`
/// found at byte offset `pos_bytes` of `full_text`; `full_chars` are the
/// characters the context is taken from.
pub fn char_level_slice(
    full_chars: &[char],
    pos_bytes: usize,
    sel: &str,
    full_text: &str,
    limit: usize,
) -> (r: (Option<String>, Option<String>))
    requires
        exists|k: int| is_boundary(full_text@, pos_bytes as int, k) && k <= full_chars@.len(),
    ensures
        exists|pc: int|
            #![auto]
            is_boundary(full_text@, pos_bytes as int, pc) && opt_seq(r.0) == slice_before(
                full_chars@,
                pc,
                limit as int,
            ) && opt_seq(r.1) == slice_after(full_chars@, pc + sel@.len(), limit as int),
{
    let pos_chars = char_index_of_byte(full_text, pos_bytes);
    proof {
        let k = choose|k: int| is_boundary(full_text@, pos_bytes as int, k) && k <= full_chars@.len();
        if k < pos_chars {
            lemma_utf8_len_mono(full_text@, k, pos_chars as int);
        } else if k > pos_chars {
            lemma_utf8_len_mono(full_text@, pos_chars as int, k);
        }
    }
    let sel_chars = chars_of(sel).len();
    let n = full_chars.len();
    let before = if pos_chars > 0 {
        let start: usize = if pos_chars > limit {
            pos_chars - limit
        } else {
            0
        };
        Some(string_of(full_chars, start, pos_chars))
    } else {
        None
    };
    let after = if sel_chars < n - pos_chars {
        let end = pos_chars + sel_chars;
        let stop: usize = if limit < n - end {
            end + limit
        } else {
            n
        };
        Some(string_of(full_chars, end, stop))
    } else {
        None
    };
    (before, after)
}

/// Before/after context from a selection given as character offsets
/// (`sel_start..sel_end`, clamped to the text): up to `limit` characters on each side.
pub open spec fn selection_context(
    chars: Seq<char>,
    sel_start: int,
    sel_end: int,
    limit: int,
) -> (Seq<char>, Seq<char>) {
    let total = chars.len() as int;
    let start = if sel_start < total {
        sel_start
    } else {
        total
    };
    let e0 = if sel_end > start {
        sel_end
    } else {
        start
    };
    let end = if e0 < total {
        e0
    } else {
        total
    };
    let bs = if start > limit {
        start - limit
    } else {
        0
    };
    let ae = if end + limit < total {
        end + limit
    } else {
        total
    };
    (chars.subrange(bs, start), chars.subrange(end, ae))
}

/// Context around the editor selection reported by the Sublime Text plugin;
/// each side is `None` when empty. `None` overall for empty text, or when the
/// trimmed selected text is non-empty and not contained in the text.
pub fn sublime_context(full_text: &str, sel_start: usize, sel_end: usize, selected_text: &str)
    -> (r: Option<(Option<String>, Option<String>)>)
    ensures
        full_text@.len() == 0 ==> r is None,
        full_text@.len() > 0 ==> {
            let st = trim(selected_text@);
            if st.len() > 0 && !contains(full_text@, st) {
                r is None
            } else {
                let (b, a) = selection_context(full_text@, sel_start as int, sel_end as int, 1000);
                r matches Some(p) && opt_seq(p.0) == (if b.len() > 0 {
                    Some(b)
                } else {
                    None
                }) && opt_seq(p.1) == (if a.len() > 0 {
                    Some(a)
                } else {
                    None
                })
            }
        },
{
    let chars = chars_of(full_text);
    if chars.len() == 0 {
        return None;
    }
    let limit: usize = 1000;
    let total = chars.len();
    let start = if sel_start < total {
        sel_start
    } else {
        total
    };
    let e0 = if sel_end > start {
        sel_end
    } else {
        start
    };
    let end = if e0 < total {
        e0
    } else {
        total
    };
    let before_start: usize = if start > limit {
        start - limit
    } else {
        0
    };
    let after_end: usize = if limit < total - end {
        end + limit
    } else {
        total
    };
    let before = string_of(&chars, before_start, start);
    let after = string_of(&chars, end, after_end);
    let sv = chars_of(selected_text);
    let (lo, hi) = trim_bounds(&sv);
    if lo < hi {
        let st = crate::text::copy_range(&sv, lo, hi);
        if !crate::text::contains_chars(&chars, &st) {
            return None;
        }
    }
    let b = if before_start == start {
        None
    } else {
        Some(before)
    };
    let a = if after_end == end {
        None
    } else {
        Some(after)
    };
    Some((b, a))
}

/// The selected text of the Sublime Text plugin report: characters
/// `sel_start..sel_end` (end clamped to the text), or `None` when the range is
/// empty or reversed, the text is empty, or the selection is only white space.
pub open spec fn sublime_selection(text: Seq<char>, sel_start: int, sel_end: int) -> Option<
    Seq<char>,
> {
    let total = text.len() as int;
    let start = if sel_start < total {
        sel_start
    } else {
        total
    };
    let end = if sel_end < total {
        sel_end
    } else {
        total
    };
    if sel_start >= sel_end || total == 0 || start >= end {
        None
    } else if trim(text.subrange(start, end)).len() == 0 {
        None
    } else {
        Some(text.subrange(start, end))
    }
}

/// Selected text from the Sublime Text plugin report.
pub fn extract_sublime_selection(full_text: &str, sel_start: usize, sel_end: usize) -> (r: Option<
    String,
>)
    ensures
        opt_seq(r) == sublime_selection(full_text@, sel_start as int, sel_end as int),
{
    let chars = chars_of(full_text);
    if sel_start >= sel_end || chars.len() == 0 {
        return None;
    }
    let total = chars.len();
    let start = if sel_start < total {
        sel_start
    } else {
        total
    };
    let end = if sel_end < total {
        sel_end
    } else {
        total
    };
    if start >= end {
        return None;
    }
    if all_ws(&chars, start, end) {
        return None;
    }
    Some(string_of(&chars, start, end))
}

/// One line of the CJK layout-break merge.
pub open spec fn merge_step(m: Seq<Seq<char>>, line: Seq<char>) -> Seq<Seq<char>> {
    if trim_end(line).len() == 0 {
        m.push(Seq::empty())
    } else if m.len() > 0 && trim_end(m.last()).len() > 0 && (trim_end(m.last()).last() as u32)
        >= 0x2e80 {
        m.update(m.len() - 1, trim_end(m.last()) + trim(line))
    } else {
        m.push(line)
    }
}

pub open spec fn merge_run(ls: Seq<Seq<char>>) -> Seq<Seq<char>>
    decreases ls.len(),
{
    if ls.len() == 0 {
        Seq::empty()
    } else {
        merge_step(merge_run(ls.drop_last()), ls.last())
    }
}

/// Joins lines broken by page layout: a line that follows a line ending in a
/// CJK character (U+2E80 or above) is appended to it; blank lines stay as
/// paragraph breaks.
pub open spec fn merge_cjk(text: Seq<char>) -> Seq<char> {
    join(merge_run(lines(text)), "\n"@)
}

/// Merges layout line breaks of extracted PDF text.
pub fn merge_cjk_line_breaks(text: &str) -> (r: String)
    ensures
        r@ == merge_cjk(text@),
{
    let v = chars_of(text);
    let ls = split_lines(&v);
    let ghost lsv = Seq::new(ls@.len(), |i: int| ls@[i]@);
    let mut merged: Vec<Vec<char>> = Vec::new();
    let mut i: usize = 0;
    assert(Seq::new(merged@.len(), |k: int| merged@[k]@) =~= merge_run(lsv.take(0)));
    while i < ls.len()
        invariant
            i <= ls@.len(),
            lsv == Seq::new(ls@.len(), |k: int| ls@[k]@),
            Seq::new(merged@.len(), |k: int| merged@[k]@) == merge_run(lsv.take(i as int)),
        decreases ls@.len() - i,
    {
        proof {
            assert(lsv.take(i + 1).drop_last() =~= lsv.take(i as int));
            assert(lsv.take(i + 1).last() == ls@[i as int]@);
        }
        let line = &ls[i];
        let (llo, lhi) = trim_bounds(line);
        let mut end_line: usize = line.len();
        assert(line@.subrange(0, end_line as int) =~= line@);
        while end_line > 0 && crate::text::is_ws_char(line[end_line - 1])
            invariant
                end_line <= line@.len(),
                trim_end(line@) == trim_end(line@.subrange(0, end_line as int)),
            decreases end_line,
        {
            proof {
                let t = line@.subrange(0, end_line as int);
                assert(t.drop_last() =~= line@.subrange(0, end_line - 1));
            }
            end_line = end_line - 1;
        }
        proof {
            let t = line@.subrange(0, end_line as int);
            if t.len() > 0 {
                assert(t.last() == line@[end_line - 1]);
            }
            assert(trim_end(t) == t);
        }
        if end_line == 0 {
            merged.push(Vec::new());
            proof {
                assert(Seq::new(merged@.len(), |k: int| merged@[k]@) =~= merge_run(
                    lsv.take(i + 1),
                ));
            }
        } else {
            let mut joined = false;
            let mlen = merged.len();
            if mlen > 0 {
                let prev = &merged[mlen - 1];
                let mut pe: usize = prev.len();
                assert(prev@.subrange(0, pe as int) =~= prev@);
                while pe > 0 && crate::text::is_ws_char(prev[pe - 1])
                    invariant
                        pe <= prev@.len(),
                        trim_end(prev@) == trim_end(prev@.subrange(0, pe as int)),
                    decreases pe,
                {
                    proof {
                        let t = prev@.subrange(0, pe as int);
                        assert(t.drop_last() =~= prev@.subrange(0, pe - 1));
                    }
                    pe = pe - 1;
                }
                proof {
                    let t = prev@.subrange(0, pe as int);
                    if t.len() > 0 {
                        assert(t.last() == prev@[pe - 1]);
                    }
                    assert(trim_end(t) == t);
                }
                if pe > 0 && (prev[pe - 1] as u32) >= 0x2e80 {
                    let mut combined: Vec<char> = Vec::new();
                    let mut k: usize = 0;
                    while k < pe
                        invariant
                            k <= pe <= prev@.len(),
                            combined@ == prev@.subrange(0, k as int),
                        decreases pe - k,
                    {
                        combined.push(prev[k]);
                        k = k + 1;
                        assert(combined@ =~= prev@.subrange(0, k as int));
                    }
                    let mut q: usize = llo;
                    while q < lhi
                        invariant
                            llo <= q <= lhi <= line@.len(),
                            combined@ == prev@.subrange(0, pe as int) + line@.subrange(
                                llo as int,
                                q as int,
                            ),
                        decreases lhi - q,
                    {
                        combined.push(line[q]);
                        q = q + 1;
                        assert(combined@ =~= prev@.subrange(0, pe as int) + line@.subrange(
                            llo as int,
                            q as int,
                        ));
                    }
                    merged.set(mlen - 1, combined);
                    joined = true;
                    proof {
                        assert(Seq::new(merged@.len(), |k: int| merged@[k]@) =~= merge_run(
                            lsv.take(i + 1),
                        ));
                    }
                }
            }
            if !joined {
                let mut copy: Vec<char> = Vec::new();
                let mut k: usize = 0;
                while k < line.len()
                    invariant
                        k <= line@.len(),
                        copy@ == line@.subrange(0, k as int),
                    decreases line@.len() - k,
                {
                    copy.push(line[k]);
                    k = k + 1;
                    assert(copy@ =~= line@.subrange(0, k as int));
                }
                assert(copy@ =~= line@);
                merged.push(copy);
                proof {
                    assert(Seq::new(merged@.len(), |k: int| merged@[k]@) =~= merge_run(
                        lsv.take(i + 1),
                    ));
                }
            }
        }
        i = i + 1;
    }
    assert(lsv.take(ls@.len() as int) =~= lsv);
    join_chars(&merged, "\n")
}

/// UTF-8 width of one character.
fn char_width(c: char) -> (w: usize)
    ensures
        w == utf8_width(c),
        1 <= w <= 4,
{
    let u = c as u32;
    if u < 0x80 {
        1
    } else if u < 0x800 {
        2
    } else if u < 0x10000 {
        3
    } else {
        4
    }
}

proof fn lemma_utf8_len_step(s: Seq<char>, k: int)
    requires
        0 <= k < s.len(),
    ensures
        utf8_len(s.take(k + 1)) == utf8_len(s.take(k)) + utf8_width(s[k]),
{
    assert(s.take(k + 1).drop_last() =~= s.take(k));
}

/// Where the byte offset `utf8_len(lower[..j])` of another text falls in
/// `full`: the character index whose UTF-8 prefix has exactly that length, if any.
fn boundary_in(full: &[char], lower: &[char], j: usize) -> (r: Option<usize>)
    requires
        j <= lower@.len(),
    ensures
        match r {
            Some(k) => is_boundary(full@, utf8_len(lower@.take(j as int)) as int, k as int),
            None => forall|k: int| !is_boundary(full@, utf8_len(lower@.take(j as int)) as int, k),
        },
{
    let n = full.len();
    let mut a: usize = 0;
    let mut b: usize = 0;
    let mut diff: usize = 0;
    while b < j
        invariant
            j <= lower@.len(),
            n == full@.len(),
            a <= n,
            b <= j,
            diff <= 4,
            utf8_len(lower@.take(b as int)) == utf8_len(full@.take(a as int)) + diff,
            a == n ==> diff == 0,
            a < n ==> diff < utf8_width(full@[a as int]),
        decreases j - b,
    {
        proof {
            lemma_utf8_len_step(lower@, b as int);
        }
        diff = diff + char_width(lower[b]);
        b = b + 1;
        while a < n && diff >= char_width(full[a])
            invariant
                n == full@.len(),
                a <= n,
                diff <= 8,
                utf8_len(lower@.take(b as int)) == utf8_len(full@.take(a as int)) + diff,
            decreases n - a,
        {
            proof {
                lemma_utf8_len_step(full@, a as int);
            }
            diff = diff - char_width(full[a]);
            a = a + 1;
        }
        if a == n && diff > 0 {
            proof {
                assert forall|k: int| !is_boundary(full@, utf8_len(lower@.take(j as int)) as int, k) by {
                    if 0 <= k <= full@.len() {
                        lemma_utf8_len_mono(full@, k, n as int);
                        assert(full@.take(n as int) =~= full@);
                    }
                    lemma_utf8_len_mono(lower@, b as int, j as int);
                }
            }
            return None;
        }
    }
    if diff == 0 {
        Some(a)
    } else {
        proof {
            assert forall|k: int| !is_boundary(full@, utf8_len(lower@.take(j as int)) as int, k) by {
                if 0 <= k <= full@.len() {
                    if k <= a {
                        lemma_utf8_len_mono(full@, k, a as int);
                    } else {
                        lemma_utf8_len_step(full@, a as int);
                        lemma_utf8_len_mono(full@, a + 1, k);
                    }
                }
            }
        }
        None
    }
}

/// Before/after context of a selection of `sel_len` characters at character `pc`.
pub open spec fn context_at(full: Seq<char>, pc: int, sel_len: int, limit: int) -> (
    Option<Seq<char>>,
    Option<Seq<char>>,
) {
    (slice_before(full, pc, limit), slice_after(full, pc + sel_len, limit))
}

fn slice_at(full_chars: &[char], pc: usize, sel_chars: usize, limit: usize) -> (r: (
    Option<String>,
    Option<String>,
))
    requires
        pc <= full_chars@.len(),
    ensures
        (opt_seq(r.0), opt_seq(r.1)) == context_at(full_chars@, pc as int, sel_chars as int, limit as int),
{
    let n = full_chars.len();
    let before = if pc > 0 {
        let start: usize = if pc > limit {
            pc - limit
        } else {
            0
        };
        Some(string_of(full_chars, start, pc))
    } else {
        None
    };
    let after = if sel_chars < n - pc {
        let end = pc + sel_chars;
        let stop: usize = if limit < n - end {
            end + limit
        } else {
            n
        };
        Some(string_of(full_chars, end, stop))
    } else {
        None
    };
    (before, after)
}

/// Characters kept by the normalised match: CJK unified ideographs and ASCII
/// letters and digits.
pub open spec fn keep_norm(c: char) -> bool {
    let u = c as u32;
    (0x4E00 <= u && u <= 0x9FFF) || ('0' <= c && c <= '9') || ('a' <= c && c <= 'z') || ('A' <= c
        && c <= 'Z')
}

/// The kept characters of `s`, ASCII-lowercased.
pub open spec fn kept(s: Seq<char>) -> Seq<char>
    decreases s.len(),
{
    if s.len() == 0 {
        Seq::empty()
    } else if keep_norm(s.last()) {
        kept(s.drop_last()).push(crate::file_hint::ascii_lower(s.last()))
    } else {
        kept(s.drop_last())
    }
}

/// Normalised form of a text, character by character: each character's NFKC
/// form, kept characters only, lowercased.
pub open spec fn norm_chars(full: Seq<char>) -> Seq<char>
    decreases full.len(),
{
    if full.len() == 0 {
        Seq::empty()
    } else {
        norm_chars(full.drop_last()) + kept(spec_nfkc_char(full.last()))
    }
}

/// For each character of `norm_chars(full)`, the index of the character of
/// `full` it comes from.
pub open spec fn norm_owners(full: Seq<char>) -> Seq<int>
    decreases full.len(),
{
    if full.len() == 0 {
        Seq::empty()
    } else {
        norm_owners(full.drop_last()) + Seq::new(
            kept(spec_nfkc_char(full.last())).len(),
            |i: int| full.len() - 1,
        )
    }
}

proof fn lemma_norm_lens(full: Seq<char>)
    ensures
        norm_chars(full).len() == norm_owners(full).len(),
        forall|i: int| 0 <= i < norm_owners(full).len() ==> 0 <= #[trigger] norm_owners(full)[i] < full.len(),
    decreases full.len(),
{
    if full.len() > 0 {
        lemma_norm_lens(full.drop_last());
    }
}

fn keep_norm_exec(c: char) -> (b: bool)
    ensures
        b == keep_norm(c),
{
    let u = c as u32;
    (0x4E00 <= u && u <= 0x9FFF) || ('0' <= c && c <= '9') || ('a' <= c && c <= 'z') || ('A' <= c
        && c <= 'Z')
}

/// Appends the kept, lowercased characters of `v` to `out`.
fn push_kept(out: &mut Vec<char>, v: &[char])
    ensures
        final(out)@ == old(out)@ + kept(v@),
{
    let ghost o = out@;
    let mut i: usize = 0;
    while i < v.len()
        invariant
            i <= v@.len(),
            out@ == o + kept(v@.take(i as int)),
        decreases v@.len() - i,
    {
        proof {
            assert(v@.take(i + 1).drop_last() =~= v@.take(i as int));
        }
        if keep_norm_exec(v[i]) {
            out.push(crate::file_hint::ascii_lower_char(v[i]));
        }
        assert(out@ =~= o + kept(v@.take(i + 1)));
        i = i + 1;
    }
    assert(v@.take(v@.len() as int) =~= v@);
}

/// Whether `v` has at least five bytes in UTF-8.
fn utf8_at_least_5(v: &[char]) -> (b: bool)
    ensures
        b == (utf8_len(v@) >= 5),
{
    utf8_len_reaches(v, 5)
}

/// Whether `v` has at least `n` bytes in UTF-8.
pub fn utf8_len_reaches(v: &[char], n: usize) -> (b: bool)
    requires
        n <= 1024,
    ensures
        b == (utf8_len(v@) >= n),
{
    if n == 0 {
        return true;
    }
    let mut acc: usize = 0;
    let mut i: usize = 0;
    while i < v.len()
        invariant
            i <= v@.len(),
            acc == utf8_len(v@.take(i as int)),
            acc < n,
            n <= 1024,
        decreases v@.len() - i,
    {
        proof {
            lemma_utf8_len_step(v@, i as int);
        }
        acc = acc + char_width(v[i]);
        i = i + 1;
        if acc >= n {
            proof {
                lemma_utf8_len_mono(v@, i as int, v@.len() as int);
                assert(v@.take(v@.len() as int) =~= v@);
            }
            return true;
        }
    }
    assert(v@.take(v@.len() as int) =~= v@);
    false
}

/// Whether a case-insensitive match, when it is the one used, starts on a
/// character boundary of the text (the byte offset of the match in the
/// lowercased text is applied to the original text).
pub open spec fn lower_match_aligned(full: Seq<char>, selected: Seq<char>) -> bool {
    let sel = trim(selected);
    let lf = spec_lowercase(full);
    let ls = spec_lowercase(sel);
    let pb = utf8_len(lf.take(choose|j: int| first_occurrence(lf, ls, j))) as int;
    sel.len() > 0 && full.len() > 0 && !contains(full, sel) && contains(lf, ls) ==> exists|k: int|
        #[trigger] is_boundary(full, pb, k)
}

/// Context of `limit` characters on each side of `selected_text` in
/// `full_text`, found by an exact match, else a case-insensitive match, else
/// a match of the NFKC forms reduced to CJK ideographs and ASCII letters and
/// digits (only when that form of the selection has at least five bytes).
pub open spec fn around(full: Seq<char>, selected: Seq<char>, limit: int) -> Option<
    (Option<Seq<char>>, Option<Seq<char>>),
> {
    let sel = trim(selected);
    let sl = sel.len() as int;
    if sl == 0 || full.len() == 0 {
        None
    } else if contains(full, sel) {
        Some(context_at(full, choose|i: int| first_occurrence(full, sel, i), sl, limit))
    } else if contains(spec_lowercase(full), spec_lowercase(sel)) {
        let lf = spec_lowercase(full);
        let j = choose|j: int| first_occurrence(lf, spec_lowercase(sel), j);
        let pb = utf8_len(lf.take(j)) as int;
        Some(context_at(full, choose|k: int| is_boundary(full, pb, k), sl, limit))
    } else {
        let sn = kept(spec_nfkc(sel));
        let nf = norm_chars(full);
        if utf8_len(sn) >= 5 && contains(nf, sn) {
            let j = choose|j: int| first_occurrence(nf, sn, j);
            Some(context_at(full, norm_owners(full)[j], sl, limit))
        } else {
            None
        }
    }
}

/// Optional pair of optional strings, by views.
pub open spec fn opt_pair(r: Option<(Option<String>, Option<String>)>) -> Option<
    (Option<Seq<char>>, Option<Seq<char>>),
> {
    match r {
        Some((a, b)) => Some((opt_seq(a), opt_seq(b))),
        None => None,
    }
}

proof fn lemma_boundary_unique(s: Seq<char>, bytes: int, k1: int, k2: int)
    requires
        is_boundary(s, bytes, k1),
        is_boundary(s, bytes, k2),
    ensures
        k1 == k2,
{
    if k1 < k2 {
        lemma_utf8_len_mono(s, k1, k2);
    } else if k2 < k1 {
        lemma_utf8_len_mono(s, k2, k1);
    }
}

/// Before/after context of the selected text inside a document's full text,
/// `limit` characters each way.
pub fn slice_around_text(full_text: &str, selected_text: &str, limit: usize) -> (r: Option<
    (Option<String>, Option<String>),
>)
    requires
        lower_match_aligned(full_text@, selected_text@),
    ensures
        opt_pair(r) == around(full_text@, selected_text@, limit as int),
{
    let sv = chars_of(selected_text);
    let selv = {
        let (lo, hi) = trim_bounds(&sv);
        crate::text::copy_range(&sv, lo, hi)
    };
    let full = chars_of(full_text);
    if selv.len() == 0 || full.len() == 0 {
        return None;
    }
    let sl = selv.len();
    if let Some(i) = find(&full, &selv) {
        proof {
            let c = choose|c: int| first_occurrence(full@, selv@, c);
            crate::text::lemma_first_occurrence_unique(full@, selv@, i as int, c);
        }
        return Some(slice_at(&full, i, sl, limit));
    }
    let sel_s = string_of(&selv, 0, sl);
    assert(selv@.subrange(0, sl as int) =~= selv@);
    let lf = to_lowercase(full_text);
    let ls = to_lowercase(sel_s.as_str());
    let lfv = chars_of(lf.as_str());
    let lsv = chars_of(ls.as_str());
    if let Some(j) = find(&lfv, &lsv) {
        proof {
            let c = choose|c: int| first_occurrence(lfv@, lsv@, c);
            crate::text::lemma_first_occurrence_unique(lfv@, lsv@, j as int, c);
        }
        match boundary_in(&full, &lfv, j) {
            Some(k) => {
                proof {
                    let pb = utf8_len(lfv@.take(j as int)) as int;
                    let c = choose|c: int| is_boundary(full@, pb, c);
                    lemma_boundary_unique(full@, pb, k as int, c);
                }
                return Some(slice_at(&full, k, sl, limit));
            },
            None => {
                return None;
            },
        }
    }
    let sn_s = nfkc_str(sel_s.as_str());
    let mut sn: Vec<char> = Vec::new();
    push_kept(&mut sn, &chars_of(sn_s.as_str()));
    assert(sn@ =~= kept(spec_nfkc(selv@)));
    if !utf8_at_least_5(&sn) {
        return None;
    }
    let mut nf: Vec<char> = Vec::new();
    let mut owners: Vec<usize> = Vec::new();
    let mut i: usize = 0;
    while i < full.len()
        invariant
            i <= full@.len(),
            nf@ == norm_chars(full@.take(i as int)),
            owners@.len() == nf@.len(),
            forall|k: int| 0 <= k < owners@.len() ==> owners@[k] as int == #[trigger] norm_owners(full@.take(i as int))[k],
        decreases full@.len() - i,
    {
        proof {
            assert(full@.take(i + 1).drop_last() =~= full@.take(i as int));
            lemma_norm_lens(full@.take(i as int));
        }
        let nc = nfkc_char(full[i]);
        let ncv = chars_of(nc.as_str());
        let before = nf.len();
        push_kept(&mut nf, &ncv);
        let added = nf.len() - before;
        let mut t: usize = 0;
        while t < added
            invariant
                t <= added,
                owners@.len() == before + t,
                forall|k: int| 0 <= k < before ==> owners@[k] as int == #[trigger] norm_owners(full@.take(i as int))[k],
                forall|k: int| before <= k < before + t ==> owners@[k] == i,
            decreases added - t,
        {
            owners.push(i);
            t = t + 1;
        }
        proof {
            lemma_norm_lens(full@.take(i as int));
            assert(full@.take(i + 1).last() == full@[i as int]);
            let no = norm_owners(full@.take(i + 1));
            assert(no == norm_owners(full@.take(i as int)) + Seq::new(
                kept(spec_nfkc_char(full@[i as int])).len(),
                |q: int| i as int,
            ));
            assert forall|k: int| 0 <= k < owners@.len() implies owners@[k] as int == #[trigger] norm_owners(full@.take(i + 1))[k] by {
                if k < before {
                } else {
                }
            }
        }
        i = i + 1;
    }
    assert(full@.take(full@.len() as int) =~= full@);
    match find(&nf, &sn) {
        Some(j) => {
            proof {
                let c = choose|c: int| first_occurrence(nf@, sn@, c);
                crate::text::lemma_first_occurrence_unique(nf@, sn@, j as int, c);
                lemma_norm_lens(full@);
                assert(sn@.len() > 0);
            }
            if j < owners.len() {
                let pc = owners[j];
                proof {
                    assert(owners@[j as int] as int == norm_owners(full@)[j as int]);
                }
                Some(slice_at(&full, pc, sl, limit))
            } else {
                None
            }
        },
        None => None,
    }
}

/// `slice_around_text` where it is defined: `None` when the case-insensitive
/// match it would use does not start on a character boundary of the text.
pub fn try_slice_around_text(full_text: &str, selected_text: &str, limit: usize) -> (r: Option<
    Option<(Option<String>, Option<String>)>,
>)
    ensures
        match r {
            Some(x) => lower_match_aligned(full_text@, selected_text@) && opt_pair(x) == around(
                full_text@,
                selected_text@,
                limit as int,
            ),
            None => !lower_match_aligned(full_text@, selected_text@),
        },
{
    let sv = chars_of(selected_text);
    let selv = {
        let (lo, hi) = trim_bounds(&sv);
        crate::text::copy_range(&sv, lo, hi)
    };
    let full = chars_of(full_text);
    if selv.len() == 0 || full.len() == 0 || contains_chars(&full, &selv) {
        return Some(slice_around_text(full_text, selected_text, limit));
    }
    let sl = selv.len();
    let sel_s = string_of(&selv, 0, sl);
    assert(selv@.subrange(0, sl as int) =~= selv@);
    let lf = to_lowercase(full_text);
    let ls = to_lowercase(sel_s.as_str());
    let lfv = chars_of(lf.as_str());
    let lsv = chars_of(ls.as_str());
    match find(&lfv, &lsv) {
        Some(j) => {
            proof {
                let c = choose|c: int| first_occurrence(lfv@, lsv@, c);
                crate::text::lemma_first_occurrence_unique(lfv@, lsv@, j as int, c);
            }
            match boundary_in(&full, &lfv, j) {
                Some(_) => Some(slice_around_text(full_text, selected_text, limit)),
                None => None,
            }
        },
        None => Some(slice_around_text(full_text, selected_text, limit)),
    }
}


proof fn lemma_context_at_within(full: Seq<char>, pc: int, sl: int, limit: int)
    requires
        0 <= pc <= full.len(),
        sl >= 0,
        limit >= 0,
    ensures
        context_at(full, pc, sl, limit).0 matches Some(b) ==> b.len() <= limit,
        context_at(full, pc, sl, limit).1 matches Some(a) ==> a.len() <= limit,
{
}

/// The context found around a selection has at most `limit` characters on
/// each side (for texts where a case-insensitive match can be placed).
pub proof fn law_context_within_limit(full: Seq<char>, selected: Seq<char>, limit: int)
    requires
        limit >= 0,
        lower_match_aligned(full, selected),
    ensures
        around(full, selected, limit) matches Some((b, a)) ==> {
            &&& (b matches Some(x) ==> x.len() <= limit)
            &&& (a matches Some(y) ==> y.len() <= limit)
        },
{
    let sel = trim(selected);
    let sl = sel.len() as int;
    if sl == 0 || full.len() == 0 {
    } else if contains(full, sel) {
        let i = choose|i: int| first_occurrence(full, sel, i);
        let w = choose|w: int| crate::text::occurs_at(full, sel, w);
        crate::text::lemma_first_occurrence_exists(full, sel, w);
        lemma_context_at_within(full, i, sl, limit);
    } else if contains(spec_lowercase(full), spec_lowercase(sel)) {
        let lf = spec_lowercase(full);
        let j = choose|j: int| first_occurrence(lf, spec_lowercase(sel), j);
        let pb = utf8_len(lf.take(j)) as int;
        let k = choose|k: int| is_boundary(full, pb, k);
        lemma_context_at_within(full, k, sl, limit);
    } else {
        let sn = kept(spec_nfkc(sel));
        let nf = norm_chars(full);
        if utf8_len(sn) >= 5 && contains(nf, sn) {
            let w = choose|w: int| crate::text::occurs_at(nf, sn, w);
            crate::text::lemma_first_occurrence_exists(nf, sn, w);
            let j = choose|j: int| first_occurrence(nf, sn, j);
            lemma_norm_lens(full);
            assert(0 <= j < nf.len()) by {
                assert(crate::text::occurs_at(nf, sn, j));
                assert(sn.len() > 0) by {
                    if sn.len() == 0 {
                        assert(sn =~= Seq::<char>::empty());
                    }
                }
            }
            lemma_context_at_within(full, norm_owners(full)[j], sl, limit);
        }
    }
}


/// Terminal scroll-back kept before a selection never exceeds its character
/// limit.
pub proof fn law_terminal_context_within_limit(s: Seq<char>, max_lines: nat, max_chars: nat)
    ensures
        tail_text(s, max_lines, max_chars).len() <= max_chars,
{
}

} // verus!
