//! What becomes of a finished screenshot: the framed request that pins a
//! selection to the desktop, the rule for keeping recognised text, and the
//! one-slot hand-over of a recognition result to the preview window.
use vstd::prelude::*;
use crate::text::{decimal_digits, decimal_string, owned, push_str, push_u64_digits};
use crate::text::{all_ws, chars_of, trim};
use crate::unicode::utf8_decode;

verus! {

/// Unsigned big-endian value of a byte sequence.
pub open spec fn be_value(s: Seq<u8>) -> nat
    decreases s.len(),
{
    if s.len() == 0 {
        0
    } else {
        be_value(s.drop_last()) * 256 + s.last() as nat
    }
}

/// `256` to the power `k`.
pub open spec fn pow256(k: nat) -> nat
    decreases k,
{
    if k == 0 {
        1
    } else {
        pow256((k - 1) as nat) * 256
    }
}

proof fn lemma_pow256_monotone(i: nat, j: nat)
    requires
        i <= j,
    ensures
        pow256(i) <= pow256(j),
    decreases j,
{
    if i < j {
        lemma_pow256_monotone(i, (j - 1) as nat);
    }
}

/// Reads `n` bytes from `off` as one big-endian number.
fn read_be(b: &[u8], off: usize, n: usize) -> (v: u64)
    requires
        n <= 8,
        off + n <= b@.len(),
    ensures
        v == be_value(b@.subrange(off as int, off + n)),
{
    assert(pow256(7) == 0x0100_0000_0000_0000) by {
        reveal_with_fuel(pow256, 8);
    }
    let len = b.len();
    let mut v: u64 = 0;
    let mut i: usize = 0;
    while i < n
        invariant
            n <= 8,
            off + n <= b@.len(),
            len == b@.len(),
            i <= n,
            v == be_value(b@.subrange(off as int, off + i)),
            v < pow256(i as nat),
            pow256(7) == 0x0100_0000_0000_0000,
        decreases n - i,
    {
        proof {
            lemma_pow256_monotone(i as nat, 7);
            let s = b@.subrange(off as int, off + i + 1);
            assert(s.drop_last() =~= b@.subrange(off as int, off + i));
        }
        v = v * 256 + b[off + i] as u64;
        i = i + 1;
    }
    v
}

/// A request to pin a selection: the window it was made in, the selection's
/// geometry as the bits of four big-endian `f64` (x, y, width, height, in CSS
/// pixels), and the PNG image.
#[derive(Clone, Debug, PartialEq, Eq)]
pub struct PinRequest {
    pub label: String,
    pub x_bits: u64,
    pub y_bits: u64,
    pub w_bits: u64,
    pub h_bits: u64,
    pub png: Vec<u8>,
}

/// Why a pin request was refused.
#[derive(Clone, Copy, Debug, PartialEq, Eq, Structural)]
pub enum PinRequestError {
    /// Fewer than four bytes: no label length.
    TooShort,
    /// The label and the geometry do not fit in what was sent.
    Truncated { need: u64, got: usize },
    /// The label is not UTF-8.
    BadLabel,
    /// Nothing follows the geometry.
    MissingImage,
}

/// Length of the label, from the first four bytes.
pub open spec fn pin_label_len(b: Seq<u8>) -> nat {
    be_value(b.subrange(0, 4))
}

/// Bytes needed for the length, the label and the geometry.
pub open spec fn pin_header_len(b: Seq<u8>) -> nat {
    4 + pin_label_len(b) + 32
}

/// The eight bytes of the `k`-th geometry value.
pub open spec fn pin_geometry(b: Seq<u8>, k: int) -> nat {
    let o = 4 + pin_label_len(b) + 8 * k;
    be_value(b.subrange(o, o + 8))
}

/// What a framed pin request means: `[u32 BE label length][label][4 × f64 BE]
/// [PNG]`, checked in that order.
pub open spec fn pin_request_spec(b: Seq<u8>) -> Result<
    (Seq<char>, nat, nat, nat, nat, Seq<u8>),
    PinRequestError,
> {
    if b.len() < 4 {
        Err(PinRequestError::TooShort)
    } else if b.len() < pin_header_len(b) {
        Err(PinRequestError::Truncated { need: pin_header_len(b) as u64, got: b.len() as usize })
    } else if !vstd::utf8::valid_utf8(b.subrange(4, 4 + pin_label_len(b) as int)) {
        Err(PinRequestError::BadLabel)
    } else if b.len() == pin_header_len(b) {
        Err(PinRequestError::MissingImage)
    } else {
        Ok(
            (
                vstd::utf8::decode_utf8(b.subrange(4, 4 + pin_label_len(b) as int)),
                pin_geometry(b, 0),
                pin_geometry(b, 1),
                pin_geometry(b, 2),
                pin_geometry(b, 3),
                b.subrange(pin_header_len(b) as int, b.len() as int),
            ),
        )
    }
}

/// The request as plain values.
pub open spec fn pin_request_view(r: Result<PinRequest, PinRequestError>) -> Result<
    (Seq<char>, nat, nat, nat, nat, Seq<u8>),
    PinRequestError,
> {
    match r {
        Ok(p) => Ok(
            (
                p.label@,
                p.x_bits as nat,
                p.y_bits as nat,
                p.w_bits as nat,
                p.h_bits as nat,
                p.png@,
            ),
        ),
        Err(e) => Err(e),
    }
}

/// Splits the body of a pin request into its parts.
pub fn parse_pin_request(body: &[u8]) -> (r: Result<PinRequest, PinRequestError>)
    ensures
        pin_request_view(r) == pin_request_spec(body@),
{
    let n = body.len();
    if n < 4 {
        return Err(PinRequestError::TooShort);
    }
    let label_len: u64 = read_be(body, 0, 4);
    proof {
        reveal_with_fuel(pow256, 5);
        assert(label_len == pin_label_len(body@));
        lemma_be_bound(body@.subrange(0, 4));
    }
    let need: u64 = 4 + label_len + 32;
    if (n as u64) < need {
        return Err(PinRequestError::Truncated { need, got: n });
    }
    let l = label_len as usize;
    let label_bytes = &body[4..4 + l];
    assert(label_bytes@ =~= body@.subrange(4, 4 + l));
    let label = match utf8_decode(label_bytes) {
        Some(s) => s,
        None => {
            return Err(PinRequestError::BadLabel);
        },
    };
    let off = 4 + l;
    let x_bits = read_be(body, off, 8);
    let y_bits = read_be(body, off + 8, 8);
    let w_bits = read_be(body, off + 16, 8);
    let h_bits = read_be(body, off + 24, 8);
    if n == off + 32 {
        return Err(PinRequestError::MissingImage);
    }
    let png = copy_bytes(body, off + 32);
    Ok(PinRequest { label, x_bits, y_bits, w_bits, h_bits, png })
}

/// The bytes of `b` from `lo` on.
fn copy_bytes(b: &[u8], lo: usize) -> (r: Vec<u8>)
    requires
        lo <= b@.len(),
    ensures
        r@ == b@.subrange(lo as int, b@.len() as int),
{
    let mut r: Vec<u8> = Vec::new();
    let mut i: usize = lo;
    while i < b.len()
        invariant
            lo <= i <= b@.len(),
            r@ == b@.subrange(lo as int, i as int),
        decreases b@.len() - i,
    {
        r.push(b[i]);
        i = i + 1;
        assert(r@ =~= b@.subrange(lo as int, i as int));
    }
    r
}

proof fn lemma_be_bound(s: Seq<u8>)
    ensures
        be_value(s) < pow256(s.len()),
    decreases s.len(),
{
    if s.len() > 0 {
        lemma_be_bound(s.drop_last());
    }
}

impl PinRequestError {
    /// The message the request is answered with.
    pub open spec fn message_spec(self) -> Seq<char> {
        match self {
            PinRequestError::TooShort => "pin_screenshot body too short"@,
            PinRequestError::Truncated { need, got } => "pin_screenshot body truncated: need at least "@
                + decimal_digits(need as nat) + " bytes, got "@ + decimal_digits(got as nat),
            PinRequestError::BadLabel => "label UTF-8 decode failed"@,
            PinRequestError::MissingImage => "pin_screenshot: missing PNG bytes"@,
        }
    }

    pub fn message(&self) -> (s: String)
        ensures
            s@ == self.message_spec(),
    {
        match self {
            PinRequestError::TooShort => owned("pin_screenshot body too short"),
            PinRequestError::Truncated { need, got } => {
                let mut s = owned("pin_screenshot body truncated: need at least ");
                push_u64_digits(&mut s, *need);
                push_str(&mut s, " bytes, got ");
                let g = decimal_string(*got);
                push_str(&mut s, g.as_str());
                s
            },
            PinRequestError::BadLabel => owned("label UTF-8 decode failed"),
            PinRequestError::MissingImage => owned("pin_screenshot: missing PNG bytes"),
        }
    }
}

/// Whether recognised text is worth keeping as an entry: it holds something
/// besides white space.
pub fn keeps_recognised_text(text: &str) -> (b: bool)
    ensures
        b == (trim(text@).len() > 0),
{
    let v = chars_of(text);
    let blank = all_ws(&v, 0, v.len());
    assert(v@.subrange(0, v@.len() as int) =~= text@);
    !blank
}

/// Tabs opened after recognition, in order: the image, then its text when
/// that was kept.
pub fn recognition_tabs(image_id: i64, text_id: Option<i64>) -> (tabs: Vec<i64>)
    ensures
        tabs@ == (match text_id {
            Some(t) => seq![image_id, t],
            None => seq![image_id],
        }),
{
    let mut tabs: Vec<i64> = Vec::new();
    tabs.push(image_id);
    if let Some(t) = text_id {
        tabs.push(t);
    }
    assert(tabs@ =~= (match text_id {
        Some(t) => seq![image_id, t],
        None => seq![image_id],
    }));
    tabs
}

/// The last recognition result, held for the image it belongs to until that
/// image's preview asks for it.
#[derive(Clone, Debug)]
pub struct ResultSlot<T> {
    pub held: Option<(i64, T)>,
}

impl<T> ResultSlot<T> {
    pub fn new() -> (s: ResultSlot<T>)
        ensures
            s.held is None,
    {
        ResultSlot { held: None }
    }

    /// Holds `result` for `image_id`, replacing what was held.
    pub fn put(&mut self, image_id: i64, result: T)
        ensures
            final(self).held == Some((image_id, result)),
    {
        self.held = Some((image_id, result));
    }

    /// Hands out the result held for `image_id` and empties the slot; a
    /// result held for another image stays where it is.
    pub fn take_for(&mut self, image_id: i64) -> (r: Option<T>)
        ensures
            (r, final(self).held) == slot_take(old(self).held, image_id),
    {
        match self.held.take() {
            Some((id, res)) => {
                if id == image_id {
                    Some(res)
                } else {
                    self.held = Some((id, res));
                    None
                }
            },
            None => None,
        }
    }
}

/// What asking the slot for `image_id` hands out, and what the slot holds
/// afterwards.
pub open spec fn slot_take<T>(held: Option<(i64, T)>, image_id: i64) -> (Option<T>, Option<(i64, T)>) {
    match held {
        Some((id, res)) => if id == image_id {
            (Some(res), None)
        } else {
            (None, held)
        },
        None => (None, None),
    }
}

/// A result put for an image is handed out to that image's preview,
/// once; a request for another image before it neither gets it nor loses it.
pub proof fn law_result_reaches_its_image<T>(id: i64, other: i64, res: T)
    requires
        other != id,
    ensures
        slot_take(Some((id, res)), other) == (None::<T>, Some((id, res))),
        slot_take(Some((id, res)), id) == (Some(res), None::<(i64, T)>),
        slot_take(slot_take(Some((id, res)), id).1, id).0 is None,
{
}

} // verus!
