//! Integer geometry of the scrolling-screenshot preview, and the size label of
//! a stored image.
use vstd::prelude::*;
use crate::text::{decimal_digits, decimal_string};
use crate::text::push_str;

verus! {

/// Rows of the stitched canvas shown in the preview and the row they start at:
/// the bottom of the canvas, as many rows as fit `max_preview_h` preview rows
/// at the scale that makes the canvas `preview_w` wide.
pub open spec fn preview_crop(canvas_h: u32, canvas_w: u32, preview_w: u32, max_preview_h: u32) -> (u32, u32) {
    let src_h = if canvas_h * canvas_w / (preview_w as int) < canvas_h {
        canvas_h * canvas_w / (preview_w as int)
    } else {
        canvas_h as int
    };
    let cap = max_preview_h * canvas_w / (preview_w as int);
    let c1 = if src_h < cap {
        src_h
    } else {
        cap
    };
    let crop = if c1 < canvas_h {
        c1
    } else {
        canvas_h as int
    };
    (crop as u32, (canvas_h - crop) as u32)
}

/// The preview crop of a canvas (height, width) for a preview `preview_w`
/// wide and at most `max_preview_h` high: rows to keep and first row kept.
pub fn compute_preview_crop(canvas_h: u32, canvas_w: u32, preview_w: u32, max_preview_h: u32) -> (r: (u32, u32))
    requires
        preview_w > 0,
        max_preview_h * canvas_w <= u32::MAX,
    ensures
        r == preview_crop(canvas_h, canvas_w, preview_w, max_preview_h),
        r.0 <= canvas_h,
        r.0 + r.1 == canvas_h,
{
    let h64: u64 = canvas_h as u64;
    let w64: u64 = canvas_w as u64;
    assert(h64 * w64 <= 0xffff_ffff * 0xffff_ffffu64) by (nonlinear_arith)
        requires
            h64 <= 0xffff_ffff,
            w64 <= 0xffff_ffff,
    ;
    let prod: u64 = h64 * w64;
    let q: u64 = prod / preview_w as u64;
    let src_h: u32 = if q < canvas_h as u64 {
        q as u32
    } else {
        canvas_h
    };
    let cap: u32 = max_preview_h * canvas_w / preview_w;
    let c1: u32 = if src_h < cap {
        src_h
    } else {
        cap
    };
    let crop: u32 = if c1 < canvas_h {
        c1
    } else {
        canvas_h
    };
    (crop, canvas_h - crop)
}

/// Height of the preview image: the cropped canvas scaled to `preview_w`
/// wide, at most `max_preview_h`.
pub open spec fn preview_height(preview_w: u32, crop_h: u32, canvas_w: u32, max_preview_h: u32) -> u32 {
    let h = preview_w * crop_h / (canvas_w as int);
    if h < max_preview_h {
        h as u32
    } else {
        max_preview_h
    }
}

/// Preview image height for a crop of `crop_h` rows of a `canvas_w` wide canvas.
pub fn compute_preview_height(preview_w: u32, crop_h: u32, canvas_w: u32, max_preview_h: u32) -> (h: u32)
    requires
        canvas_w > 0,
        preview_w * crop_h <= u32::MAX,
    ensures
        h == preview_height(preview_w, crop_h, canvas_w, max_preview_h),
{
    let h = preview_w * crop_h / canvas_w;
    if h < max_preview_h {
        h
    } else {
        max_preview_h
    }
}

/// Size label in kibibytes for sizes under one mebibyte (rounded to the
/// nearest whole kibibyte); larger sizes are shown in mebibytes with one
/// decimal, which the caller formats.
pub open spec fn kib_label(bytes: u64) -> Option<Seq<char>> {
    if bytes < 1024 * 1024 {
        Some(decimal_digits(((bytes + 511) / 1024) as nat) + "K"@)
    } else {
        None
    }
}

/// The kibibyte size label of an image, when it is under one mebibyte.
pub fn format_file_size(bytes: u64) -> (r: Option<String>)
    ensures
        crate::text::opt_seq(r) == kib_label(bytes),
{
    if bytes < 1024 * 1024 {
        let k: u64 = (bytes + 511) / 1024;
        let mut s = decimal_string(k as usize);
        push_str(&mut s, "K");
        Some(s)
    } else {
        None
    }
}

} // verus!
