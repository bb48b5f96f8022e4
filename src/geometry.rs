use vstd::prelude::*;
use crate::error::SnipError;

verus! {

/// A rectangle drawn on the overlay, in viewport units. Any unit will do as long
/// as the `Viewport` it is drawn against uses the same one: a caller holding
/// fractional coordinates scales the selection and the viewport by one factor.
/// The mapping to source pixels is exact integer arithmetic, rounded down.
#[derive(Debug, Clone, Copy, PartialEq, Eq)]
pub struct Selection {
    pub x: i32,
    pub y: i32,
    pub width: i32,
    pub height: i32,
}

/// The size of the overlay surface, in the unit of the `Selection`.
#[derive(Debug, Clone, Copy, PartialEq, Eq)]
pub struct Viewport {
    pub width: u32,
    pub height: u32,
}

/// A region of a capture, in source pixels.
#[derive(Debug, Clone, Copy, PartialEq, Eq)]
pub struct CropRect {
    pub x: u32,
    pub y: u32,
    pub width: u32,
    pub height: u32,
}

/// `v` forced into `[lo, hi]` (for `lo <= hi`).
pub open spec fn clamp(v: int, lo: int, hi: int) -> int {
    if v < lo {
        lo
    } else if v > hi {
        hi
    } else {
        v
    }
}

/// A viewport coordinate `v` scaled by `pixels / units`, rounded down.
pub open spec fn to_pixels(v: int, pixels: int, units: int) -> int {
    (v * pixels) / units
}

/// Where a selection edge lands in a source axis of `pixels` pixels.
pub open spec fn origin_px(v: int, pixels: int, units: int) -> int {
    clamp(to_pixels(v, pixels, units), 0, pixels)
}

/// How much of an axis a selection extent covers past the clamped origin `start`.
pub open spec fn extent_px(v: int, pixels: int, units: int, start: int) -> int {
    clamp(to_pixels(v, pixels, units), 0, pixels - start)
}

/// The pixel region that `sel`, drawn on `vp`, covers in a `bw` x `bh` capture.
pub open spec fn crop_of(bw: u32, bh: u32, sel: Selection, vp: Viewport) -> CropRect {
    let x = origin_px(sel.x as int, bw as int, vp.width as int);
    let y = origin_px(sel.y as int, bh as int, vp.height as int);
    CropRect {
        x: x as u32,
        y: y as u32,
        width: extent_px(sel.width as int, bw as int, vp.width as int, x) as u32,
        height: extent_px(sel.height as int, bh as int, vp.height as int, y) as u32,
    }
}

/// Whether the selection and the viewport it was drawn on have positive extents.
pub open spec fn selection_valid(sel: Selection, vp: Viewport) -> bool {
    sel.width > 0 && sel.height > 0 && vp.width > 0 && vp.height > 0
}

/// What mapping `sel` onto a `bw` x `bh` capture yields.
pub open spec fn crop_result(bw: u32, bh: u32, sel: Selection, vp: Viewport) -> Result<CropRect, SnipError> {
    if !selection_valid(sel, vp) {
        Err(SnipError::InvalidSelection)
    } else if crop_of(bw, bh, sel, vp).width == 0 || crop_of(bw, bh, sel, vp).height == 0 {
        Err(SnipError::SelectionTooSmall)
    } else {
        Ok(crop_of(bw, bh, sel, vp))
    }
}

/// Whether `r` lies inside a `bw` x `bh` image.
pub open spec fn rect_within(r: CropRect, bw: u32, bh: u32) -> bool {
    r.x + r.width <= bw && r.y + r.height <= bh
}

/// For every selection with positive extents drawn on a non-empty viewport, the
/// crop's origin and size are the scaled coordinates rounded down and clamped
/// (the size to what remains of the capture past the origin), so the crop never
/// leaves the capture.
pub proof fn lemma_crop_within_capture(bw: u32, bh: u32, sel: Selection, vp: Viewport)
    requires
        selection_valid(sel, vp),
    ensures
        crop_of(bw, bh, sel, vp).x == origin_px(sel.x as int, bw as int, vp.width as int),
        crop_of(bw, bh, sel, vp).y == origin_px(sel.y as int, bh as int, vp.height as int),
        crop_of(bw, bh, sel, vp).width == clamp(
            to_pixels(sel.width as int, bw as int, vp.width as int),
            0,
            bw - crop_of(bw, bh, sel, vp).x,
        ),
        crop_of(bw, bh, sel, vp).height == clamp(
            to_pixels(sel.height as int, bh as int, vp.height as int),
            0,
            bh - crop_of(bw, bh, sel, vp).y,
        ),
        rect_within(crop_of(bw, bh, sel, vp), bw, bh),
{
}

/// `v * pixels / units`, clamped into `[0, hi]`.
fn scale_clamped(v: i32, pixels: u32, units: u32, hi: u32) -> (r: u32)
    requires
        units > 0,
    ensures
        r == clamp(to_pixels(v as int, pixels as int, units as int), 0, hi as int),
{
    proof {
        assert(-0x8000_0000 * 0xffff_ffff <= v * pixels <= 0x7fff_ffff * 0xffff_ffff)
            by (nonlinear_arith)
            requires
                -0x8000_0000 <= v <= 0x7fff_ffff,
                0 <= pixels <= 0xffff_ffff,
        ;
    }
    let p: i64 = v as i64 * pixels as i64;
    if p <= 0 {
        proof {
            assert((p as int) / (units as int) <= 0) by (nonlinear_arith)
                requires
                    p <= 0,
                    units > 0,
            ;
        }
        0
    } else {
        let q: i64 = p / units as i64;
        if q > hi as i64 {
            hi
        } else {
            q as u32
        }
    }
}

/// Maps a selection drawn on `vp` onto a `bw` x `bh` capture. Each axis scales
/// by its own factor `capture / viewport`; the origin is clamped into the
/// capture, the extent into what remains past the origin, both rounded down.
pub fn crop_rect(bw: u32, bh: u32, sel: Selection, vp: Viewport) -> (r: Result<CropRect, SnipError>)
    ensures
        r == crop_result(bw, bh, sel, vp),
        r matches Ok(c) ==> rect_within(c, bw, bh) && c.width > 0 && c.height > 0,
{
    if sel.width <= 0 || sel.height <= 0 || vp.width == 0 || vp.height == 0 {
        return Err(SnipError::InvalidSelection);
    }
    let x = scale_clamped(sel.x, bw, vp.width, bw);
    let y = scale_clamped(sel.y, bh, vp.height, bh);
    let width = scale_clamped(sel.width, bw, vp.width, bw - x);
    let height = scale_clamped(sel.height, bh, vp.height, bh - y);
    if width == 0 || height == 0 {
        Err(SnipError::SelectionTooSmall)
    } else {
        Ok(CropRect { x, y, width, height })
    }
}

} // verus!
