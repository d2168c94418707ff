//! Scissoring a portal's nested pass to the quad's footprint on screen: the pixel box, padded
//! and kept inside the framebuffer. Projecting the quad's corners is the renderer's; the box
//! it gets back is decided here.

use vstd::prelude::*;

verus! {

/// Pixels added on every side of the projected box: a screen pixel on the quad's edge can
/// sample up to a texel outside the exact box.
pub const PAD: i32 = 2;

/// The box `[x, y, w, h]` for a footprint whose corners span `lo_x..hi_x` by `lo_y..hi_y` in
/// the pixels of a `width` x `height` framebuffer (the low corner rounded down, the high one
/// up): padded by [`PAD`] on every side, then clipped to the framebuffer.
pub open spec fn padded_box(lo_x: int, lo_y: int, hi_x: int, hi_y: int, width: int, height: int) -> (
    int,
    int,
    int,
    int,
) {
    let x0 = if lo_x - PAD < 0 {
        0
    } else {
        lo_x - PAD
    };
    let y0 = if lo_y - PAD < 0 {
        0
    } else {
        lo_y - PAD
    };
    let x1 = if hi_x + PAD > width {
        width
    } else {
        hi_x + PAD
    };
    let y1 = if hi_y + PAD > height {
        height
    } else {
        hi_y + PAD
    };
    (x0, y0, x1 - x0, y1 - y0)
}

/// The scissor box for a quad seen through a `width` x `height` framebuffer. A quad with a
/// corner at or behind the eye (`behind`) has no bounded projection, and gets the whole
/// framebuffer; otherwise its corners' pixel span, padded and clipped (see [`padded_box`]).
pub fn footprint_box(
    behind: bool,
    lo_x: i32,
    lo_y: i32,
    hi_x: i32,
    hi_y: i32,
    width: i32,
    height: i32,
) -> (r: [i32; 4])
    requires
        !behind ==> 0 <= lo_x <= hi_x <= width,
        !behind ==> 0 <= lo_y <= hi_y <= height,
        !behind ==> hi_x <= i32::MAX - PAD,
        !behind ==> hi_y <= i32::MAX - PAD,
    ensures
        behind ==> r@ == seq![0, 0, width, height],
        !behind ==> ({
            let b = padded_box(lo_x as int, lo_y as int, hi_x as int, hi_y as int, width as int, height as int);
            r@ == seq![b.0 as i32, b.1 as i32, b.2 as i32, b.3 as i32]
        }),
{
    if behind {
        let r = [0, 0, width, height];
        assert(r@ =~= seq![0, 0, width, height]);
        return r;
    }
    let x0 = if lo_x - PAD < 0 {
        0
    } else {
        lo_x - PAD
    };
    let y0 = if lo_y - PAD < 0 {
        0
    } else {
        lo_y - PAD
    };
    let x1 = if hi_x + PAD > width {
        width
    } else {
        hi_x + PAD
    };
    let y1 = if hi_y + PAD > height {
        height
    } else {
        hi_y + PAD
    };
    let w = x1 - x0;
    let h = y1 - y0;
    let r = [x0, y0, w, h];
    assert(r@ =~= seq![x0, y0, w, h]);
    r
}

/// The box never leaves the framebuffer, never has a negative size, and covers the whole
/// footprint it was made for.
pub proof fn lemma_the_box_is_clamped_and_covers_the_quad(
    lo_x: int,
    lo_y: int,
    hi_x: int,
    hi_y: int,
    width: int,
    height: int,
)
    requires
        0 <= lo_x <= hi_x <= width,
        0 <= lo_y <= hi_y <= height,
    ensures
        ({
            let (x, y, w, h) = padded_box(lo_x, lo_y, hi_x, hi_y, width, height);
            &&& 0 <= x && 0 <= y && 0 <= w && 0 <= h
            &&& x + w <= width && y + h <= height
            &&& x <= lo_x && hi_x <= x + w
            &&& y <= lo_y && hi_y <= y + h
        }),
{
}

} // verus!
