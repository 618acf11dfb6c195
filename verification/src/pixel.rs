//! Pixel-format conversion to the fixed RGBA display layout.
//!
//! The scaler hands back packed RGB rows whose stride need not equal
//! `width * 3`; the copy therefore walks row by row using the reported
//! stride, expands each RGB triple to an RGBA quad with the alpha forced
//! fully opaque, and bounds-checks every pixel against the source buffer:
//! a malformed stride/size combination drops pixels (leaving them
//! transparent black) instead of reading out of bounds.

use vstd::prelude::*;

verus! {

/// One ready-to-display frame: RGBA bytes at source resolution,
/// produced once per decode call and handed straight to the
/// presentation layer.
pub struct VideoFrame {
    pub width: usize,
    pub height: usize,
    pub buffer: Vec<u8>,
}

/// What the RGBA output holds for the pixel at row `y`, column `x`: the
/// source triple at stride offset with opaque alpha when the source
/// covers it, transparent black when the source is too short there.
pub open spec fn spec_rgba_pixel_ok(
    src: Seq<u8>,
    dst: Seq<u8>,
    line_size: int,
    width: int,
    y: int,
    x: int,
) -> bool {
    let s = y * line_size + 3 * x;
    let d = 4 * (y * width + x);
    if s + 2 < src.len() {
        &&& dst[d] == src[s]
        &&& dst[d + 1] == src[s + 1]
        &&& dst[d + 2] == src[s + 2]
        &&& dst[d + 3] == 255
    } else {
        &&& dst[d] == 0
        &&& dst[d + 1] == 0
        &&& dst[d + 2] == 0
        &&& dst[d + 3] == 0
    }
}

/// Row-major pixel order: an earlier pixel's flat index is smaller.
proof fn lemma_pixel_order(w: int, y1: int, x1: int, y2: int, x2: int)
    requires
        0 <= y1,
        0 <= x1 < w,
        0 <= x2,
        (y1 < y2) || (y1 == y2 && x1 < x2),
    ensures
        y1 * w + x1 < y2 * w + x2,
{
    if y1 < y2 {
        assert(y1 * w + w <= y2 * w) by (nonlinear_arith)
            requires
                y1 < y2,
                w > 0,
        ;
    }
}

/// Expands packed RGB rows of stride `line_size` into a `width * height`
/// RGBA buffer with opaque alpha, dropping any pixel the source does not
/// cover.
pub fn convert_rgb_to_rgba(src: &Vec<u8>, line_size: usize, width: usize, height: usize) -> (dst:
    Vec<u8>)
    requires
        height * line_size + 3 * width <= usize::MAX,
        4 * (height * width) <= usize::MAX,
    ensures
        dst@.len() == 4 * (height * width),
        forall|y: int, x: int|
            0 <= y < height && 0 <= x < width ==> #[trigger] spec_rgba_pixel_ok(
                src@,
                dst@,
                line_size as int,
                width as int,
                y,
                x,
            ),
{
    let mut dst: Vec<u8> = Vec::new();
    let mut y: usize = 0;
    while y < height
        invariant
            y <= height,
            height * line_size + 3 * width <= usize::MAX,
            4 * (height * width) <= usize::MAX,
            dst@.len() == 4 * (y * width),
            forall|yy: int, xx: int|
                0 <= yy < y && 0 <= xx < width ==> #[trigger] spec_rgba_pixel_ok(
                    src@,
                    dst@,
                    line_size as int,
                    width as int,
                    yy,
                    xx,
                ),
        decreases height - y,
    {
        let mut x: usize = 0;
        proof {
            assert(y * width + width <= height * width) by (nonlinear_arith)
                requires
                    y < height,
                    width >= 0,
            ;
        }
        while x < width
            invariant
                x <= width,
                y < height,
                height * line_size + 3 * width <= usize::MAX,
                4 * (height * width) <= usize::MAX,
                y * width + width <= height * width,
                dst@.len() == 4 * (y * width + x),
                forall|yy: int, xx: int|
                    0 <= yy < y && 0 <= xx < width ==> #[trigger] spec_rgba_pixel_ok(
                        src@,
                        dst@,
                        line_size as int,
                        width as int,
                        yy,
                        xx,
                    ),
                forall|xx: int|
                    0 <= xx < x ==> #[trigger] spec_rgba_pixel_ok(
                        src@,
                        dst@,
                        line_size as int,
                        width as int,
                        y as int,
                        xx,
                    ),
            decreases width - x,
        {
            proof {
                assert(y * line_size <= height * line_size - line_size) by (nonlinear_arith)
                    requires
                        y < height,
                        line_size >= 0,
                ;
            }
            let s: usize = y * line_size + 3 * x;
            let ghost pre = dst@;
            if s + 2 < src.len() {
                let r: u8 = src[s];
                let g: u8 = src[s + 1];
                let b: u8 = src[s + 2];
                dst.push(r);
                dst.push(g);
                dst.push(b);
                dst.push(255);
            } else {
                dst.push(0);
                dst.push(0);
                dst.push(0);
                dst.push(0);
            }
            proof {
                assert(spec_rgba_pixel_ok(
                    src@,
                    dst@,
                    line_size as int,
                    width as int,
                    y as int,
                    x as int,
                ));
                assert forall|yy: int, xx: int|
                    0 <= yy < y && 0 <= xx < width implies #[trigger] spec_rgba_pixel_ok(
                    src@,
                    dst@,
                    line_size as int,
                    width as int,
                    yy,
                    xx,
                ) by {
                    lemma_pixel_order(width as int, yy, xx, y as int, x as int);
                    assert(spec_rgba_pixel_ok(src@, pre, line_size as int, width as int, yy, xx));
                }
                assert forall|xx: int| 0 <= xx < x implies #[trigger] spec_rgba_pixel_ok(
                    src@,
                    dst@,
                    line_size as int,
                    width as int,
                    y as int,
                    xx,
                ) by {
                    lemma_pixel_order(width as int, y as int, xx, y as int, x as int);
                    assert(spec_rgba_pixel_ok(
                        src@,
                        pre,
                        line_size as int,
                        width as int,
                        y as int,
                        xx,
                    ));
                }
            }
            x = x + 1;
        }
        proof {
            assert(4 * (y * width + width) == 4 * ((y + 1) * width)) by (nonlinear_arith);
        }
        y = y + 1;
    }
    dst
}

/// Builds the display frame for one decoded image: the scaler's packed
/// RGB bytes and reported stride, expanded to RGBA at the given
/// resolution.
pub fn convert_frame(data: &Vec<u8>, line_size: usize, width: usize, height: usize) -> (frame:
    VideoFrame)
    requires
        height * line_size + 3 * width <= usize::MAX,
        4 * (height * width) <= usize::MAX,
    ensures
        frame.width == width,
        frame.height == height,
        frame.buffer@.len() == 4 * (height * width),
        forall|y: int, x: int|
            0 <= y < height && 0 <= x < width ==> #[trigger] spec_rgba_pixel_ok(
                data@,
                frame.buffer@,
                line_size as int,
                width as int,
                y,
                x,
            ),
{
    VideoFrame { width, height, buffer: convert_rgb_to_rgba(data, line_size, width, height) }
}

} // verus!
