//! A plain RGBA image that annotations are drawn into.
use vstd::prelude::*;
use crate::raster::{fill_pixels, filled, paint_rect, painted, PaintArea};

verus! {

/// An RGBA image, four bytes per pixel, row by row.
pub struct Image {
    pub width: u32,
    pub height: u32,
    pub pixels: Vec<u8>,
}

/// The columns (or rows) `[lo, hi)` that a span starting at `start` of extent
/// `extent` covers inside `[0, limit)`.
pub open spec fn clipped_span(start: int, extent: int, limit: int) -> (int, int) {
    let lo = if start < 0 { 0 } else { start };
    let end = if start + extent < limit { start + extent } else { limit };
    (lo, if end < 0 { 0 } else { end })
}

fn clip_span(start: i32, extent: i32, limit: u32) -> (r: (u64, u64))
    ensures
        (r.0 as int, r.1 as int) == clipped_span(start as int, extent as int, limit as int),
        r.1 <= limit,
{
    let lo: u64 = if start < 0 {
        0
    } else {
        start as u64
    };
    let sum: i64 = start as i64 + extent as i64;
    let end: i64 = if sum < limit as i64 {
        sum
    } else {
        limit as i64
    };
    (lo, if end < 0 {
        0
    } else {
        end as u64
    })
}

impl Image {
    /// A transparent black image of `width` x `height` pixels.
    pub fn new(width: u32, height: u32) -> (r: Image)
        requires
            width * height * 4 <= u32::MAX,
        ensures
            r.width == width,
            r.height == height,
            r.pixels@ == Seq::new((width * height * 4) as nat, |i: int| 0u8),
    {
        assert(0 <= width * height <= width * height * 4) by (nonlinear_arith);
        let n: usize = (width as usize) * (height as usize) * 4;
        let pixels = vec![0u8; n];
        assert(pixels@ =~= Seq::new((width * height * 4) as nat, |i: int| 0u8));
        Image { width, height, pixels }
    }

    /// Sets every pixel to the colour.
    pub fn fill_rgba(&mut self, r: u8, g: u8, b: u8, a: u8)
        ensures
            final(self).width == old(self).width,
            final(self).height == old(self).height,
            final(self).pixels@ == filled(old(self).pixels@, seq![r, g, b, a]),
    {
        let color: [u8; 4] = [r, g, b, a];
        fill_pixels(&mut self.pixels, color);
        assert(color@ =~= seq![r, g, b, a]);
    }

    /// Sets the pixels of the rectangle at `(x, y)` of size `w` x `h` that lie in
    /// the image to the colour.
    pub fn fill_rect(&mut self, x: i32, y: i32, w: i32, h: i32, r: u8, g: u8, b: u8, a: u8)
        ensures
            final(self).width == old(self).width,
            final(self).height == old(self).height,
            ({
                let xs = clipped_span(x as int, w as int, old(self).width as int);
                let ys = clipped_span(y as int, h as int, old(self).height as int);
                final(self).pixels@ == painted(
                    old(self).pixels@,
                    old(self).width as int,
                    PaintArea { x0: xs.0, x1: xs.1, y0: ys.0, y1: ys.1, ex: xs.1, ey: ys.1, border: false },
                    seq![r, g, b, a],
                )
            }),
    {
        let (x0, x1) = clip_span(x, w, self.width);
        let (y0, y1) = clip_span(y, h, self.height);
        let color: [u8; 4] = [r, g, b, a];
        paint_rect(&mut self.pixels, self.width as u64, x0, x1, y0, y1, x1, y1, false, color);
        assert(color@ =~= seq![r, g, b, a]);
    }
}

} // verus!
