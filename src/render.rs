//! Software rendering of the selection overlay into a window's RGBA frame.
use vstd::prelude::*;
use crate::geometry::{local_rect, virtual_to_window_coords};
use crate::raster::{
    block_copied, copy_block, copy_scaled, fill_pixels, filled, paint_rect, painted, scaled_copied, PaintArea, RowBlock,
    ScaledSource,
};

verus! {

/// Where a window's frame sits and how large it is, in physical pixels.
#[derive(Debug, Clone, Copy)]
pub struct RenderContext {
    pub width: u32,
    pub height: u32,
    pub virtual_x: i32,
    pub virtual_y: i32,
    pub virtual_bounds: Option<(i32, i32, u32, u32)>,
}

/// A background image: RGBA bytes, `width` x `height` pixels.
pub struct Background<'a> {
    pub data: &'a [u8],
    pub width: u32,
    pub height: u32,
}

/// Colour of the selection border: opaque white.
pub const BORDER_COLOR: [u8; 4] = [255, 255, 255, 255];

/// The painted area of a selection border in a window: the selection in window
/// coordinates, cut to the window, with its far edges where they were before.
pub open spec fn border_area(ctx: RenderContext, selection: (i64, i64, i64, i64)) -> PaintArea {
    let l = local_rect(
        ctx.virtual_x as int,
        ctx.virtual_y as int,
        ctx.virtual_bounds.is_some(),
        (selection.0 as int, selection.1 as int, selection.2 as int, selection.3 as int),
    );
    PaintArea {
        x0: l.0,
        x1: if l.2 < ctx.width { l.2 } else { ctx.width as int },
        y0: l.1,
        y1: if l.3 < ctx.height { l.3 } else { ctx.height as int },
        ex: l.2,
        ey: l.3,
        border: true,
    }
}

/// The window's offset from the virtual desktop's origin.
pub open spec fn window_offset(ctx: RenderContext) -> (int, int) {
    let vb = ctx.virtual_bounds.unwrap();
    (ctx.virtual_x - vb.0, ctx.virtual_y - vb.1)
}

/// The rows of the virtual background that a window shows: every frame row,
/// from source column `max(offset, 0)`, as many pixels as both rows hold.
pub open spec fn virtual_background_block(ctx: RenderContext, bg_width: u32, bg_height: u32) -> RowBlock {
    let (wx, wy) = window_offset(ctx);
    let off = if wx < 0 { 0 } else { wx };
    let avail = if bg_width > off { bg_width - off } else { 0 };
    RowBlock {
        width: ctx.width as int,
        src_width: bg_width as int,
        src_height: bg_height as int,
        y0: 0,
        y1: ctx.height as int,
        fc0: 0,
        n: if avail < ctx.width { avail } else { ctx.width as int },
        sc0: off,
        dy: wy,
    }
}

/// The background stretched over the whole frame.
pub open spec fn scaled_source(ctx: RenderContext, bg_width: u32, bg_height: u32) -> ScaledSource {
    ScaledSource {
        frame_width: ctx.width as int,
        frame_height: ctx.height as int,
        width: bg_width as int,
        height: bg_height as int,
    }
}

/// The selection in window coordinates, cut to the window.
pub open spec fn selection_area(ctx: RenderContext, selection: (i64, i64, i64, i64)) -> PaintArea {
    let b = border_area(ctx, selection);
    PaintArea { x0: b.x0, x1: b.x1, y0: b.y0, y1: b.y1, ex: b.x1, ey: b.y1, border: false }
}

/// The rows of the original background that show through a selection in a
/// virtual-desktop window.
pub open spec fn selection_block(ctx: RenderContext, bg_width: u32, bg_height: u32, selection: (i64, i64, i64, i64)) -> RowBlock {
    let (wx, wy) = window_offset(ctx);
    let a = selection_area(ctx, selection);
    RowBlock {
        width: ctx.width as int,
        src_width: bg_width as int,
        src_height: bg_height as int,
        y0: a.y0,
        y1: a.y1,
        fc0: a.x0,
        n: a.x1 - a.x0,
        sc0: wx + a.x0,
        dy: wy,
    }
}

/// The selection in window coordinates.
pub open spec fn window_selection(ctx: RenderContext, selection: (i64, i64, i64, i64)) -> (int, int, int, int) {
    local_rect(
        ctx.virtual_x as int,
        ctx.virtual_y as int,
        ctx.virtual_bounds.is_some(),
        (selection.0 as int, selection.1 as int, selection.2 as int, selection.3 as int),
    )
}

/// The frame after drawing the selection border.
pub open spec fn border_result(old: Seq<u8>, ctx: RenderContext, selection: (i64, i64, i64, i64)) -> Seq<u8> {
    let l = window_selection(ctx, selection);
    if l.2 <= l.0 || l.3 <= l.1 {
        old
    } else {
        painted(old, ctx.width as int, border_area(ctx, selection), BORDER_COLOR@)
    }
}

/// The frame after drawing a `width` x `height` background under the window:
/// copied row by row in a virtual desktop, stretched otherwise.
pub open spec fn virtual_background_result(old: Seq<u8>, ctx: RenderContext, data: Seq<u8>, width: u32, height: u32) -> Seq<u8> {
    if ctx.virtual_bounds.is_some() {
        block_copied(old, data, virtual_background_block(ctx, width, height))
    } else if width > 0 && height > 0 {
        scaled_copied(
            old,
            data,
            scaled_source(ctx, width, height),
            PaintArea { x0: 0, x1: ctx.width as int, y0: 0, y1: ctx.height as int, ex: ctx.width as int, ey: ctx.height as int, border: false },
        )
    } else {
        old
    }
}

/// The frame after restoring a `width` x `height` background inside the selection.
pub open spec fn selection_background_result(
    old: Seq<u8>,
    ctx: RenderContext,
    data: Seq<u8>,
    width: u32,
    height: u32,
    selection: (i64, i64, i64, i64),
) -> Seq<u8> {
    let a = selection_area(ctx, selection);
    let l = window_selection(ctx, selection);
    if l.2 <= l.0 || l.3 <= l.1 || a.x1 <= a.x0 {
        old
    } else if ctx.virtual_bounds.is_some() {
        block_copied(old, data, selection_block(ctx, width, height, selection))
    } else if width > 0 && height > 0 {
        scaled_copied(old, data, scaled_source(ctx, width, height), a)
    } else {
        old
    }
}

/// A background image as the frame composition reads it.
pub open spec fn background_view(b: Option<&Background>) -> Option<(Seq<u8>, u32, u32)> {
    match b {
        Some(bg) => Some((bg.data@, bg.width, bg.height)),
        None => None,
    }
}

/// One whole overlay frame: the overlay colour, then the dimmed backdrop if
/// there is one, then, when the window draws the selection, the original
/// background inside it (if there is one) and its border.
pub open spec fn frame_result(
    old: Seq<u8>,
    ctx: RenderContext,
    color: Seq<u8>,
    tinted: Option<(Seq<u8>, u32, u32)>,
    original: Option<(Seq<u8>, u32, u32)>,
    selection: (i64, i64, i64, i64),
    draw_selection: bool,
) -> Seq<u8> {
    let f1 = filled(old, color);
    let f2 = match tinted {
        Some(t) => virtual_background_result(f1, ctx, t.0, t.1, t.2),
        None => f1,
    };
    if draw_selection {
        let f3 = match original {
            Some(o) => selection_background_result(f2, ctx, o.0, o.1, o.2, selection),
            None => f2,
        };
        border_result(f3, ctx, selection)
    } else {
        f2
    }
}

/// Draws the selection overlay pieces.
pub struct SelectionRenderer;

impl SelectionRenderer {
    /// Draws a whole overlay frame for the window (see `frame_result`).
    pub fn render_frame(
        ctx: &RenderContext,
        frame: &mut Vec<u8>,
        overlay_color: [u8; 4],
        tinted: Option<&Background>,
        original: Option<&Background>,
        selection: (i64, i64, i64, i64),
        draw_selection: bool,
    )
        ensures
            final(frame)@ == frame_result(
                old(frame)@,
                *ctx,
                overlay_color@,
                background_view(tinted),
                background_view(original),
                selection,
                draw_selection,
            ),
    {
        fill_pixels(frame, overlay_color);
        match tinted {
            Some(bg) => Self::render_virtual_background(ctx, frame, bg),
            None => {},
        }
        if draw_selection {
            match original {
                Some(bg) => Self::render_selection_background(ctx, frame, bg, selection),
                None => {},
            }
            Self::render_selection_border(ctx, frame, selection);
        }
    }

    /// Fills every whole pixel of the frame with one colour.
    pub fn render_solid_background(frame: &mut Vec<u8>, r: u8, g: u8, b: u8, a: u8)
        ensures
            final(frame)@ == filled(old(frame)@, seq![r, g, b, a]),
    {
        let color: [u8; 4] = [r, g, b, a];
        fill_pixels(frame, color);
        assert(color@ =~= seq![r, g, b, a]);
    }

    /// Draws the one-pixel white border of the selection `(x0, y0, x1, y1)` into
    /// the window's frame; a selection empty in window coordinates draws nothing.
    pub fn render_selection_border(ctx: &RenderContext, frame: &mut Vec<u8>, selection: (i64, i64, i64, i64))
        ensures
            final(frame)@ == border_result(old(frame)@, *ctx, selection),
    {
        let (lx0, ly0, lx1, ly1) = virtual_to_window_coords(
            ctx.virtual_x,
            ctx.virtual_y,
            ctx.virtual_bounds,
            selection.0,
            selection.1,
            selection.2,
            selection.3,
        );
        if lx1 <= lx0 || ly1 <= ly0 {
            return;
        }
        let x1 = if lx1 < ctx.width as u64 {
            lx1
        } else {
            ctx.width as u64
        };
        let y1 = if ly1 < ctx.height as u64 {
            ly1
        } else {
            ctx.height as u64
        };
        paint_rect(frame, ctx.width as u64, lx0, x1, ly0, y1, lx1, ly1, true, BORDER_COLOR);
    }

    /// Draws the part of the virtual-desktop background under the window, row
    /// by row; without a virtual desktop the background is stretched instead.
    pub fn render_virtual_background(ctx: &RenderContext, frame: &mut Vec<u8>, bg: &Background)
        ensures
            final(frame)@ == virtual_background_result(old(frame)@, *ctx, bg.data@, bg.width, bg.height),
    {
        match ctx.virtual_bounds {
            Some((virt_min_x, virt_min_y, _, _)) => {
                let wx: i64 = ctx.virtual_x as i64 - virt_min_x as i64;
                let wy: i64 = ctx.virtual_y as i64 - virt_min_y as i64;
                let off: i64 = if wx < 0 {
                    0
                } else {
                    wx
                };
                let avail: i64 = if bg.width as i64 > off {
                    bg.width as i64 - off
                } else {
                    0
                };
                let n: u32 = if avail < ctx.width as i64 {
                    avail as u32
                } else {
                    ctx.width
                };
                copy_block(frame, ctx.width, bg.data, bg.width, bg.height, 0, ctx.height, 0, n, off, wy);
            },
            None => Self::render_scaled_background(ctx, frame, bg),
        }
    }

    /// Stretches the background over the whole frame (nearest pixel).
    pub fn render_scaled_background(ctx: &RenderContext, frame: &mut Vec<u8>, bg: &Background)
        ensures
            bg.width > 0 && bg.height > 0 ==> final(frame)@ == scaled_copied(
                old(frame)@,
                bg.data@,
                scaled_source(*ctx, bg.width, bg.height),
                PaintArea { x0: 0, x1: ctx.width as int, y0: 0, y1: ctx.height as int, ex: ctx.width as int, ey: ctx.height as int, border: false },
            ),
            bg.width == 0 || bg.height == 0 ==> final(frame)@ == old(frame)@,
    {
        if bg.width == 0 || bg.height == 0 {
            return;
        }
        copy_scaled(frame, ctx.width, ctx.height, bg.data, bg.width, bg.height, 0, ctx.width as u64, 0, ctx.height as u64);
    }

    /// Restores the original (undimmed) background inside the selection
    /// `(x0, y0, x1, y1)`: copied row by row in a virtual desktop, stretched
    /// otherwise; a selection empty in window coordinates changes nothing.
    pub fn render_selection_background(
        ctx: &RenderContext,
        frame: &mut Vec<u8>,
        original_bg: &Background,
        selection: (i64, i64, i64, i64),
    )
        ensures
            final(frame)@ == selection_background_result(
                old(frame)@,
                *ctx,
                original_bg.data@,
                original_bg.width,
                original_bg.height,
                selection,
            ),
    {
        let (lx0, ly0, lx1, ly1) = virtual_to_window_coords(
            ctx.virtual_x,
            ctx.virtual_y,
            ctx.virtual_bounds,
            selection.0,
            selection.1,
            selection.2,
            selection.3,
        );
        if lx1 <= lx0 || ly1 <= ly0 {
            return;
        }
        let x1 = if lx1 < ctx.width as u64 {
            lx1
        } else {
            ctx.width as u64
        };
        let y1 = if ly1 < ctx.height as u64 {
            ly1
        } else {
            ctx.height as u64
        };
        if x1 <= lx0 {
            return;
        }
        match ctx.virtual_bounds {
            Some((virt_min_x, virt_min_y, _, _)) => {
                let wx: i64 = ctx.virtual_x as i64 - virt_min_x as i64;
                let wy: i64 = ctx.virtual_y as i64 - virt_min_y as i64;
                let y0: u32 = if ly0 < y1 {
                    ly0 as u32
                } else {
                    y1 as u32
                };
                proof {
                    let b = selection_block(*ctx, original_bg.width, original_bg.height, selection);
                    let c = RowBlock {
                        width: ctx.width as int,
                        src_width: original_bg.width as int,
                        src_height: original_bg.height as int,
                        y0: y0 as int,
                        y1: y1 as int,
                        fc0: lx0 as int,
                        n: x1 - lx0,
                        sc0: wx + lx0,
                        dy: wy as int,
                    };
                    assert forall|k: int| 0 <= k < frame@.len() implies #[trigger] block_copied(frame@, original_bg.data@, b)[k]
                        == block_copied(frame@, original_bg.data@, c)[k] by {
                    }
                    assert(block_copied(frame@, original_bg.data@, b) =~= block_copied(frame@, original_bg.data@, c));
                }
                copy_block(
                    frame,
                    ctx.width,
                    original_bg.data,
                    original_bg.width,
                    original_bg.height,
                    y0,
                    y1 as u32,
                    lx0 as u32,
                    (x1 - lx0) as u32,
                    wx + lx0 as i64,
                    wy,
                );
            },
            None => {
                if original_bg.width == 0 || original_bg.height == 0 {
                    return;
                }
                copy_scaled(frame, ctx.width, ctx.height, original_bg.data, original_bg.width, original_bg.height, lx0, x1, ly0, y1);
            },
        }
    }
}

} // verus!
