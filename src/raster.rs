//! Painting axis-aligned pixel rectangles into RGBA byte buffers.
use vstd::prelude::*;
use vstd::arithmetic::div_mod::{lemma_fundamental_div_mod, lemma_fundamental_div_mod_converse};

verus! {

/// The area painted: pixels `[x0, x1) x [y0, y1)`; when only a border is painted,
/// those on the first row or column or on column `ex - 1` or row `ey - 1` (the
/// far edges of the rectangle before it was cut to the buffer).
pub struct PaintArea {
    pub x0: int,
    pub x1: int,
    pub y0: int,
    pub y1: int,
    pub ex: int,
    pub ey: int,
    pub border: bool,
}

/// Pixel `p` of a buffer with `stride` pixels per row lies in the area.
pub open spec fn in_paint_area(p: int, stride: int, a: PaintArea) -> bool {
    let px = p % stride;
    let py = p / stride;
    &&& a.x0 <= px < a.x1
    &&& a.y0 <= py < a.y1
    &&& (!a.border || py == a.y0 || py == a.ey - 1 || px == a.x0 || px == a.ex - 1)
}

/// The first `len / 4` pixels are whole; a trailing partial pixel is never painted.
pub open spec fn whole_pixel_byte(len: int, k: int) -> bool {
    k < (len / 4) * 4
}

/// The buffer after painting the rectangle (or its border) with `color`: every
/// byte of a whole pixel inside takes the colour's channel, the rest are kept.
pub open spec fn painted(old: Seq<u8>, stride: int, a: PaintArea, color: Seq<u8>) -> Seq<u8> {
    Seq::new(
        old.len(),
        |k: int|
            if whole_pixel_byte(old.len() as int, k) && in_paint_area(k / 4, stride, a) {
                color[k % 4]
            } else {
                old[k]
            },
    )
}

/// The buffer with every whole pixel set to `color`.
pub open spec fn filled(old: Seq<u8>, color: Seq<u8>) -> Seq<u8> {
    Seq::new(old.len(), |k: int| if whole_pixel_byte(old.len() as int, k) { color[k % 4] } else { old[k] })
}

proof fn lemma_pixel_index(stride: int, x: int, y: int)
    requires
        0 <= x < stride,
        0 <= y,
    ensures
        (y * stride + x) / stride == y,
        (y * stride + x) % stride == x,
{
    lemma_fundamental_div_mod_converse(y * stride + x, stride, y, x);
}

proof fn lemma_pixel_unique(stride: int, p: int, x: int, y: int)
    requires
        stride > 0,
        p / stride == y,
        p % stride == x,
    ensures
        p == y * stride + x,
{
    lemma_fundamental_div_mod(p, stride);
}

proof fn lemma_byte_pixel(p: int, c: int)
    requires
        0 <= c < 4,
        p >= 0,
    ensures
        (4 * p + c) / 4 == p,
        (4 * p + c) % 4 == c,
{
    lemma_fundamental_div_mod_converse(4 * p + c, 4, p, c);
}

/// Sets the four bytes of whole pixel `p` to `color`.
pub fn set_pixel(buf: &mut Vec<u8>, p: usize, color: [u8; 4])
    requires
        4 * p + 3 < old(buf)@.len(),
    ensures
        final(buf)@.len() == old(buf)@.len(),
        forall|k: int| 0 <= k < old(buf)@.len() ==> #[trigger] final(buf)@[k] == if k / 4 == p {
            color@[k % 4]
        } else {
            old(buf)@[k]
        },
{
    let n = buf.len();
    assert(4 * p + 3 < n);
    let i = 4 * p;
    buf.set(i, color[0]);
    buf.set(i + 1, color[1]);
    buf.set(i + 2, color[2]);
    buf.set(i + 3, color[3]);
    proof {
        assert forall|k: int| 0 <= k < old(buf)@.len() implies #[trigger] buf@[k] == if k / 4 == p {
            color@[k % 4]
        } else {
            old(buf)@[k]
        } by {
            lemma_fundamental_div_mod(k, 4);
            lemma_byte_pixel(p as int, 0);
            lemma_byte_pixel(p as int, 1);
            lemma_byte_pixel(p as int, 2);
            lemma_byte_pixel(p as int, 3);
        }
    }
}

/// Paints the area `[x0, x1) x [y0, y1)` (or only its border, whose far edges
/// are column `ex - 1` and row `ey - 1`) of a buffer with `stride` pixels per
/// row; pixels beyond the buffer are skipped.
#[verifier::rlimit(50)]
pub fn paint_rect(
    buf: &mut Vec<u8>,
    stride: u64,
    x0: u64,
    x1: u64,
    y0: u64,
    y1: u64,
    ex: u64,
    ey: u64,
    border: bool,
    color: [u8; 4],
)
    requires
        x1 <= stride <= u32::MAX,
        y1 <= u32::MAX,
    ensures
        final(buf)@ == painted(
            old(buf)@,
            stride as int,
            PaintArea { x0: x0 as int, x1: x1 as int, y0: y0 as int, y1: y1 as int, ex: ex as int, ey: ey as int, border },
            color@,
        ),
{
    let ghost area = PaintArea {
        x0: x0 as int,
        x1: x1 as int,
        y0: y0 as int,
        y1: y1 as int,
        ex: ex as int,
        ey: ey as int,
        border,
    };
    let len = buf.len();
    let ghost old_buf = buf@;
    let ghost s = stride as int;
    let mut y = y0;
    while y < y1
        invariant
            y0 <= y <= y1 || (y == y0 && y0 >= y1),
            x1 <= stride <= u32::MAX,
            y1 <= u32::MAX,
            s == stride as int,
            area == (PaintArea { x0: x0 as int, x1: x1 as int, y0: y0 as int, y1: y1 as int, ex: ex as int, ey: ey as int, border }),
            len == buf@.len(),
            len == old_buf.len(),
            forall|k: int| 0 <= k < len ==> #[trigger] buf@[k] == if whole_pixel_byte(len as int, k)
                && in_paint_area(k / 4, s, area)
                && (k / 4) / s < y {
                color@[k % 4]
            } else {
                old_buf[k]
            },
        decreases y1 - y,
    {
        let mut x = x0;
        while x < x1
            invariant
                y0 <= y < y1,
                x0 <= x <= x1 || (x == x0 && x0 >= x1),
                x1 <= stride <= u32::MAX,
                y1 <= u32::MAX,
                s == stride as int,
                area == (PaintArea { x0: x0 as int, x1: x1 as int, y0: y0 as int, y1: y1 as int, ex: ex as int, ey: ey as int, border }),
                len == buf@.len(),
                len == old_buf.len(),
                forall|k: int| 0 <= k < len ==> #[trigger] buf@[k] == if whole_pixel_byte(len as int, k)
                    && in_paint_area(k / 4, s, area)
                    && ((k / 4) / s < y || ((k / 4) / s == y && (k / 4) % s < x)) {
                    color@[k % 4]
                } else {
                    old_buf[k]
                },
            decreases x1 - x,
        {
            let on_edge = !border || y == y0 || y as u128 + 1 == ey as u128 || x == x0 || x as u128 + 1 == ex as u128;
            assert(y as int * stride as int <= 0xffff_ffff * 0xffff_ffff) by (nonlinear_arith)
                requires
                    y <= 0xffff_ffff,
                    stride <= 0xffff_ffff,
            ;
            let p: u128 = y as u128 * stride as u128 + x as u128;
            proof {
                lemma_pixel_index(s, x as int, y as int);
            }
            if on_edge && 4 * p + 3 < len as u128 {
                let ghost before = buf@;
                set_pixel(buf, p as usize, color);
                proof {
                    assert forall|k: int| 0 <= k < len implies #[trigger] buf@[k] == if whole_pixel_byte(len as int, k)
                        && in_paint_area(k / 4, s, area)
                        && ((k / 4) / s < y || ((k / 4) / s == y && (k / 4) % s < x + 1)) {
                        color@[k % 4]
                    } else {
                        old_buf[k]
                    } by {
                        lemma_fundamental_div_mod(k, 4);
                        if k / 4 == p as int {
                            assert(4 * (p as int) + 3 < len);
                            assert(whole_pixel_byte(len as int, k));
                        } else if (k / 4) / s == y as int && (k / 4) % s == x as int {
                            lemma_pixel_unique(s, k / 4, x as int, y as int);
                        }
                    }
                }
            } else {
                proof {
                    assert forall|k: int| 0 <= k < len implies #[trigger] buf@[k] == if whole_pixel_byte(len as int, k)
                        && in_paint_area(k / 4, s, area)
                        && ((k / 4) / s < y || ((k / 4) / s == y && (k / 4) % s < x + 1)) {
                        color@[k % 4]
                    } else {
                        old_buf[k]
                    } by {
                        lemma_fundamental_div_mod(k, 4);
                        if (k / 4) / s == y as int && (k / 4) % s == x as int {
                            lemma_pixel_unique(s, k / 4, x as int, y as int);
                            if on_edge {
                                assert(!whole_pixel_byte(len as int, k));
                            }
                        }
                    }
                }
            }
            x = x + 1;
        }
        proof {
            assert forall|k: int| 0 <= k < len implies #[trigger] buf@[k] == if whole_pixel_byte(len as int, k)
                && in_paint_area(k / 4, s, area)
                && (k / 4) / s < y + 1 {
                color@[k % 4]
            } else {
                old_buf[k]
            } by {
            }
        }
        y = y + 1;
    }
    proof {
        assert(buf@ =~= painted(old_buf, s, area, color@));
    }
}

/// Sets every whole pixel of the buffer to `color`.
pub fn fill_pixels(buf: &mut Vec<u8>, color: [u8; 4])
    ensures
        final(buf)@ == filled(old(buf)@, color@),
{
    let ghost old_buf = buf@;
    let n = buf.len() / 4;
    let mut p: usize = 0;
    while p < n
        invariant
            0 <= p <= n,
            n == old_buf.len() / 4,
            buf@.len() == old_buf.len(),
            forall|k: int| 0 <= k < old_buf.len() ==> #[trigger] buf@[k] == if k / 4 < p {
                color@[k % 4]
            } else {
                old_buf[k]
            },
        decreases n - p,
    {
        set_pixel(buf, p, color);
        p = p + 1;
    }
    proof {
        assert forall|k: int| 0 <= k < old_buf.len() implies (k / 4 < n <==> #[trigger] whole_pixel_byte(
            old_buf.len() as int,
            k,
        )) by {
            lemma_fundamental_div_mod(k, 4);
            lemma_fundamental_div_mod(old_buf.len() as int, 4);
        }
        assert(buf@ =~= filled(old_buf, color@));
    }
}


/// A block of rows copied from a source image into a frame: frame rows
/// `[y0, y1)` take, at columns `[fc0, fc0 + n)`, the source columns
/// `[sc0, sc0 + n)` of source row `y + dy`.
pub struct RowBlock {
    pub width: int,
    pub src_width: int,
    pub src_height: int,
    pub y0: int,
    pub y1: int,
    pub fc0: int,
    pub n: int,
    pub sc0: int,
    pub dy: int,
}

/// Frame row `y` of the block is copied: its source row exists, and both byte
/// ranges lie inside their buffers.
pub open spec fn row_copied(b: RowBlock, frame_len: int, src_len: int, y: int) -> bool {
    let sy = y + b.dy;
    &&& b.y0 <= y < b.y1
    &&& 0 <= sy < b.src_height
    &&& 0 <= b.sc0
    &&& b.sc0 + b.n <= b.src_width
    &&& sy * b.src_width * 4 + b.sc0 * 4 + b.n * 4 <= src_len
    &&& y * b.width * 4 + b.fc0 * 4 + b.n * 4 <= frame_len
}

/// The frame after copying the block: byte `j` of a copied row's span takes the
/// matching source byte; every other byte is kept.
pub open spec fn block_copied(old: Seq<u8>, src: Seq<u8>, b: RowBlock) -> Seq<u8> {
    let s = 4 * b.width;
    Seq::new(
        old.len(),
        |k: int|
            if b.width > 0 && row_copied(b, old.len() as int, src.len() as int, k / s) && 4 * b.fc0 <= k % s < 4
                * (b.fc0 + b.n) {
                src[(k / s + b.dy) * b.src_width * 4 + b.sc0 * 4 + (k % s - 4 * b.fc0)]
            } else {
                old[k]
            },
    )
}

/// Copies a block of rows from `src` (`src_width` x `src_height` RGBA pixels)
/// into a frame `width` pixels wide; rows whose source or destination falls
/// outside the buffers are skipped.
pub fn copy_block(
    frame: &mut Vec<u8>,
    width: u32,
    src: &[u8],
    src_width: u32,
    src_height: u32,
    y0: u32,
    y1: u32,
    fc0: u32,
    n: u32,
    sc0: i64,
    dy: i64,
)
    requires
        fc0 as int + n as int <= width as int,
        -0x100_0000_0000 <= sc0 <= 0x100_0000_0000,
        -0x100_0000_0000 <= dy <= 0x100_0000_0000,
    ensures
        final(frame)@ == block_copied(
            old(frame)@,
            src@,
            RowBlock {
                width: width as int,
                src_width: src_width as int,
                src_height: src_height as int,
                y0: y0 as int,
                y1: y1 as int,
                fc0: fc0 as int,
                n: n as int,
                sc0: sc0 as int,
                dy: dy as int,
            },
        ),
{
    let ghost b = RowBlock {
        width: width as int,
        src_width: src_width as int,
        src_height: src_height as int,
        y0: y0 as int,
        y1: y1 as int,
        fc0: fc0 as int,
        n: n as int,
        sc0: sc0 as int,
        dy: dy as int,
    };
    let ghost old_frame = frame@;
    let ghost s = 4 * (width as int);
    let len = frame.len();
    let slen = src.len();
    if width == 0 {
        assert(frame@ =~= block_copied(old_frame, src@, b));
        return;
    }
    let mut y = y0;
    while y < y1
        invariant
            y0 <= y <= y1 || (y == y0 && y0 >= y1),
            width > 0,
            s == 4 * (width as int),
            fc0 as int + n as int <= width as int,
            -0x100_0000_0000 <= sc0 <= 0x100_0000_0000,
            -0x100_0000_0000 <= dy <= 0x100_0000_0000,
            b == (RowBlock {
                width: width as int,
                src_width: src_width as int,
                src_height: src_height as int,
                y0: y0 as int,
                y1: y1 as int,
                fc0: fc0 as int,
                n: n as int,
                sc0: sc0 as int,
                dy: dy as int,
            }),
            len == frame@.len(),
            len == old_frame.len(),
            slen == src@.len(),
            forall|k: int| 0 <= k < len ==> #[trigger] frame@[k] == if row_copied(b, len as int, slen as int, k / s)
                && k / s < y && 4 * b.fc0 <= k % s < 4 * (b.fc0 + b.n) {
                src@[(k / s + b.dy) * b.src_width * 4 + b.sc0 * 4 + (k % s - 4 * b.fc0)]
            } else {
                old_frame[k]
            },
        decreases y1 - y,
    {
        let sy: i64 = y as i64 + dy;
        assert(0 <= y as int * width as int <= 0xffff_ffff * 0xffff_ffff) by (nonlinear_arith)
            requires
                y <= 0xffff_ffff,
                width <= 0xffff_ffff,
        ;
        let frame_start: u128 = (y as u128 * width as u128 + fc0 as u128) * 4;
        let ok_rows = 0 <= sy && sy < src_height as i64 && 0 <= sc0 && sc0 + n as i64 <= src_width as i64;
        let mut src_start: u128 = 0;
        let mut in_bounds = false;
        if ok_rows {
            assert(0 <= sy as int * src_width as int <= 0xffff_ffff * 0xffff_ffff) by (nonlinear_arith)
                requires
                    0 <= sy <= 0xffff_ffff,
                    src_width <= 0xffff_ffff,
            ;
            src_start = (sy as u128 * src_width as u128 + sc0 as u128) * 4;
            in_bounds = src_start + n as u128 * 4 <= slen as u128 && frame_start + n as u128 * 4 <= len as u128;
        }
        proof {
            assert(row_copied(b, len as int, slen as int, y as int) == (ok_rows && in_bounds));
        }
        if ok_rows && in_bounds {
            let fs = frame_start as usize;
            let ss = src_start as usize;
            let cnt = (n as usize) * 4;
            let mut j: usize = 0;
            while j < cnt
                invariant
                    0 <= j <= cnt,
                    cnt == 4 * n,
                    y0 <= y < y1,
                    width > 0,
                    s == 4 * (width as int),
                    fc0 as int + n as int <= width as int,
                    fs == (y as int * width as int + fc0 as int) * 4,
                    ss == (sy as int * src_width as int + sc0 as int) * 4,
                    sy == y + dy,
                    fs + cnt <= len,
                    ss + cnt <= slen,
                    row_copied(b, len as int, slen as int, y as int),
                    b == (RowBlock {
                        width: width as int,
                        src_width: src_width as int,
                        src_height: src_height as int,
                        y0: y0 as int,
                        y1: y1 as int,
                        fc0: fc0 as int,
                        n: n as int,
                        sc0: sc0 as int,
                        dy: dy as int,
                    }),
                    len == frame@.len(),
                    len == old_frame.len(),
                    slen == src@.len(),
                    forall|k: int| 0 <= k < len ==> #[trigger] frame@[k] == if row_copied(b, len as int, slen as int, k / s)
                        && (k / s < y || (k / s == y && k % s < 4 * b.fc0 + j)) && 4 * b.fc0 <= k % s < 4 * (b.fc0 + b.n) {
                        src@[(k / s + b.dy) * b.src_width * 4 + b.sc0 * 4 + (k % s - 4 * b.fc0)]
                    } else {
                        old_frame[k]
                    },
                decreases cnt - j,
            {
                let v = src[ss + j];
                frame.set(fs + j, v);
                proof {
                    lemma_pixel_index(s, 4 * fc0 as int + j as int, y as int);
                    assert(fs + j == y as int * s + (4 * fc0 as int + j as int)) by (nonlinear_arith)
                        requires
                            fs == (y as int * width as int + fc0 as int) * 4,
                            s == 4 * (width as int),
                    ;
                    assert(ss as int + j as int == (y as int + dy as int) * src_width as int * 4 + sc0 as int * 4 + j as int) by (nonlinear_arith)
                        requires
                            ss == (sy as int * src_width as int + sc0 as int) * 4,
                            sy == y + dy,
                    ;
                    assert forall|k: int| 0 <= k < len implies #[trigger] frame@[k] == if row_copied(b, len as int, slen as int, k / s)
                        && (k / s < y || (k / s == y && k % s < 4 * b.fc0 + j + 1)) && 4 * b.fc0 <= k % s < 4 * (b.fc0 + b.n) {
                        src@[(k / s + b.dy) * b.src_width * 4 + b.sc0 * 4 + (k % s - 4 * b.fc0)]
                    } else {
                        old_frame[k]
                    } by {
                        if k / s == y as int && k % s == 4 * fc0 as int + j as int {
                            lemma_pixel_unique(s, k, 4 * fc0 as int + j as int, y as int);
                        }
                    }
                }
                j = j + 1;
            }
        }
        y = y + 1;
    }
    proof {
        assert(frame@ =~= block_copied(old_frame, src@, b));
    }
}

/// The source image of a nearest-neighbour scaled copy: `width` x `height`
/// pixels stretched over a frame of `frame_width` x `frame_height` pixels.
pub struct ScaledSource {
    pub frame_width: int,
    pub frame_height: int,
    pub width: int,
    pub height: int,
}

/// The source pixel that frame pixel `p` shows: each coordinate scaled by the
/// ratio of the sizes, rounded down and kept inside the source.
pub open spec fn source_pixel(m: ScaledSource, p: int) -> int {
    scaled_index(p / m.frame_width, m.height, m.frame_height) * m.width + scaled_index(
        p % m.frame_width,
        m.width,
        m.frame_width,
    )
}

/// Coordinate `i` of a frame `frame` pixels long mapped onto a source `src`
/// pixels long, rounded down and kept inside the source.
pub open spec fn scaled_index(i: int, src: int, frame: int) -> int {
    let v = i * src / frame;
    if v < src - 1 {
        v
    } else {
        src - 1
    }
}

/// The frame after a scaled copy over the area: each whole pixel inside takes
/// its source pixel when that lies inside the source buffer.
pub open spec fn scaled_copied(old: Seq<u8>, src: Seq<u8>, m: ScaledSource, a: PaintArea) -> Seq<u8> {
    Seq::new(
        old.len(),
        |k: int|
            if whole_pixel_byte(old.len() as int, k) && in_paint_area(k / 4, m.frame_width, a) && 4 * source_pixel(m, k / 4) + 3
                < src.len() {
                src[4 * source_pixel(m, k / 4) + k % 4]
            } else {
                old[k]
            },
    )
}

fn copy_pixel(buf: &mut Vec<u8>, p: usize, src: &[u8], sp: usize)
    requires
        4 * p + 3 < old(buf)@.len(),
        4 * sp + 3 < src@.len(),
    ensures
        final(buf)@.len() == old(buf)@.len(),
        forall|k: int| 0 <= k < old(buf)@.len() ==> #[trigger] final(buf)@[k] == if k / 4 == p {
            src@[4 * sp + k % 4]
        } else {
            old(buf)@[k]
        },
{
    let n = buf.len();
    let sn = src.len();
    assert(4 * p + 3 < n && 4 * sp + 3 < sn);
    let i = 4 * p;
    let j = 4 * sp;
    buf.set(i, src[j]);
    buf.set(i + 1, src[j + 1]);
    buf.set(i + 2, src[j + 2]);
    buf.set(i + 3, src[j + 3]);
    proof {
        assert forall|k: int| 0 <= k < old(buf)@.len() implies #[trigger] buf@[k] == if k / 4 == p {
            src@[4 * sp + k % 4]
        } else {
            old(buf)@[k]
        } by {
            lemma_fundamental_div_mod(k, 4);
            lemma_byte_pixel(p as int, 0);
            lemma_byte_pixel(p as int, 1);
            lemma_byte_pixel(p as int, 2);
            lemma_byte_pixel(p as int, 3);
        }
    }
}

/// Copies the area `[x0, x1) x [y0, y1)` of a `width` x `height` frame from a
/// `src_width` x `src_height` source stretched over the frame (nearest pixel);
/// pixels outside either buffer are skipped.
#[verifier::rlimit(50)]
pub fn copy_scaled(
    frame: &mut Vec<u8>,
    width: u32,
    height: u32,
    src: &[u8],
    src_width: u32,
    src_height: u32,
    x0: u64,
    x1: u64,
    y0: u64,
    y1: u64,
)
    requires
        x1 <= width,
        y1 <= height,
        src_width > 0,
        src_height > 0,
    ensures
        final(frame)@ == scaled_copied(
            old(frame)@,
            src@,
            ScaledSource {
                frame_width: width as int,
                frame_height: height as int,
                width: src_width as int,
                height: src_height as int,
            },
            PaintArea { x0: x0 as int, x1: x1 as int, y0: y0 as int, y1: y1 as int, ex: x1 as int, ey: y1 as int, border: false },
        ),
{
    let ghost m = ScaledSource {
        frame_width: width as int,
        frame_height: height as int,
        width: src_width as int,
        height: src_height as int,
    };
    let ghost area = PaintArea { x0: x0 as int, x1: x1 as int, y0: y0 as int, y1: y1 as int, ex: x1 as int, ey: y1 as int, border: false };
    let len = frame.len();
    let slen = src.len();
    let ghost old_buf = frame@;
    let ghost s = width as int;
    let mut y = y0;
    while y < y1
        invariant
            y0 <= y <= y1 || (y == y0 && y0 >= y1),
            x1 <= width,
            y1 <= height,
            src_width > 0,
            src_height > 0,
            s == width as int,
            m == (ScaledSource { frame_width: width as int, frame_height: height as int, width: src_width as int, height: src_height as int }),
            area == (PaintArea { x0: x0 as int, x1: x1 as int, y0: y0 as int, y1: y1 as int, ex: x1 as int, ey: y1 as int, border: false }),
            len == frame@.len(),
            len == old_buf.len(),
            slen == src@.len(),
            forall|k: int| 0 <= k < len ==> #[trigger] frame@[k] == if whole_pixel_byte(len as int, k)
                && in_paint_area(k / 4, s, area) && 4 * source_pixel(m, k / 4) + 3 < slen && (k / 4) / s < y {
                src@[4 * source_pixel(m, k / 4) + k % 4]
            } else {
                old_buf[k]
            },
        decreases y1 - y,
    {
        assert(y as int * src_height as int <= 0xffff_ffff * 0xffff_ffff) by (nonlinear_arith)
            requires
                y <= 0xffff_ffff,
                src_height <= 0xffff_ffff,
        ;
        let sy0: u128 = (y as u128 * src_height as u128) / height as u128;
        let sy: u128 = if sy0 < src_height as u128 - 1 {
            sy0
        } else {
            src_height as u128 - 1
        };
        let mut x = x0;
        while x < x1
            invariant
                y0 <= y < y1,
                x0 <= x <= x1 || (x == x0 && x0 >= x1),
                x1 <= width,
                y1 <= height,
                src_width > 0,
                src_height > 0,
                s == width as int,
                sy < src_height,
                sy == scaled_index(y as int, src_height as int, height as int),
                m == (ScaledSource { frame_width: width as int, frame_height: height as int, width: src_width as int, height: src_height as int }),
                area == (PaintArea { x0: x0 as int, x1: x1 as int, y0: y0 as int, y1: y1 as int, ex: x1 as int, ey: y1 as int, border: false }),
                len == frame@.len(),
                len == old_buf.len(),
                slen == src@.len(),
                forall|k: int| 0 <= k < len ==> #[trigger] frame@[k] == if whole_pixel_byte(len as int, k)
                    && in_paint_area(k / 4, s, area) && 4 * source_pixel(m, k / 4) + 3 < slen
                    && ((k / 4) / s < y || ((k / 4) / s == y && (k / 4) % s < x)) {
                    src@[4 * source_pixel(m, k / 4) + k % 4]
                } else {
                    old_buf[k]
                },
            decreases x1 - x,
        {
            assert(x as int * src_width as int <= 0xffff_ffff * 0xffff_ffff) by (nonlinear_arith)
                requires
                    x <= 0xffff_ffff,
                    src_width <= 0xffff_ffff,
            ;
            let sx0: u128 = (x as u128 * src_width as u128) / width as u128;
            let sx: u128 = if sx0 < src_width as u128 - 1 {
                sx0
            } else {
                src_width as u128 - 1
            };
            assert(sy * src_width as int + sx < src_width as int * src_height as int) by (nonlinear_arith)
                requires
                    sy < src_height,
                    sx < src_width,
            ;
            assert(src_width as int * src_height as int <= 0xffff_ffff * 0xffff_ffff) by (nonlinear_arith)
                requires
                    src_width <= 0xffff_ffff,
                    src_height <= 0xffff_ffff,
            ;
            assert(y as int * width as int <= 0xffff_ffff * 0xffff_ffff) by (nonlinear_arith)
                requires
                    y <= 0xffff_ffff,
                    width <= 0xffff_ffff,
            ;
            let sp: u128 = sy * src_width as u128 + sx;
            let p: u128 = y as u128 * width as u128 + x as u128;
            proof {
                lemma_pixel_index(s, x as int, y as int);
                assert(source_pixel(m, p as int) == sp as int);
            }
            if 4 * p + 3 < len as u128 && 4 * sp + 3 < slen as u128 {
                copy_pixel(frame, p as usize, src, sp as usize);
                proof {
                    assert forall|k: int| 0 <= k < len implies #[trigger] frame@[k] == if whole_pixel_byte(len as int, k)
                        && in_paint_area(k / 4, s, area) && 4 * source_pixel(m, k / 4) + 3 < slen
                        && ((k / 4) / s < y || ((k / 4) / s == y && (k / 4) % s < x + 1)) {
                        src@[4 * source_pixel(m, k / 4) + k % 4]
                    } else {
                        old_buf[k]
                    } by {
                        lemma_fundamental_div_mod(k, 4);
                        if k / 4 == p as int {
                            assert(4 * (p as int) + 3 < len);
                            assert(whole_pixel_byte(len as int, k));
                        } else if (k / 4) / s == y as int && (k / 4) % s == x as int {
                            lemma_pixel_unique(s, k / 4, x as int, y as int);
                        }
                    }
                }
            } else {
                proof {
                    assert forall|k: int| 0 <= k < len implies #[trigger] frame@[k] == if whole_pixel_byte(len as int, k)
                        && in_paint_area(k / 4, s, area) && 4 * source_pixel(m, k / 4) + 3 < slen
                        && ((k / 4) / s < y || ((k / 4) / s == y && (k / 4) % s < x + 1)) {
                        src@[4 * source_pixel(m, k / 4) + k % 4]
                    } else {
                        old_buf[k]
                    } by {
                        lemma_fundamental_div_mod(k, 4);
                        if (k / 4) / s == y as int && (k / 4) % s == x as int {
                            lemma_pixel_unique(s, k / 4, x as int, y as int);
                            if 4 * p + 3 < len as u128 {
                                assert(source_pixel(m, k / 4) == sp as int);
                            } else {
                                assert(!whole_pixel_byte(len as int, k));
                            }
                        }
                    }
                }
            }
            x = x + 1;
        }
        y = y + 1;
    }
    proof {
        assert(frame@ =~= scaled_copied(old_buf, src@, m, area));
    }
}
} // verus!
