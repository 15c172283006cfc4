//! Derived background images: the tinted backdrop, the RGB to RGBA conversion
//! with a reusable buffer, and the per-session image cache.
use vstd::prelude::*;
use std::sync::Arc;

verus! {

/// One colour channel blended with a tint: `src*(255-alpha)/255 + tint*alpha/255`,
/// computed as one integer division.
pub open spec fn blend_channel(src: u8, tint: u8, alpha: u8) -> u8 {
    ((src * (255 - alpha) + tint * alpha) / 255) as u8
}

/// Byte `i` of the tinted copy of `bg`: each whole RGBA pixel has its colour
/// channels blended with the overlay colour and becomes opaque; the bytes of an
/// incomplete trailing pixel are zero.
pub open spec fn tinted_byte(bg: Seq<u8>, color: Seq<u8>, i: int) -> u8 {
    if i < (bg.len() / 4) * 4 {
        if i % 4 == 3 {
            255
        } else {
            blend_channel(bg[i], color[i % 4], color[3])
        }
    } else {
        0
    }
}

/// Byte `i` of the RGBA copy of an RGB buffer when the pixel it belongs to has a
/// whole RGB triple: the colour bytes are copied, alpha is opaque.
pub open spec fn rgba_byte(rgb: Seq<u8>, i: int) -> u8 {
    if i % 4 == 3 {
        255
    } else {
        rgb[(i / 4) * 3 + i % 4]
    }
}

/// Background image processing.
pub struct BackgroundProcessor;

impl BackgroundProcessor {
    /// Blends one channel with the overlay colour.
    pub fn tint_channel(src: u8, tint: u8, alpha: u8) -> (r: u8)
        ensures
            r == blend_channel(src, tint, alpha),
    {
        let inv: u32 = 255 - alpha as u32;
        assert(src * inv + tint * alpha <= 255 * 255) by (nonlinear_arith)
            requires
                src <= 255,
                tint <= 255,
                inv == 255 - alpha,
                alpha <= 255,
        ;
        ((src as u32 * inv + tint as u32 * alpha as u32) / 255) as u8
    }

    /// The darkened copy of an RGBA background under the overlay colour.
    pub fn tint_background(bg: &[u8], overlay_color: [u8; 4]) -> (r: Vec<u8>)
        ensures
            r@.len() == bg@.len(),
            forall|i: int| 0 <= i < r@.len() ==> #[trigger] r@[i] == tinted_byte(bg@, overlay_color@, i),
    {
        let n = bg.len();
        let full = (n / 4) * 4;
        let mut out: Vec<u8> = Vec::with_capacity(n);
        let mut i: usize = 0;
        while i < n
            invariant
                0 <= i <= n,
                n == bg@.len(),
                full == (n / 4) * 4,
                out@.len() == i,
                forall|j: int| 0 <= j < i ==> #[trigger] out@[j] == tinted_byte(bg@, overlay_color@, j),
            decreases n - i,
        {
            let b: u8 = if i < full {
                let c = i % 4;
                if c == 3 {
                    255
                } else {
                    Self::tint_channel(bg[i], overlay_color[c], overlay_color[3])
                }
            } else {
                0
            };
            out.push(b);
            i = i + 1;
        }
        out
    }
}

/// A reusable RGBA working buffer for converting RGB backgrounds.
pub struct RgbaBuffer {
    buffer: Vec<u8>,
}

impl View for RgbaBuffer {
    type V = Seq<u8>;

    closed spec fn view(&self) -> Seq<u8> {
        self.buffer@
    }
}

/// The working buffer after converting `rgb` for `required` output bytes: grown
/// with zeros to `required` when shorter, then each pixel with a whole RGB triple
/// overwritten with it and opaque alpha.
pub open spec fn converted_buffer(old: Seq<u8>, rgb: Seq<u8>, required: int) -> Seq<u8> {
    let grown = if old.len() < required {
        old + Seq::new((required - old.len()) as nat, |k: int| 0u8)
    } else {
        old
    };
    Seq::new(
        grown.len(),
        |i: int|
            if i < required && i / 4 < rgb.len() / 3 {
                rgba_byte(rgb, i)
            } else {
                grown[i]
            },
    )
}

impl RgbaBuffer {
    pub fn new() -> (r: RgbaBuffer)
        ensures
            r@ == Seq::<u8>::empty(),
    {
        RgbaBuffer { buffer: Vec::new() }
    }

    /// Converts an RGB background of `width` x `height` pixels to RGBA, reusing
    /// the buffer; returns the first `width * height * 4` bytes of it.
    pub fn convert_rgb_to_rgba(&mut self, rgb: &[u8], width: u32, height: u32) -> (r: Vec<u8>)
        requires
            width * height * 4 <= usize::MAX,
        ensures
            final(self)@ == converted_buffer(old(self)@, rgb@, width * height * 4),
            r@ == final(self)@.take(width * height * 4),
    {
        assert(0 <= width * height <= width * height * 4) by (nonlinear_arith);
        let required: usize = (width as usize) * (height as usize) * 4;
        let ghost old_buf = self.buffer@;
        if self.buffer.len() < required {
            let extra = required - self.buffer.len();
            let mut k: usize = 0;
            while k < extra
                invariant
                    0 <= k <= extra,
                    extra == required - old_buf.len(),
                    self.buffer@ =~= old_buf + Seq::new(k as nat, |j: int| 0u8),
                decreases extra - k,
            {
                self.buffer.push(0);
                k = k + 1;
            }
        }
        let ghost grown = self.buffer@;
        assert(grown =~= if old_buf.len() < required {
            old_buf + Seq::new((required - old_buf.len()) as nat, |k: int| 0u8)
        } else {
            old_buf
        });
        let pixels = rgb.len() / 3;
        let mut i: usize = 0;
        while i < required
            invariant
                0 <= i <= required,
                required <= grown.len(),
                pixels == rgb@.len() / 3,
                self.buffer@.len() == grown.len(),
                forall|j: int|
                    0 <= j < grown.len() ==> #[trigger] self.buffer@[j] == if j < i && j / 4 < pixels {
                        rgba_byte(rgb@, j)
                    } else {
                        grown[j]
                    },
            decreases required - i,
        {
            if i / 4 < pixels {
                let c = i % 4;
                let v: u8 = if c == 3 {
                    255
                } else {
                    assert((i / 4) * 3 + c < rgb@.len()) by (nonlinear_arith)
                        requires
                            i / 4 < rgb@.len() / 3,
                            c < 3,
                    ;
                    rgb[(i / 4) * 3 + c]
                };
                self.buffer.set(i, v);
            }
            i = i + 1;
        }
        assert(self.buffer@ =~= converted_buffer(old_buf, rgb@, required as int));
        let mut out: Vec<u8> = Vec::with_capacity(required);
        let mut j: usize = 0;
        while j < required
            invariant
                0 <= j <= required,
                required <= self.buffer@.len(),
                out@ =~= self.buffer@.take(j as int),
            decreases required - j,
        {
            out.push(self.buffer[j]);
            j = j + 1;
        }
        out
    }
}

/// The derived images of one session, built once and shared by every window.
pub struct ImageCache {
    tinted_image: Option<Arc<Vec<u8>>>,
    original_image: Option<Arc<Vec<u8>>>,
    initialized: bool,
}

/// What the cache holds: whether it was filled, and the tinted and original images.
pub struct CachedImages {
    pub initialized: bool,
    pub tinted: Option<Seq<u8>>,
    pub original: Option<Seq<u8>>,
}

impl View for ImageCache {
    type V = CachedImages;

    closed spec fn view(&self) -> CachedImages {
        CachedImages {
            initialized: self.initialized,
            tinted: match self.tinted_image {
                Some(a) => Some((*a)@),
                None => None,
            },
            original: match self.original_image {
                Some(a) => Some((*a)@),
                None => None,
            },
        }
    }
}

fn copy_bytes(s: &[u8]) -> (r: Vec<u8>)
    ensures
        r@ == s@,
{
    let mut out: Vec<u8> = Vec::with_capacity(s.len());
    let mut i: usize = 0;
    while i < s.len()
        invariant
            0 <= i <= s@.len(),
            out@ =~= s@.take(i as int),
        decreases s@.len() - i,
    {
        out.push(s[i]);
        i = i + 1;
    }
    assert(s@.take(s@.len() as int) =~= s@);
    out
}

/// The cache after a request to fill it from the given images: a filled cache
/// is kept as it is, an empty one takes them.
pub open spec fn cached_after(c: CachedImages, original: Seq<u8>, tinted: Seq<u8>) -> CachedImages {
    if c.initialized {
        c
    } else {
        CachedImages { initialized: true, tinted: Some(tinted), original: Some(original) }
    }
}

/// Filling the cache is idempotent within a session: after a first request, any
/// later request, whatever images it brings, leaves the same images in place.
pub proof fn lemma_cache_filled_once(
    c: CachedImages,
    original: Seq<u8>,
    tinted: Seq<u8>,
    later_original: Seq<u8>,
    later_tinted: Seq<u8>,
)
    ensures
        cached_after(cached_after(c, original, tinted), later_original, later_tinted) == cached_after(
            c,
            original,
            tinted,
        ),
        !c.initialized ==> cached_after(cached_after(c, original, tinted), later_original, later_tinted).tinted
            == Some(tinted),
{
}

impl ImageCache {
    pub fn new() -> (r: ImageCache)
        ensures
            r@ == (CachedImages { initialized: false, tinted: None, original: None }),
    {
        ImageCache { tinted_image: None, original_image: None, initialized: false }
    }

    /// Fills the cache from the session's background images the first time it is
    /// called; later calls leave it as it is, whatever they are given.
    pub fn ensure_images_cached(&mut self, original_bg: &[u8], tinted_bg: &[u8], width: u32, height: u32)
        ensures
            final(self)@ == cached_after(old(self)@, original_bg@, tinted_bg@),
    {
        if self.initialized {
            return;
        }
        self.original_image = Some(Arc::new(copy_bytes(original_bg)));
        self.tinted_image = Some(Arc::new(copy_bytes(tinted_bg)));
        self.initialized = true;
    }

    /// The tinted backdrop, shared rather than copied.
    pub fn get_tinted_image(&self) -> (r: Option<&Arc<Vec<u8>>>)
        ensures
            self@.tinted is None <==> r is None,
            r is Some ==> self@.tinted == Some((**r->Some_0)@),
    {
        match &self.tinted_image {
            Some(a) => Some(a),
            None => None,
        }
    }

    /// The original backdrop, shared rather than copied.
    pub fn get_original_image(&self) -> (r: Option<&Arc<Vec<u8>>>)
        ensures
            self@.original is None <==> r is None,
            r is Some ==> self@.original == Some((**r->Some_0)@),
    {
        match &self.original_image {
            Some(a) => Some(a),
            None => None,
        }
    }
}

} // verus!
