use vstd::prelude::*;

verus! {

/// Channel order of a raw surface handed over by a rendering backend.
#[derive(Clone, Copy, Debug, PartialEq, Eq, Structural)]
pub enum PixelFormat {
    Rgba,
    Bgra,
}

/// Mathematical model of a frame: its bytes and its dimensions.
pub ghost struct Frame {
    pub pixels: Seq<u8>,
    pub width: u32,
    pub height: u32,
}

/// A canonical frame: RGBA8 pixels, row after row.
#[derive(Clone, Debug, PartialEq)]
pub struct ImageInfo {
    pixels: Vec<u8>,
    width: u32,
    height: u32,
}

/// The byte sequence with bytes 0 and 2 of every 4-byte pixel exchanged.
pub open spec fn swap_red_blue(p: Seq<u8>) -> Seq<u8> {
    Seq::new(
        p.len(),
        |i: int|
            if i % 4 == 0 && i + 2 < p.len() {
                p[i + 2]
            } else if i % 4 == 2 {
                p[i - 2]
            } else {
                p[i]
            },
    )
}

/// The bytes of a frame in canonical order, given the order of the source.
pub open spec fn normalized(p: Seq<u8>, format: PixelFormat) -> Seq<u8> {
    match format {
        PixelFormat::Rgba => p,
        PixelFormat::Bgra => swap_red_blue(p),
    }
}

/// Number of bytes of a `width` by `height` RGBA frame.
pub open spec fn frame_len(width: u32, height: u32) -> int {
    width as int * height as int * 4
}

/// A frame of the given size in which every byte is 255 (opaque white).
pub open spec fn is_blank(f: Frame, width: u32, height: u32) -> bool {
    &&& f.width == width
    &&& f.height == height
    &&& f.pixels.len() == frame_len(width, height)
    &&& forall|i: int| 0 <= i < f.pixels.len() ==> #[trigger] f.pixels[i] == 255u8
}

/// Exchanging red and blue twice gives the bytes back.
pub proof fn lemma_swap_round_trip(p: Seq<u8>)
    requires
        p.len() % 4 == 0,
    ensures
        swap_red_blue(swap_red_blue(p)) == p,
{
    let q = swap_red_blue(p);
    assert forall|i: int| 0 <= i < p.len() implies #[trigger] swap_red_blue(q)[i] == p[i] by {
        if i % 4 == 0 {
            assert(i + 2 < p.len());
            assert((i + 2) % 4 == 2);
        } else if i % 4 == 2 {
            assert((i - 2) % 4 == 0);
        }
    }
    assert(swap_red_blue(q) =~= p);
}

/// Normalizing a buffer that was turned from RGBA into BGRA gives back the
/// original RGBA bytes.
pub proof fn lemma_normalize_round_trip(p: Seq<u8>)
    requires
        p.len() % 4 == 0,
    ensures
        normalized(normalized(p, PixelFormat::Bgra), PixelFormat::Bgra) == p,
        normalized(p, PixelFormat::Rgba) == p,
{
    lemma_swap_round_trip(p);
}

impl View for ImageInfo {
    type V = Frame;

    closed spec fn view(&self) -> Frame {
        Frame { pixels: self.pixels@, width: self.width, height: self.height }
    }
}

impl ImageInfo {
    /// Width used by the placeholder frame.
    pub const WIDTH: u32 = 800;

    /// Height used by the placeholder frame.
    pub const HEIGHT: u32 = 800;

    /// Holds when the byte count matches the dimensions.
    pub open spec fn wf(&self) -> bool {
        self@.pixels.len() == frame_len(self@.width, self@.height)
    }

    /// Builds a canonical frame from raw bytes in the given channel order.
    pub fn new(pixels: Vec<u8>, format: PixelFormat, width: u32, height: u32) -> (r: Self)
        requires
            pixels@.len() == frame_len(width, height),
        ensures
            r@.pixels == normalized(pixels@, format),
            r@.width == width,
            r@.height == height,
            r.wf(),
    {
        let mut pixels = pixels;
        match format {
            PixelFormat::Rgba => {},
            PixelFormat::Bgra => {
                swap_channels(&mut pixels);
            },
        }
        ImageInfo { pixels, width, height }
    }

    /// An all-white, opaque frame of the given size.
    pub fn blank(width: u32, height: u32) -> (r: Self)
        requires
            frame_len(width, height) <= usize::MAX,
        ensures
            is_blank(r@, width, height),
            r.wf(),
    {
        let pixels: Vec<u8> = vec![255u8; frame_bytes(width, height)];
        assert forall|i: int| 0 <= i < pixels@.len() implies #[trigger] pixels@[i] == 255u8 by {
            assert(cloned(255u8, pixels@[i]));
        }
        ImageInfo { pixels, width, height }
    }

    /// The frame's width in pixels.
    pub fn width(&self) -> (r: u32)
        ensures
            r == self@.width,
    {
        self.width
    }

    /// The frame's height in pixels.
    pub fn height(&self) -> (r: u32)
        ensures
            r == self@.height,
    {
        self.height
    }

    /// The frame's RGBA bytes.
    pub fn pixels(&self) -> (r: &[u8])
        ensures
            r@ == self@.pixels,
    {
        self.pixels.as_slice()
    }
}

impl Default for ImageInfo {
    /// The placeholder frame shown before any capture exists.
    fn default() -> (r: Self)
        ensures
            is_blank(r@, ImageInfo::WIDTH, ImageInfo::HEIGHT),
            r.wf(),
    {
        ImageInfo::blank(ImageInfo::WIDTH, ImageInfo::HEIGHT)
    }
}

/// Number of bytes of a `width` by `height` RGBA frame.
pub fn frame_bytes(width: u32, height: u32) -> (r: usize)
    requires
        frame_len(width, height) <= usize::MAX,
    ensures
        r == frame_len(width, height),
{
    (width as usize * height as usize) * 4
}

/// Number of bytes of a `width` by `height` RGBA frame, where it fits in
/// a `usize`.
pub fn checked_frame_bytes(width: u32, height: u32) -> (r: Option<usize>)
    ensures
        r is Some <==> frame_len(width, height) <= usize::MAX,
        r is Some ==> r->Some_0 == frame_len(width, height),
{
    match (width as usize).checked_mul(height as usize) {
        Some(pixels) => pixels.checked_mul(4),
        None => None,
    }
}

/// Exchanges bytes 0 and 2 of every 4-byte pixel, in place.
pub fn swap_channels(pixels: &mut Vec<u8>)
    requires
        old(pixels)@.len() % 4 == 0,
    ensures
        final(pixels)@ == swap_red_blue(old(pixels)@),
{
    let ghost orig = pixels@;
    let n = pixels.len();
    let mut i: usize = 0;
    while i < n
        invariant
            n == orig.len(),
            pixels@.len() == n,
            n % 4 == 0,
            i % 4 == 0,
            i <= n,
            forall|j: int| 0 <= j < i ==> #[trigger] pixels@[j] == swap_red_blue(orig)[j],
            forall|j: int| i <= j < n ==> #[trigger] pixels@[j] == orig[j],
        decreases n - i,
    {
        let r = pixels[i];
        let b = pixels[i + 2];
        pixels.set(i, b);
        pixels.set(i + 2, r);
        assert forall|j: int| 0 <= j < i + 4 implies #[trigger] pixels@[j] == swap_red_blue(
            orig,
        )[j] by {
            if j >= i {
                assert(j == i || j == i + 1 || j == i + 2 || j == i + 3);
            }
        }
        i = i + 4;
    }
    assert(pixels@ =~= swap_red_blue(orig));
}

} // verus!
