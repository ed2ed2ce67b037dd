//! The in-memory image: a rectangle of RGBA pixels, eight bits per channel.

use vstd::prelude::*;

verus! {

/// One RGBA pixel.
#[derive(Clone, Copy, Debug, PartialEq, Eq, Structural)]
pub struct Pixel {
    pub r: u8,
    pub g: u8,
    pub b: u8,
    pub a: u8,
}

/// A decoded image. Pixels are stored row by row, top-left first, so the
/// pixel at column `x` of row `y` is `pixels[y * width + x]`.
#[derive(Debug)]
pub struct Image {
    pub width: u32,
    pub height: u32,
    pub pixels: Vec<Pixel>,
}

/// The mathematical content of an [`Image`].
#[verifier::ext_equal]
pub struct ImageView {
    pub width: nat,
    pub height: nat,
    pub pixels: Seq<Pixel>,
}

/// The channel of `p` that is stored at offset `k` of its four bytes.
pub open spec fn channel(p: Pixel, k: int) -> u8 {
    if k == 0 {
        p.r
    } else if k == 1 {
        p.g
    } else if k == 2 {
        p.b
    } else {
        p.a
    }
}

/// The pixels that a run of RGBA bytes holds, four bytes to a pixel.
pub open spec fn pixels_of(bytes: Seq<u8>) -> Seq<Pixel> {
    Seq::new(
        (bytes.len() / 4) as nat,
        |i: int| Pixel { r: bytes[4 * i], g: bytes[4 * i + 1], b: bytes[4 * i + 2], a: bytes[4 * i + 3] },
    )
}

/// The RGBA bytes of a run of pixels.
pub open spec fn rgba_bytes(pixels: Seq<Pixel>) -> Seq<u8> {
    Seq::new(4 * pixels.len(), |k: int| channel(pixels[k / 4], k % 4))
}

impl View for Image {
    type V = ImageView;

    open spec fn view(&self) -> ImageView {
        ImageView { width: self.width as nat, height: self.height as nat, pixels: self.pixels@ }
    }
}

impl Image {
    /// An image is well formed when it holds exactly `width * height` pixels.
    pub open spec fn wf(&self) -> bool {
        self.pixels@.len() == self.width * self.height
    }

    /// Builds an image from raw RGBA bytes. The bytes are accepted exactly
    /// when there are four of them for each of the `width * height` pixels.
    pub fn from_rgba(width: u32, height: u32, bytes: &[u8]) -> (r: Option<Image>)
        ensures
            r is Some <==> bytes@.len() == 4 * (width * height),
            r matches Some(img) ==> img.wf() && img.width == width && img.height == height
                && img.pixels@ == pixels_of(bytes@),
    {
        assert(width * height <= u64::MAX) by (nonlinear_arith)
            requires
                width <= u32::MAX,
                height <= u32::MAX,
        ;
        let area: u64 = (width as u64) * (height as u64);
        let len: usize = bytes.len();
        if len % 4 != 0 || (len / 4) as u64 != area {
            return None;
        }
        let count: usize = len / 4;
        let mut pixels: Vec<Pixel> = Vec::new();
        let mut i: usize = 0;
        while i < count
            invariant
                i <= count,
                count == len / 4,
                len == bytes@.len(),
                len % 4 == 0,
                pixels@.len() == i,
                forall|j: int| 0 <= j < i ==> #[trigger] pixels@[j] == pixels_of(bytes@)[j],
            decreases count - i,
        {
            let p = Pixel {
                r: bytes[4 * i],
                g: bytes[4 * i + 1],
                b: bytes[4 * i + 2],
                a: bytes[4 * i + 3],
            };
            pixels.push(p);
            i += 1;
        }
        assert(pixels@ =~= pixels_of(bytes@));
        Some(Image { width, height, pixels })
    }

    /// The image as raw RGBA bytes, row by row.
    pub fn to_rgba(&self) -> (bytes: Vec<u8>)
        requires
            4 * self.pixels@.len() <= usize::MAX,
        ensures
            bytes@ == rgba_bytes(self.pixels@),
    {
        let count: usize = self.pixels.len();
        let mut bytes: Vec<u8> = Vec::new();
        let mut i: usize = 0;
        while i < count
            invariant
                i <= count,
                count == self.pixels@.len(),
                bytes@.len() == 4 * i,
                forall|k: int| 0 <= k < 4 * i ==> #[trigger] bytes@[k] == rgba_bytes(self.pixels@)[k],
            decreases count - i,
        {
            let p = self.pixels[i];
            bytes.push(p.r);
            bytes.push(p.g);
            bytes.push(p.b);
            bytes.push(p.a);
            i += 1;
        }
        assert(bytes@ =~= rgba_bytes(self.pixels@));
        bytes
    }

    /// Number of pixels in a row.
    pub fn width(&self) -> (w: u32)
        ensures
            w == self.width,
    {
        self.width
    }

    /// Number of rows.
    pub fn height(&self) -> (h: u32)
        ensures
            h == self.height,
    {
        self.height
    }

    /// The pixel at column `x` of row `y`, if the image has one there.
    pub fn pixel(&self, x: u32, y: u32) -> (p: Option<Pixel>)
        requires
            self.wf(),
        ensures
            p is Some <==> x < self.width && y < self.height,
            p matches Some(q) ==> q == self.pixels@[y * self.width + x],
    {
        if x < self.width && y < self.height {
            let count: usize = self.pixels.len();
            assert(0 <= y * self.width && y * self.width + x < self.width * self.height)
                by (nonlinear_arith)
                requires
                    0 <= x < self.width,
                    0 <= y < self.height,
            ;
            let at: usize = (y as usize) * (self.width as usize) + (x as usize);
            Some(self.pixels[at])
        } else {
            None
        }
    }
}

/// Reading back the bytes written for some pixels gives those pixels.
pub proof fn lemma_rgba_round_trip(pixels: Seq<Pixel>)
    ensures
        pixels_of(rgba_bytes(pixels)) == pixels,
{
    assert(pixels_of(rgba_bytes(pixels)) =~= pixels);
}

} // verus!
