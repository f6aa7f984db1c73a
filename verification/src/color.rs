use crate::bytes::{be_bytes, hi_byte_of, lo_byte_of};
use crate::dcs::BitsPerPixel;
use vstd::prelude::*;

verus! {

/// A logical pixel in the RGB565 color format: five bits of red, six of
/// green, five of blue.
#[derive(Clone, Copy, PartialEq, Eq, Structural, Debug)]
pub struct Rgb565Color {
    pub r: u8,
    pub g: u8,
    pub b: u8,
}

impl Rgb565Color {
    /// The channels fit their widths: red and blue below 32, green below 64.
    pub open spec fn wf(&self) -> bool {
        self.r < 32 && self.g < 64 && self.b < 32
    }

    /// The packed 16-bit value: red in bits 15 to 11, green in bits 10 to 5,
    /// blue in bits 4 to 0. This is the channel packing the wire encoding
    /// uses, and the pixel-format register must be programmed to match it.
    pub open spec fn spec_storage(&self) -> u16 {
        ((self.r as u16) << 11) | ((self.g as u16) << 5) | (self.b as u16)
    }

    /// A pixel from its three channel values.
    pub fn new(r: u8, g: u8, b: u8) -> (c: Self)
        requires
            r < 32,
            g < 64,
            b < 32,
        ensures
            c == (Rgb565Color { r, g, b }),
            c.wf(),
    {
        Rgb565Color { r, g, b }
    }

    /// Packs the channels into the 16-bit word.
    pub fn storage(&self) -> (w: u16)
        ensures
            w == self.spec_storage(),
    {
        ((self.r as u16) << 11) | ((self.g as u16) << 5) | (self.b as u16)
    }

    /// The color depth this format programs into the pixel-format register:
    /// sixteen bits, two bytes per pixel on the wire.
    pub fn bits_per_pixel() -> (r: BitsPerPixel)
        ensures
            r == BitsPerPixel::Sixteen,
    {
        BitsPerPixel::Sixteen
    }
}

/// The wire encoding of a pixel sequence: each pixel's packed word as two
/// bytes in big-endian order, pixels in their original order.
pub open spec fn pixel_bytes(colors: Seq<Rgb565Color>) -> Seq<u8>
    decreases colors.len(),
{
    if colors.len() == 0 {
        Seq::empty()
    } else {
        pixel_bytes(colors.drop_last()) + be_bytes(colors.last().spec_storage())
    }
}

/// The wire encoding is two bytes per pixel.
pub proof fn lemma_pixel_bytes_len(colors: Seq<Rgb565Color>)
    ensures
        pixel_bytes(colors).len() == 2 * colors.len(),
    decreases colors.len(),
{
    if colors.len() > 0 {
        lemma_pixel_bytes_len(colors.drop_last());
    }
}

/// Translates a pixel sequence into its wire encoding, one pass, in order.
pub fn encode_pixels(colors: &[Rgb565Color]) -> (out: Vec<u8>)
    ensures
        out@ == pixel_bytes(colors@),
        out@.len() == 2 * colors@.len(),
{
    let mut out: Vec<u8> = Vec::new();
    let mut i: usize = 0;
    while i < colors.len()
        invariant
            i <= colors@.len(),
            out@ == pixel_bytes(colors@.take(i as int)),
            out@.len() == 2 * i,
        decreases colors@.len() - i,
    {
        let c = *vstd::slice::slice_index_get(colors, i);
        let word = c.storage();
        out.push(hi_byte_of(word));
        out.push(lo_byte_of(word));
        proof {
            let upto = colors@.take(i as int + 1);
            assert(upto.drop_last() =~= colors@.take(i as int));
            assert(upto.last() == colors@[i as int]);
            assert(out@ =~= pixel_bytes(upto));
        }
        i = i + 1;
    }
    proof {
        assert(colors@.take(colors@.len() as int) =~= colors@);
    }
    out
}

} // verus!
