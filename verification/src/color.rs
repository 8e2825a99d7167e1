//! Packed 32-bit colours.

use vstd::prelude::*;

verus! {

/// A colour with four 8-bit channels.
///
/// In a buffer a colour takes four bytes: alpha first, then blue, green and
/// red. Read as one little-endian 32-bit word this puts red in the top byte.
#[derive(Clone, Copy, Debug, PartialEq, Eq, Structural)]
pub struct Rgba {
    a: u8,
    b: u8,
    g: u8,
    r: u8,
}

impl Rgba {
    /// The red channel.
    pub closed spec fn red(self) -> u8 {
        self.r
    }

    /// The green channel.
    pub closed spec fn green(self) -> u8 {
        self.g
    }

    /// The blue channel.
    pub closed spec fn blue(self) -> u8 {
        self.b
    }

    /// The alpha channel.
    pub closed spec fn alpha(self) -> u8 {
        self.a
    }

    /// The colour as one 32-bit word: red, green, blue, alpha from the top byte down.
    pub open spec fn packed(self) -> u32 {
        (self.red() * 0x100_0000 + self.green() * 0x1_0000 + self.blue() * 0x100
            + self.alpha()) as u32
    }

    /// The four bytes that the colour takes in a buffer.
    pub open spec fn bytes(self) -> Seq<u8> {
        seq![self.alpha(), self.blue(), self.green(), self.red()]
    }

    /// Read as one little-endian word, the bytes of a colour are its
    /// packed form.
    pub proof fn lemma_bytes_spell_packed(self)
        ensures
            self.bytes() == crate::bytes::le_bytes(self.packed()),
    {
        let r = self.red() as u32;
        let g = self.green() as u32;
        let b = self.blue() as u32;
        let a = self.alpha() as u32;
        let word = self.packed();
        assert(word % 256 == a && word / 0x100 % 256 == b && word / 0x1_0000 % 256 == g && word
            / 0x100_0000 == r) by (bit_vector)
            requires
                r < 256,
                g < 256,
                b < 256,
                a < 256,
                word == r * 0x100_0000 + g * 0x1_0000 + b * 0x100 + a,
        ;
        assert(self.bytes() =~= crate::bytes::le_bytes(word));
    }

    /// A colour is determined by its four channels.
    pub proof fn lemma_channels_determine(self, other: Rgba)
        requires
            self.red() == other.red(),
            self.green() == other.green(),
            self.blue() == other.blue(),
            self.alpha() == other.alpha(),
        ensures
            self == other,
    {
    }

    /// Builds a colour from its red, green, blue and alpha channels.
    pub fn new(r: u8, g: u8, b: u8, a: u8) -> (color: Rgba)
        ensures
            color.red() == r,
            color.green() == g,
            color.blue() == b,
            color.alpha() == a,
    {
        Rgba { r, g, b, a }
    }

    /// Appends the colour's four buffer bytes to `out`.
    pub fn write_to(&self, out: &mut Vec<u8>)
        ensures
            final(out)@ == old(out)@ + self.bytes(),
    {
        out.push(self.a);
        out.push(self.b);
        out.push(self.g);
        out.push(self.r);
        assert(out@ =~= old(out)@ + self.bytes());
    }
}

impl Default for Rgba {
    /// Opaque white.
    fn default() -> (color: Rgba)
        ensures
            color.red() == 255,
            color.green() == 255,
            color.blue() == 255,
            color.alpha() == 255,
    {
        Rgba { r: 255, g: 255, b: 255, a: 255 }
    }
}

impl From<Rgba> for u32 {
    fn from(color: Rgba) -> (word: u32) {
        let r: u32 = color.r as u32;
        let g: u32 = color.g as u32;
        let b: u32 = color.b as u32;
        let a: u32 = color.a as u32;
        assert((r << 24 | g << 16 | b << 8 | a) == r * 0x100_0000 + g * 0x1_0000 + b * 0x100 + a)
            by (bit_vector)
            requires
                r < 256,
                g < 256,
                b < 256,
                a < 256,
        ;
        r << 24 | g << 16 | b << 8 | a
    }
}

impl vstd::std_specs::convert::FromSpecImpl<Rgba> for u32 {
    open spec fn obeys_from_spec() -> bool {
        true
    }

    open spec fn from_spec(color: Rgba) -> u32 {
        color.packed()
    }
}

} // verus!
