use vstd::prelude::*;

verus! {

/// The number of glyph levels in the palette.
pub const LEVEL_COUNT: u8 = 9;

/// Width of each luminance band above zero; the densest band absorbs the rest.
pub const BAND_WIDTH: u8 = 31;

/// One entry of the ordered glyph palette, from empty to densest.
#[derive(Clone, Copy, Debug, PartialEq, Eq, Structural)]
pub enum GlyphLevel {
    Empty,
    One,
    Two,
    Three,
    Four,
    Five,
    Six,
    Seven,
    Eight,
}

/// The palette's characters, indexed by ordinal.
pub open spec fn palette() -> Seq<char> {
    seq![' ', '.', ':', '-', '=', '*', '#', '%', '@']
}

/// The palette's characters as ASCII bytes, indexed by ordinal.
pub open spec fn palette_bytes() -> Seq<u8> {
    seq![32u8, 46u8, 58u8, 45u8, 61u8, 42u8, 35u8, 37u8, 64u8]
}

impl GlyphLevel {
    /// Position of the level in the palette: 0 is the emptiest, 8 the densest.
    pub open spec fn ordinal(self) -> nat {
        match self {
            GlyphLevel::Empty => 0,
            GlyphLevel::One => 1,
            GlyphLevel::Two => 2,
            GlyphLevel::Three => 3,
            GlyphLevel::Four => 4,
            GlyphLevel::Five => 5,
            GlyphLevel::Six => 6,
            GlyphLevel::Seven => 7,
            GlyphLevel::Eight => 8,
        }
    }

    /// The level with a given ordinal (ordinals past the last give the densest).
    pub open spec fn from_ordinal(n: nat) -> GlyphLevel {
        if n == 0 {
            GlyphLevel::Empty
        } else if n == 1 {
            GlyphLevel::One
        } else if n == 2 {
            GlyphLevel::Two
        } else if n == 3 {
            GlyphLevel::Three
        } else if n == 4 {
            GlyphLevel::Four
        } else if n == 5 {
            GlyphLevel::Five
        } else if n == 6 {
            GlyphLevel::Six
        } else if n == 7 {
            GlyphLevel::Seven
        } else {
            GlyphLevel::Eight
        }
    }

    /// The display character of the level.
    pub open spec fn char_of(self) -> char {
        palette()[self.ordinal() as int]
    }

    /// The display character of the level as an ASCII byte.
    pub open spec fn byte_of(self) -> u8 {
        palette_bytes()[self.ordinal() as int]
    }

    /// Returns the display character of this level.
    pub fn symbol(&self) -> (c: char)
        ensures
            c == self.char_of(),
    {
        match self {
            GlyphLevel::Empty => ' ',
            GlyphLevel::One => '.',
            GlyphLevel::Two => ':',
            GlyphLevel::Three => '-',
            GlyphLevel::Four => '=',
            GlyphLevel::Five => '*',
            GlyphLevel::Six => '#',
            GlyphLevel::Seven => '%',
            GlyphLevel::Eight => '@',
        }
    }

    /// Returns the display character of this level as an ASCII byte.
    pub fn symbol_byte(&self) -> (b: u8)
        ensures
            b == self.byte_of(),
            b as char == self.char_of(),
    {
        match self {
            GlyphLevel::Empty => 32u8,
            GlyphLevel::One => 46u8,
            GlyphLevel::Two => 58u8,
            GlyphLevel::Three => 45u8,
            GlyphLevel::Four => 61u8,
            GlyphLevel::Five => 42u8,
            GlyphLevel::Six => 35u8,
            GlyphLevel::Seven => 37u8,
            GlyphLevel::Eight => 64u8,
        }
    }
}

/// The band ordinal of a luminance byte: zero alone is the empty level; above
/// zero, consecutive bands of `BAND_WIDTH` values take ordinals 1, 2, ...,
/// and the densest level takes everything from its band start up to 255.
pub open spec fn band_of(b: u8) -> nat {
    if b == 0 {
        0
    } else {
        let k = ((b - 1) as int / BAND_WIDTH as int + 1) as nat;
        if k < LEVEL_COUNT as nat { k } else { (LEVEL_COUNT - 1) as nat }
    }
}

/// The glyph level of a luminance byte.
pub open spec fn quantize_spec(b: u8) -> GlyphLevel {
    GlyphLevel::from_ordinal(band_of(b))
}

/// Maps a luminance byte to its glyph level. Total over all bytes.
pub fn pixel_to_asci(b: u8) -> (g: GlyphLevel)
    ensures
        g == quantize_spec(b),
        g.ordinal() == band_of(b),
        b == 0 ==> g == GlyphLevel::Empty,
        b == 255 ==> g == GlyphLevel::Eight,
{
    if b == 0 {
        GlyphLevel::Empty
    } else if b <= 31 {
        GlyphLevel::One
    } else if b <= 62 {
        GlyphLevel::Two
    } else if b <= 93 {
        GlyphLevel::Three
    } else if b <= 124 {
        GlyphLevel::Four
    } else if b <= 155 {
        GlyphLevel::Five
    } else if b <= 186 {
        GlyphLevel::Six
    } else if b <= 217 {
        GlyphLevel::Seven
    } else {
        GlyphLevel::Eight
    }
}

/// Every byte has exactly one level, and a brighter byte never has a lower
/// level than a darker one.
pub proof fn lemma_quantize_monotone(b1: u8, b2: u8)
    requires
        b1 <= b2,
    ensures
        quantize_spec(b1).ordinal() <= quantize_spec(b2).ordinal(),
        quantize_spec(b1).ordinal() == band_of(b1),
        quantize_spec(b2).ordinal() == band_of(b2),
{
    if b1 > 0 {
        assert((b1 - 1) as int / 31 <= (b2 - 1) as int / 31) by (nonlinear_arith)
            requires
                1 <= b1 <= b2,
        ;
    }
}

/// Black takes the emptiest level and white the densest.
pub proof fn lemma_quantize_extremes()
    ensures
        quantize_spec(0) == GlyphLevel::Empty,
        quantize_spec(0).ordinal() == 0,
        quantize_spec(255) == GlyphLevel::Eight,
        quantize_spec(255).ordinal() == LEVEL_COUNT - 1,
{
}

} // verus!
