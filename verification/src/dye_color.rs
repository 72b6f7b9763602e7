//! The catalog of the sixteen dye colors: each color has a packed RGB value,
//! a numeric ordinal used in compact command encodings, and a lowercase
//! snake-case identifier used in localization keys and asset paths.

use vstd::prelude::*;

verus! {

/// Represents the color of a banner or a pattern applied to it.
// Note: the colors are split up into groups of 4 purely to make it easier to keep track of where
// you're reading. There is no significance to their grouping.
#[derive(Clone, Copy, PartialEq, Eq, Hash, Debug, Structural)]
pub enum DyeColor {
    White,
    Orange,
    Magenta,
    LightBlue,

    Yellow,
    Lime,
    Pink,
    Gray,

    LightGray,
    Cyan,
    Purple,
    Blue,

    Brown,
    Green,
    Red,
    Black,
}

impl DyeColor {
    /// The packed 24-bit RGB value of this color.
    pub open spec fn spec_color(self) -> u32 {
        match self {
            DyeColor::White => 0xf9fffe,
            DyeColor::Orange => 0xf9801d,
            DyeColor::Magenta => 0xc74ebd,
            DyeColor::LightBlue => 0x3ab3da,

            DyeColor::Yellow => 0xfed83d,
            DyeColor::Lime => 0x80c71f,
            DyeColor::Pink => 0xf38baa,
            DyeColor::Gray => 0x474f52,

            DyeColor::LightGray => 0x9d9d97,
            DyeColor::Cyan => 0x169c9c,
            DyeColor::Purple => 0x8932b8,
            DyeColor::Blue => 0x3c44aa,

            DyeColor::Brown => 0x835432,
            DyeColor::Green => 0x5e7c16,
            DyeColor::Red => 0xb02e26,
            DyeColor::Black => 0x1d1d21,
        }
    }

    /// The numerical ordinal of this color; see [`DyeColor::spec_of_id`] for
    /// the inverse direction.
    pub open spec fn spec_id(self) -> u8 {
        match self {
            DyeColor::White => 0,
            DyeColor::Orange => 1,
            DyeColor::Magenta => 2,
            DyeColor::LightBlue => 3,

            DyeColor::Yellow => 4,
            DyeColor::Lime => 5,
            DyeColor::Pink => 6,
            DyeColor::Gray => 7,

            DyeColor::LightGray => 8,
            DyeColor::Cyan => 9,
            DyeColor::Purple => 10,
            DyeColor::Blue => 11,

            DyeColor::Brown => 12,
            DyeColor::Green => 13,
            DyeColor::Red => 14,
            DyeColor::Black => 15,
        }
    }

    /// The color whose ordinal is `i`; the inverse of [`DyeColor::spec_id`]
    /// on `0..16`.
    pub open spec fn spec_of_id(i: int) -> DyeColor {
        if i == 0 {
            DyeColor::White
        } else if i == 1 {
            DyeColor::Orange
        } else if i == 2 {
            DyeColor::Magenta
        } else if i == 3 {
            DyeColor::LightBlue
        } else if i == 4 {
            DyeColor::Yellow
        } else if i == 5 {
            DyeColor::Lime
        } else if i == 6 {
            DyeColor::Pink
        } else if i == 7 {
            DyeColor::Gray
        } else if i == 8 {
            DyeColor::LightGray
        } else if i == 9 {
            DyeColor::Cyan
        } else if i == 10 {
            DyeColor::Purple
        } else if i == 11 {
            DyeColor::Blue
        } else if i == 12 {
            DyeColor::Brown
        } else if i == 13 {
            DyeColor::Green
        } else if i == 14 {
            DyeColor::Red
        } else {
            DyeColor::Black
        }
    }

    /// The identifier used to refer to the color in lang files and asset
    /// paths.
    pub open spec fn spec_identifier(self) -> Seq<char> {
        match self {
            DyeColor::White => "white"@,
            DyeColor::Orange => "orange"@,
            DyeColor::Magenta => "magenta"@,
            DyeColor::LightBlue => "light_blue"@,

            DyeColor::Yellow => "yellow"@,
            DyeColor::Lime => "lime"@,
            DyeColor::Pink => "pink"@,
            DyeColor::Gray => "gray"@,

            DyeColor::LightGray => "light_gray"@,
            DyeColor::Cyan => "cyan"@,
            DyeColor::Purple => "purple"@,
            DyeColor::Blue => "blue"@,

            DyeColor::Brown => "brown"@,
            DyeColor::Green => "green"@,
            DyeColor::Red => "red"@,
            DyeColor::Black => "black"@,
        }
    }

    /// The hex color code of this color, as rendered by
    /// [`dye_color_to_hex`].
    pub open spec fn spec_hex_code(self) -> Seq<char> {
        match self {
            DyeColor::White => "#f9fffe"@,
            DyeColor::Orange => "#f9801d"@,
            DyeColor::Magenta => "#c74ebd"@,
            DyeColor::LightBlue => "#3ab3da"@,

            DyeColor::Yellow => "#fed83d"@,
            DyeColor::Lime => "#80c71f"@,
            DyeColor::Pink => "#f38baa"@,
            DyeColor::Gray => "#474f52"@,

            DyeColor::LightGray => "#9d9d97"@,
            DyeColor::Cyan => "#169c9c"@,
            DyeColor::Purple => "#8932b8"@,
            DyeColor::Blue => "#3c44aa"@,

            DyeColor::Brown => "#835432"@,
            DyeColor::Green => "#5e7c16"@,
            DyeColor::Red => "#b02e26"@,
            DyeColor::Black => "#1d1d21"@,
        }
    }

    /// Returns the packed 24-bit RGB value of this color.
    pub fn color(&self) -> (r: u32)
        ensures
            r == self.spec_color(),
    {
        match self {
            DyeColor::White => 0xf9fffe,
            DyeColor::Orange => 0xf9801d,
            DyeColor::Magenta => 0xc74ebd,
            DyeColor::LightBlue => 0x3ab3da,

            DyeColor::Yellow => 0xfed83d,
            DyeColor::Lime => 0x80c71f,
            DyeColor::Pink => 0xf38baa,
            DyeColor::Gray => 0x474f52,

            DyeColor::LightGray => 0x9d9d97,
            DyeColor::Cyan => 0x169c9c,
            DyeColor::Purple => 0x8932b8,
            DyeColor::Blue => 0x3c44aa,

            DyeColor::Brown => 0x835432,
            DyeColor::Green => 0x5e7c16,
            DyeColor::Red => 0xb02e26,
            DyeColor::Black => 0x1d1d21,
        }
    }

    /// Returns the numerical ID of the color, used to refer to the color of a
    /// [pattern] in commands.
    ///
    /// [pattern]: crate::pattern::Pattern
    pub fn id(&self) -> (r: u8)
        ensures
            r == self.spec_id(),
    {
        match self {
            DyeColor::White => 0,
            DyeColor::Orange => 1,
            DyeColor::Magenta => 2,
            DyeColor::LightBlue => 3,

            DyeColor::Yellow => 4,
            DyeColor::Lime => 5,
            DyeColor::Pink => 6,
            DyeColor::Gray => 7,

            DyeColor::LightGray => 8,
            DyeColor::Cyan => 9,
            DyeColor::Purple => 10,
            DyeColor::Blue => 11,

            DyeColor::Brown => 12,
            DyeColor::Green => 13,
            DyeColor::Red => 14,
            DyeColor::Black => 15,
        }
    }

    /// Returns the identifier used to refer to the color of patterns in lang
    /// files.
    pub fn identifier(&self) -> (r: &'static str)
        ensures
            r@ == self.spec_identifier(),
    {
        match self {
            DyeColor::White => "white",
            DyeColor::Orange => "orange",
            DyeColor::Magenta => "magenta",
            DyeColor::LightBlue => "light_blue",

            DyeColor::Yellow => "yellow",
            DyeColor::Lime => "lime",
            DyeColor::Pink => "pink",
            DyeColor::Gray => "gray",

            DyeColor::LightGray => "light_gray",
            DyeColor::Cyan => "cyan",
            DyeColor::Purple => "purple",
            DyeColor::Blue => "blue",

            DyeColor::Brown => "brown",
            DyeColor::Green => "green",
            DyeColor::Red => "red",
            DyeColor::Black => "black",
        }
    }
}

impl Default for DyeColor {
    /// The default color is white, matching the undyed banner.
    fn default() -> (r: Self)
        ensures
            r == DyeColor::White,
    {
        DyeColor::White
    }
}

/// Returns the hex color code for the given `DyeColor` as a string for use in
/// rendering on a canvas.
pub fn dye_color_to_hex(color: DyeColor) -> (r: String)
    ensures
        r@ == color.spec_hex_code(),
{
    let code: &str = match color {
        DyeColor::White => "#f9fffe",
        DyeColor::Orange => "#f9801d",
        DyeColor::Magenta => "#c74ebd",
        DyeColor::LightBlue => "#3ab3da",

        DyeColor::Yellow => "#fed83d",
        DyeColor::Lime => "#80c71f",
        DyeColor::Pink => "#f38baa",
        DyeColor::Gray => "#474f52",

        DyeColor::LightGray => "#9d9d97",
        DyeColor::Cyan => "#169c9c",
        DyeColor::Purple => "#8932b8",
        DyeColor::Blue => "#3c44aa",

        DyeColor::Brown => "#835432",
        DyeColor::Green => "#5e7c16",
        DyeColor::Red => "#b02e26",
        DyeColor::Black => "#1d1d21",
    };
    code.to_owned()
}

/// Returns the packed 24-bit RGB value of the given color.
pub fn dye_color_color(color: DyeColor) -> (r: u32)
    ensures
        r == color.spec_color(),
{
    color.color()
}

/// Returns the numerical ID of the given color, used to refer to the color of
/// a pattern in commands.
pub fn dye_color_id(color: DyeColor) -> (r: u8)
    ensures
        r == color.spec_id(),
{
    color.id()
}

/// The ordinal is a bijection between the sixteen colors and `0..16`: it
/// never leaves that range, and [`DyeColor::spec_of_id`] inverts it in both
/// directions.
pub proof fn lemma_dye_color_id_bijective()
    ensures
        forall|c: DyeColor| #[trigger] c.spec_id() < 16,
        forall|c: DyeColor| DyeColor::spec_of_id(#[trigger] c.spec_id() as int) == c,
        forall|i: int| 0 <= i < 16 ==> #[trigger] DyeColor::spec_of_id(i).spec_id() == i,
{
}

/// No two distinct colors share a packed RGB value.
pub proof fn lemma_dye_color_rgb_distinct()
    ensures
        forall|c1: DyeColor, c2: DyeColor|
            #![trigger c1.spec_color(), c2.spec_color()]
            c1.spec_color() == c2.spec_color() ==> c1 == c2,
{
}

/// No two distinct colors share an identifier.
#[verifier::rlimit(60)]
pub proof fn lemma_dye_color_identifier_distinct()
    ensures
        forall|c1: DyeColor, c2: DyeColor|
            #![trigger c1.spec_identifier(), c2.spec_identifier()]
            c1.spec_identifier() == c2.spec_identifier() ==> c1 == c2,
{
    reveal_strlit("white");
    reveal_strlit("orange");
    reveal_strlit("magenta");
    reveal_strlit("light_blue");
    reveal_strlit("yellow");
    reveal_strlit("lime");
    reveal_strlit("pink");
    reveal_strlit("gray");
    reveal_strlit("light_gray");
    reveal_strlit("cyan");
    reveal_strlit("purple");
    reveal_strlit("blue");
    reveal_strlit("brown");
    reveal_strlit("green");
    reveal_strlit("red");
    reveal_strlit("black");
    assert("white"@.len() == 5 && "orange"@.len() == 6 && "magenta"@.len() == 7
        && "light_blue"@.len() == 10 && "yellow"@.len() == 6 && "lime"@.len() == 4
        && "pink"@.len() == 4 && "gray"@.len() == 4 && "light_gray"@.len() == 10
        && "cyan"@.len() == 4 && "purple"@.len() == 6 && "blue"@.len() == 4
        && "brown"@.len() == 5 && "green"@.len() == 5 && "red"@.len() == 3
        && "black"@.len() == 5);
    assert("white"@[0] == 'w' && "orange"@[0] == 'o' && "yellow"@[0] == 'y'
        && "lime"@[0] == 'l' && "pink"@[0] == 'p' && "gray"@[0] == 'g'
        && "cyan"@[0] == 'c' && "purple"@[0] == 'p' && "blue"@[0] == 'b'
        && "brown"@[0] == 'b' && "green"@[0] == 'g' && "black"@[0] == 'b');
    assert("brown"@[1] == 'r' && "black"@[1] == 'l' && "orange"@[1] == 'r'
        && "yellow"@[1] == 'e' && "purple"@[1] == 'u' && "pink"@[1] == 'i');
    assert("light_blue"@[6] == 'b' && "light_gray"@[6] == 'g');
}

} // verus!
