//! The banner aggregate: one base dye color plus an ordered stack of colored
//! patterns, bounded by a capacity that depends on how the banner is being
//! composed. Later layers render on top of earlier ones, so the order of the
//! stack is part of a banner's identity.

use vstd::prelude::*;
use vstd::string::StringExecFns;

use crate::dye_color::DyeColor;
use crate::pattern::Pattern;

verus! {

/// The maximum number of patterns that can be applied to a banner without
/// the use of commands.
pub const MAX_PATTERNS_SURVIVAL: usize = 6;

/// The maximum number of patterns that can be applied to a banner, even with
/// the use of commands.
pub const MAX_PATTERNS_COMMANDS: usize = 16;

/// How a banner is being composed, which decides how many patterns fit on
/// it.
#[derive(Clone, Copy, PartialEq, Eq, Debug, Structural)]
pub enum BannerMode {
    /// Composition through a crafting-station interaction, capped at
    /// [`MAX_PATTERNS_SURVIVAL`] patterns.
    Restricted,
    /// Composition through a scripted or administrative path, capped at
    /// [`MAX_PATTERNS_COMMANDS`] patterns.
    Extended,
}

/// The capacity granted by the given composition mode.
pub open spec fn spec_capacity(mode: BannerMode) -> usize {
    match mode {
        BannerMode::Restricted => MAX_PATTERNS_SURVIVAL,
        BannerMode::Extended => MAX_PATTERNS_COMMANDS,
    }
}

/// Returns the number of patterns a banner may hold when composed in the
/// given mode.
pub fn capacity_for(mode: BannerMode) -> (r: usize)
    ensures
        r == spec_capacity(mode),
{
    match mode {
        BannerMode::Restricted => MAX_PATTERNS_SURVIVAL,
        BannerMode::Extended => MAX_PATTERNS_COMMANDS,
    }
}

/// Extended composition always fits at least as many patterns as restricted
/// composition; in the current configuration, strictly more.
pub proof fn lemma_extended_capacity_exceeds_restricted()
    ensures
        spec_capacity(BannerMode::Extended) > spec_capacity(BannerMode::Restricted),
{
}

/// The one failure a banner can report: appending a layer would exceed the
/// capacity of the composition mode in use.
#[derive(Clone, Copy, PartialEq, Eq, Debug, Structural)]
pub enum BannerError {
    CapacityExceeded,
}

/// A Minecraft banner design.
pub struct Banner {
    /// The base color of the banner.
    color: DyeColor,
    /// The patterns applied to the banner, bottom to top.
    patterns: Vec<(Pattern, DyeColor)>,
}

impl Banner {
    /// The base color of the banner.
    pub closed spec fn spec_color(self) -> DyeColor {
        self.color
    }

    /// The patterns applied to the banner, bottom to top.
    pub closed spec fn spec_patterns(self) -> Seq<(Pattern, DyeColor)> {
        self.patterns@
    }

    /// A banner never holds more patterns than even the most permissive
    /// composition mode grants.
    pub open spec fn wf(self) -> bool {
        self.spec_patterns().len() <= MAX_PATTERNS_COMMANDS
    }

    /// Creates a new banner of the given color with no patterns applied.
    pub fn new(color: DyeColor) -> (r: Self)
        ensures
            r.spec_color() == color,
            r.spec_patterns() == Seq::<(Pattern, DyeColor)>::empty(),
            r.wf(),
    {
        Self { color, patterns: Vec::new() }
    }

    /// Returns the base color of the banner.
    pub fn color(&self) -> (r: DyeColor)
        ensures
            r == self.spec_color(),
    {
        self.color
    }

    /// Replaces the base color of the banner, leaving its patterns as they
    /// are.
    pub fn set_color(&mut self, color: DyeColor)
        ensures
            final(self).spec_color() == color,
            final(self).spec_patterns() == old(self).spec_patterns(),
    {
        self.color = color;
    }

    /// Returns a read-only view of the patterns applied to the banner,
    /// bottom to top.
    pub fn patterns(&self) -> (r: &Vec<(Pattern, DyeColor)>)
        ensures
            r@ == self.spec_patterns(),
    {
        &self.patterns
    }

    /// Appends `(pattern, color)` on top of the banner's pattern stack, if
    /// the capacity granted by `mode` still has room for it; otherwise
    /// reports [`BannerError::CapacityExceeded`] and leaves the banner
    /// untouched.
    pub fn append_layer(&mut self, pattern: Pattern, color: DyeColor, mode: BannerMode) -> (r:
        Result<(), BannerError>)
        ensures
            r is Ok <==> old(self).spec_patterns().len() < spec_capacity(mode),
            r is Ok ==> final(self).spec_patterns() == old(self).spec_patterns().push(
                (pattern, color),
            ),
            r is Err ==> *final(self) == *old(self) && r == Err::<(), BannerError>(
                BannerError::CapacityExceeded,
            ),
            final(self).spec_color() == old(self).spec_color(),
            old(self).wf() ==> final(self).wf(),
    {
        if self.patterns.len() < capacity_for(mode) {
            self.patterns.push((pattern, color));
            Ok(())
        } else {
            Err(BannerError::CapacityExceeded)
        }
    }

    /// Returns the identifier for the banner based on its color.
    ///
    /// This is used in commands to specify the base color of the banner, and
    /// in lang files to translate the name of the banner.
    pub fn identifier(&self) -> (r: &'static str)
        ensures
            r@ == spec_banner_identifier(self.spec_color()),
    {
        match self.color {
            DyeColor::White => "white_banner",
            DyeColor::Orange => "orange_banner",
            DyeColor::Magenta => "magenta_banner",
            DyeColor::LightBlue => "light_blue_banner",

            DyeColor::Yellow => "yellow_banner",
            DyeColor::Lime => "lime_banner",
            DyeColor::Pink => "pink_banner",
            DyeColor::Gray => "gray_banner",

            DyeColor::LightGray => "light_gray_banner",
            DyeColor::Cyan => "cyan_banner",
            DyeColor::Purple => "purple_banner",
            DyeColor::Blue => "blue_banner",

            DyeColor::Brown => "brown_banner",
            DyeColor::Green => "green_banner",
            DyeColor::Red => "red_banner",
            DyeColor::Black => "black_banner",
        }
    }

    /// Returns the identifier used in lang files to translate the name of
    /// this banner.
    pub fn lang_identifier(&self) -> (r: String)
        ensures
            r@ == "block.minecraft."@ + spec_banner_identifier(self.spec_color()),
    {
        String::from_str("block.minecraft.").concat(self.identifier())
    }
}

/// The identifier of a banner whose base color is `color`.
pub open spec fn spec_banner_identifier(color: DyeColor) -> Seq<char> {
    match color {
        DyeColor::White => "white_banner"@,
        DyeColor::Orange => "orange_banner"@,
        DyeColor::Magenta => "magenta_banner"@,
        DyeColor::LightBlue => "light_blue_banner"@,

        DyeColor::Yellow => "yellow_banner"@,
        DyeColor::Lime => "lime_banner"@,
        DyeColor::Pink => "pink_banner"@,
        DyeColor::Gray => "gray_banner"@,

        DyeColor::LightGray => "light_gray_banner"@,
        DyeColor::Cyan => "cyan_banner"@,
        DyeColor::Purple => "purple_banner"@,
        DyeColor::Blue => "blue_banner"@,

        DyeColor::Brown => "brown_banner"@,
        DyeColor::Green => "green_banner"@,
        DyeColor::Red => "red_banner"@,
        DyeColor::Black => "black_banner"@,
    }
}

/// A banner's identifier is its base color's identifier followed by the
/// fixed `_banner` suffix.
pub proof fn lemma_banner_identifier_composition()
    ensures
        forall|c: DyeColor| #[trigger] spec_banner_identifier(c) == c.spec_identifier()
            + "_banner"@,
{
    reveal_strlit("_banner");
    reveal_strlit("white");
    reveal_strlit("white_banner");
    reveal_strlit("orange");
    reveal_strlit("orange_banner");
    reveal_strlit("magenta");
    reveal_strlit("magenta_banner");
    reveal_strlit("light_blue");
    reveal_strlit("light_blue_banner");
    reveal_strlit("yellow");
    reveal_strlit("yellow_banner");
    reveal_strlit("lime");
    reveal_strlit("lime_banner");
    reveal_strlit("pink");
    reveal_strlit("pink_banner");
    reveal_strlit("gray");
    reveal_strlit("gray_banner");
    reveal_strlit("light_gray");
    reveal_strlit("light_gray_banner");
    reveal_strlit("cyan");
    reveal_strlit("cyan_banner");
    reveal_strlit("purple");
    reveal_strlit("purple_banner");
    reveal_strlit("blue");
    reveal_strlit("blue_banner");
    reveal_strlit("brown");
    reveal_strlit("brown_banner");
    reveal_strlit("green");
    reveal_strlit("green_banner");
    reveal_strlit("red");
    reveal_strlit("red_banner");
    reveal_strlit("black");
    reveal_strlit("black_banner");
    assert("white_banner"@ =~= "white"@ + "_banner"@);
    assert("orange_banner"@ =~= "orange"@ + "_banner"@);
    assert("magenta_banner"@ =~= "magenta"@ + "_banner"@);
    assert("light_blue_banner"@ =~= "light_blue"@ + "_banner"@);
    assert("yellow_banner"@ =~= "yellow"@ + "_banner"@);
    assert("lime_banner"@ =~= "lime"@ + "_banner"@);
    assert("pink_banner"@ =~= "pink"@ + "_banner"@);
    assert("gray_banner"@ =~= "gray"@ + "_banner"@);
    assert("light_gray_banner"@ =~= "light_gray"@ + "_banner"@);
    assert("cyan_banner"@ =~= "cyan"@ + "_banner"@);
    assert("purple_banner"@ =~= "purple"@ + "_banner"@);
    assert("blue_banner"@ =~= "blue"@ + "_banner"@);
    assert("brown_banner"@ =~= "brown"@ + "_banner"@);
    assert("green_banner"@ =~= "green"@ + "_banner"@);
    assert("red_banner"@ =~= "red"@ + "_banner"@);
    assert("black_banner"@ =~= "black"@ + "_banner"@);
}

} // verus!
