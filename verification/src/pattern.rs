//! The catalog of banner patterns: each pattern has an identifier by which
//! its texture and localized name are found, a short token used in compact
//! command encodings, and a classification saying whether a special banner
//! pattern item is needed to select it in a loom, and on which editions.

use vstd::prelude::*;
use vstd::string::StringExecFns;

use crate::dye_color::DyeColor;

verus! {

/// A pattern that can be placed on a banner.
#[derive(Clone, Copy, PartialEq, Eq, Hash, Debug, Structural)]
pub enum Pattern {
    Base,

    SquareBottomLeft,
    SquareBottomRight,

    SquareTopLeft,
    SquareTopRight,

    StripeBottom,
    StripeTop,

    StripeLeft,
    StripeRight,

    StripeCenter,
    StripeMiddle,

    StripeDownright,
    StripeDownleft,

    SmallStripes,

    Cross,
    StraightCross,

    TriangleBottom,
    TriangleTop,

    TrianglesBottom,
    TrianglesTop,

    DiagonalLeft,
    DiagonalRight,

    DiagonalUpLeft,
    DiagonalUpRight,

    Circle,
    Rhombus,

    HalfVertical,
    HalfHorizontal,

    HalfVerticalRight,
    HalfHorizontalBottom,

    Border,
    CurlyBorder,

    Gradient,
    GradientUp,

    Bricks,

    Globe,
    Creeper,
    Skull,
    Flower,
    Mojang,
    Piglin,
}

/// The banner pattern item required, if any, to select a particular pattern
/// in a loom.
pub enum BannerPatternItem {
    /// No banner pattern item is required to use this pattern in a loom.
    NoItem,
    /// A banner pattern item is required to use this pattern in a loom only
    /// on Bedrock Edition.
    BedrockOnly { id: String },
    /// A banner pattern item is required to use this pattern in a loom on
    /// all editions.
    AllEditions { id: String },
}

/// The mathematical shape of a required-item classification: the same three
/// cases as [`BannerPatternItem`], with the item identifier as a sequence of
/// characters.
pub enum ItemRequirement {
    NoItem,
    BedrockOnly { id: Seq<char> },
    AllEditions { id: Seq<char> },
}

impl View for BannerPatternItem {
    type V = ItemRequirement;

    open spec fn view(&self) -> ItemRequirement {
        match self {
            BannerPatternItem::NoItem => ItemRequirement::NoItem,
            BannerPatternItem::BedrockOnly { id } => ItemRequirement::BedrockOnly { id: id@ },
            BannerPatternItem::AllEditions { id } => ItemRequirement::AllEditions { id: id@ },
        }
    }
}

impl Pattern {
    /// The identifier of this pattern, by which its texture and localized
    /// name are found.
    pub open spec fn spec_identifier(self) -> Seq<char> {
        match self {
            Pattern::Base => "base"@,
            Pattern::SquareBottomLeft => "square_bottom_left"@,
            Pattern::SquareBottomRight => "square_bottom_right"@,
            Pattern::SquareTopLeft => "square_top_left"@,
            Pattern::SquareTopRight => "square_top_right"@,
            Pattern::StripeBottom => "stripe_bottom"@,
            Pattern::StripeTop => "stripe_top"@,
            Pattern::StripeLeft => "stripe_left"@,
            Pattern::StripeRight => "stripe_right"@,
            Pattern::StripeCenter => "stripe_center"@,
            Pattern::StripeMiddle => "stripe_middle"@,
            Pattern::StripeDownright => "stripe_downright"@,
            Pattern::StripeDownleft => "stripe_downleft"@,
            Pattern::SmallStripes => "small_stripes"@,
            Pattern::Cross => "cross"@,
            Pattern::StraightCross => "straight_cross"@,
            Pattern::TriangleBottom => "triangle_bottom"@,
            Pattern::TriangleTop => "triangle_top"@,
            Pattern::TrianglesBottom => "triangles_bottom"@,
            Pattern::TrianglesTop => "triangles_top"@,
            Pattern::DiagonalLeft => "diagonal_left"@,
            Pattern::DiagonalRight => "diagonal_right"@,
            Pattern::DiagonalUpLeft => "diagonal_up_left"@,
            Pattern::DiagonalUpRight => "diagonal_up_right"@,
            Pattern::Circle => "circle"@,
            Pattern::Rhombus => "rhombus"@,
            Pattern::HalfVertical => "half_vertical_bottom"@,
            Pattern::HalfHorizontal => "half_horizontal"@,
            Pattern::HalfVerticalRight => "half_vertical_right"@,
            Pattern::HalfHorizontalBottom => "half_horizontal_bottom"@,
            Pattern::Border => "border"@,
            Pattern::CurlyBorder => "curly_border"@,
            Pattern::Gradient => "gradient"@,
            Pattern::GradientUp => "gradient_up"@,
            Pattern::Bricks => "bricks"@,
            Pattern::Globe => "globe"@,
            Pattern::Creeper => "creeper"@,
            Pattern::Skull => "skull"@,
            Pattern::Flower => "flower"@,
            Pattern::Mojang => "mojang"@,
            Pattern::Piglin => "piglin"@,
        }
    }

    /// The short token used to refer to this pattern in commands.
    pub open spec fn spec_id(self) -> Seq<char> {
        match self {
            Pattern::Base => "b"@,
            Pattern::SquareBottomLeft => "bl"@,
            Pattern::SquareBottomRight => "br"@,
            Pattern::SquareTopLeft => "tl"@,
            Pattern::SquareTopRight => "tr"@,
            Pattern::StripeBottom => "bs"@,
            Pattern::StripeTop => "ts"@,
            Pattern::StripeLeft => "ls"@,
            Pattern::StripeRight => "rs"@,
            Pattern::StripeCenter => "cs"@,
            Pattern::StripeMiddle => "ms"@,
            Pattern::StripeDownright => "drs"@,
            Pattern::StripeDownleft => "dls"@,
            Pattern::SmallStripes => "ss"@,
            Pattern::Cross => "cr"@,
            Pattern::StraightCross => "sc"@,
            Pattern::TriangleBottom => "bt"@,
            Pattern::TriangleTop => "tt"@,
            Pattern::TrianglesBottom => "bts"@,
            Pattern::TrianglesTop => "tts"@,
            Pattern::DiagonalLeft => "ld"@,
            Pattern::DiagonalRight => "rd"@,
            Pattern::DiagonalUpLeft => "lud"@,
            Pattern::DiagonalUpRight => "rud"@,
            Pattern::Circle => "mc"@,
            Pattern::Rhombus => "mr"@,
            Pattern::HalfVertical => "vh"@,
            Pattern::HalfHorizontal => "hh"@,
            Pattern::HalfVerticalRight => "vhr"@,
            Pattern::HalfHorizontalBottom => "hhb"@,
            Pattern::Border => "bo"@,
            Pattern::CurlyBorder => "cbo"@,
            Pattern::Gradient => "gra"@,
            Pattern::GradientUp => "gru"@,
            Pattern::Bricks => "bri"@,
            Pattern::Globe => "glb"@,
            Pattern::Creeper => "cre"@,
            Pattern::Skull => "sku"@,
            Pattern::Flower => "flo"@,
            Pattern::Mojang => "moj"@,
            Pattern::Piglin => "pig"@,
        }
    }

    /// The banner pattern item required, if any, to select this pattern in a
    /// loom.
    pub open spec fn spec_required_item(self) -> ItemRequirement {
        match self {
            Pattern::CurlyBorder => ItemRequirement::BedrockOnly { id: "bordure_indented_banner_pattern"@ },
            Pattern::Bricks => ItemRequirement::BedrockOnly { id: "field_masoned_banner_pattern"@ },
            Pattern::Globe => ItemRequirement::AllEditions { id: "globe_banner_pattern"@ },
            Pattern::Creeper => ItemRequirement::AllEditions { id: "creeper_banner_pattern"@ },
            Pattern::Skull => ItemRequirement::AllEditions { id: "skull_banner_pattern"@ },
            Pattern::Flower => ItemRequirement::AllEditions { id: "flower_banner_pattern"@ },
            Pattern::Mojang => ItemRequirement::AllEditions { id: "mojang_banner_pattern"@ },
            Pattern::Piglin => ItemRequirement::AllEditions { id: "piglin_banner_pattern"@ },
            _ => ItemRequirement::NoItem,
        }
    }

    /// The identifier of the required banner pattern item, if any.
    pub open spec fn spec_required_item_id(self) -> Option<Seq<char>> {
        match self.spec_required_item() {
            ItemRequirement::NoItem => None,
            ItemRequirement::BedrockOnly { id } => Some(id),
            ItemRequirement::AllEditions { id } => Some(id),
        }
    }

    /// Returns the name of the pattern, by which its texture can be located.
    pub fn identifier(&self) -> (r: &'static str)
        ensures
            r@ == self.spec_identifier(),
    {
        match self {
            Pattern::Base => "base",
            Pattern::SquareBottomLeft => "square_bottom_left",
            Pattern::SquareBottomRight => "square_bottom_right",
            Pattern::SquareTopLeft => "square_top_left",
            Pattern::SquareTopRight => "square_top_right",
            Pattern::StripeBottom => "stripe_bottom",
            Pattern::StripeTop => "stripe_top",
            Pattern::StripeLeft => "stripe_left",
            Pattern::StripeRight => "stripe_right",
            Pattern::StripeCenter => "stripe_center",
            Pattern::StripeMiddle => "stripe_middle",
            Pattern::StripeDownright => "stripe_downright",
            Pattern::StripeDownleft => "stripe_downleft",
            Pattern::SmallStripes => "small_stripes",
            Pattern::Cross => "cross",
            Pattern::StraightCross => "straight_cross",
            Pattern::TriangleBottom => "triangle_bottom",
            Pattern::TriangleTop => "triangle_top",
            Pattern::TrianglesBottom => "triangles_bottom",
            Pattern::TrianglesTop => "triangles_top",
            Pattern::DiagonalLeft => "diagonal_left",
            Pattern::DiagonalRight => "diagonal_right",
            Pattern::DiagonalUpLeft => "diagonal_up_left",
            Pattern::DiagonalUpRight => "diagonal_up_right",
            Pattern::Circle => "circle",
            Pattern::Rhombus => "rhombus",
            Pattern::HalfVertical => "half_vertical_bottom",
            Pattern::HalfHorizontal => "half_horizontal",
            Pattern::HalfVerticalRight => "half_vertical_right",
            Pattern::HalfHorizontalBottom => "half_horizontal_bottom",
            Pattern::Border => "border",
            Pattern::CurlyBorder => "curly_border",
            Pattern::Gradient => "gradient",
            Pattern::GradientUp => "gradient_up",
            Pattern::Bricks => "bricks",
            Pattern::Globe => "globe",
            Pattern::Creeper => "creeper",
            Pattern::Skull => "skull",
            Pattern::Flower => "flower",
            Pattern::Mojang => "mojang",
            Pattern::Piglin => "piglin",
        }
    }

    /// Returns the name of the pattern, by which its texture can be located.
    pub fn name(&self) -> (r: &'static str)
        ensures
            r@ == self.spec_identifier(),
    {
        self.identifier()
    }

    /// Returns the pattern ID used to refer to the pattern in commands.
    pub fn id(&self) -> (r: &'static str)
        ensures
            r@ == self.spec_id(),
    {
        match self {
            Pattern::Base => "b",
            Pattern::SquareBottomLeft => "bl",
            Pattern::SquareBottomRight => "br",
            Pattern::SquareTopLeft => "tl",
            Pattern::SquareTopRight => "tr",
            Pattern::StripeBottom => "bs",
            Pattern::StripeTop => "ts",
            Pattern::StripeLeft => "ls",
            Pattern::StripeRight => "rs",
            Pattern::StripeCenter => "cs",
            Pattern::StripeMiddle => "ms",
            Pattern::StripeDownright => "drs",
            Pattern::StripeDownleft => "dls",
            Pattern::SmallStripes => "ss",
            Pattern::Cross => "cr",
            Pattern::StraightCross => "sc",
            Pattern::TriangleBottom => "bt",
            Pattern::TriangleTop => "tt",
            Pattern::TrianglesBottom => "bts",
            Pattern::TrianglesTop => "tts",
            Pattern::DiagonalLeft => "ld",
            Pattern::DiagonalRight => "rd",
            Pattern::DiagonalUpLeft => "lud",
            Pattern::DiagonalUpRight => "rud",
            Pattern::Circle => "mc",
            Pattern::Rhombus => "mr",
            Pattern::HalfVertical => "vh",
            Pattern::HalfHorizontal => "hh",
            Pattern::HalfVerticalRight => "vhr",
            Pattern::HalfHorizontalBottom => "hhb",
            Pattern::Border => "bo",
            Pattern::CurlyBorder => "cbo",
            Pattern::Gradient => "gra",
            Pattern::GradientUp => "gru",
            Pattern::Bricks => "bri",
            Pattern::Globe => "glb",
            Pattern::Creeper => "cre",
            Pattern::Skull => "sku",
            Pattern::Flower => "flo",
            Pattern::Mojang => "moj",
            Pattern::Piglin => "pig",
        }
    }

    /// Returns the banner pattern required, if any, to select this pattern
    /// in a loom.
    ///
    /// See [`BannerPatternItem`] for more information.
    pub fn banner_pattern_item_required(&self) -> (r: BannerPatternItem)
        ensures
            r@ == self.spec_required_item(),
    {
        match self {
            Pattern::CurlyBorder => BannerPatternItem::BedrockOnly {
                id: "bordure_indented_banner_pattern".to_owned(),
            },
            Pattern::Bricks => BannerPatternItem::BedrockOnly {
                id: "field_masoned_banner_pattern".to_owned(),
            },
            Pattern::Globe => BannerPatternItem::AllEditions {
                id: "globe_banner_pattern".to_owned(),
            },
            Pattern::Creeper => BannerPatternItem::AllEditions {
                id: "creeper_banner_pattern".to_owned(),
            },
            Pattern::Skull => BannerPatternItem::AllEditions {
                id: "skull_banner_pattern".to_owned(),
            },
            Pattern::Flower => BannerPatternItem::AllEditions {
                id: "flower_banner_pattern".to_owned(),
            },
            Pattern::Mojang => BannerPatternItem::AllEditions {
                id: "mojang_banner_pattern".to_owned(),
            },
            Pattern::Piglin => BannerPatternItem::AllEditions {
                id: "piglin_banner_pattern".to_owned(),
            },
            _ => BannerPatternItem::NoItem,
        }
    }

    /// Returns the banner pattern required, if any, to select this pattern
    /// in a loom.
    ///
    /// See [`BannerPatternItem`] for more information.
    pub fn banner_pattern_item(&self) -> (r: BannerPatternItem)
        ensures
            r@ == self.spec_required_item(),
    {
        self.banner_pattern_item_required()
    }
}

/// Returns the pattern ID used to refer to the pattern in commands.
pub fn pattern_id(pattern: Pattern) -> (r: String)
    ensures
        r@ == pattern.spec_id(),
{
    pattern.id().to_owned()
}

/// Returns the identifier used in lang files to translate the name of this
/// pattern of the given color.
pub fn pattern_lang_identifier(pattern: Pattern, color: DyeColor) -> (r: String)
    ensures
        r@ == "block.minecraft.banner."@ + pattern.spec_identifier() + "."@
            + color.spec_identifier(),
{
    let mut key = String::from_str("block.minecraft.banner.");
    key.append(pattern.identifier());
    key.append(".");
    key.append(color.identifier());
    key
}

/// The required banner pattern item of a pattern, flattened for a host
/// runtime that has no tagged variants: the item identifier if one is
/// required, and the editions on which it is required.
pub struct JsBannerPatternItem {
    /// The identifier of the banner pattern item that is required.
    identifier: Option<String>,

    /// Whether the banner pattern item is required on all editions, or just
    /// Bedrock Edition.
    ///
    /// `true` means the banner pattern item is required on both Java Edition
    /// and Bedrock Edition.
    ///
    /// `false` means the banner pattern item is only required on Bedrock
    /// Edition.
    all_editions: bool,
}

impl JsBannerPatternItem {
    /// The identifier of the required item, if any.
    pub closed spec fn spec_identifier(&self) -> Option<Seq<char>> {
        self.identifier.deep_view()
    }

    /// Whether the item is required on all editions.
    pub closed spec fn spec_all_editions(&self) -> bool {
        self.all_editions
    }

    /// Returns the identifier of the banner pattern item that is required.
    pub fn identifier(&self) -> (r: Option<String>)
        ensures
            r.deep_view() == self.spec_identifier(),
    {
        match &self.identifier {
            Some(id) => Some(id.clone()),
            None => None,
        }
    }

    /// Returns whether the banner pattern item is required on all editions,
    /// or just Bedrock Edition.
    pub fn all_editions(&self) -> (r: bool)
        ensures
            r == self.spec_all_editions(),
    {
        self.all_editions
    }
}

/// Returns the banner pattern required, if any, to select this pattern in a
/// loom.
pub fn js_banner_pattern_item(pattern: Pattern) -> (r: JsBannerPatternItem)
    ensures
        r.spec_identifier() == pattern.spec_required_item_id(),
        r.spec_all_editions() == !(pattern.spec_required_item() is BedrockOnly),
{
    match pattern.banner_pattern_item_required() {
        BannerPatternItem::NoItem => JsBannerPatternItem { identifier: None, all_editions: true },
        BannerPatternItem::BedrockOnly { id } => JsBannerPatternItem {
            identifier: Some(id),
            all_editions: false,
        },
        BannerPatternItem::AllEditions { id } => JsBannerPatternItem {
            identifier: Some(id),
            all_editions: true,
        },
    }
}

/// No two distinct patterns share an identifier.
#[verifier::rlimit(60)]
pub proof fn lemma_pattern_identifier_distinct()
    ensures
        forall|p1: Pattern, p2: Pattern|
            #![trigger p1.spec_identifier(), p2.spec_identifier()]
            p1.spec_identifier() == p2.spec_identifier() ==> p1 == p2,
{
    reveal_strlit("base");
    reveal_strlit("square_bottom_left");
    reveal_strlit("square_bottom_right");
    reveal_strlit("square_top_left");
    reveal_strlit("square_top_right");
    reveal_strlit("stripe_bottom");
    reveal_strlit("stripe_top");
    reveal_strlit("stripe_left");
    reveal_strlit("stripe_right");
    reveal_strlit("stripe_center");
    reveal_strlit("stripe_middle");
    reveal_strlit("stripe_downright");
    reveal_strlit("stripe_downleft");
    reveal_strlit("small_stripes");
    reveal_strlit("cross");
    reveal_strlit("straight_cross");
    reveal_strlit("triangle_bottom");
    reveal_strlit("triangle_top");
    reveal_strlit("triangles_bottom");
    reveal_strlit("triangles_top");
    reveal_strlit("diagonal_left");
    reveal_strlit("diagonal_right");
    reveal_strlit("diagonal_up_left");
    reveal_strlit("diagonal_up_right");
    reveal_strlit("circle");
    reveal_strlit("rhombus");
    reveal_strlit("half_vertical_bottom");
    reveal_strlit("half_horizontal");
    reveal_strlit("half_vertical_right");
    reveal_strlit("half_horizontal_bottom");
    reveal_strlit("border");
    reveal_strlit("curly_border");
    reveal_strlit("gradient");
    reveal_strlit("gradient_up");
    reveal_strlit("bricks");
    reveal_strlit("globe");
    reveal_strlit("creeper");
    reveal_strlit("skull");
    reveal_strlit("flower");
    reveal_strlit("mojang");
    reveal_strlit("piglin");
    assert("base"@.len() == 4 && "base"@[0] == 'b' && "base"@[1] == 'a');
    assert("square_bottom_left"@.len() == 18 && "square_bottom_left"@[0] == 's' && "square_bottom_left"@[1] == 'q');
    assert("square_bottom_right"@.len() == 19 && "square_bottom_right"@[0] == 's' && "square_bottom_right"@[1] == 'q');
    assert("square_top_left"@.len() == 15 && "square_top_left"@[0] == 's' && "square_top_left"@[1] == 'q');
    assert("square_top_right"@.len() == 16 && "square_top_right"@[0] == 's' && "square_top_right"@[1] == 'q');
    assert("stripe_bottom"@.len() == 13 && "stripe_bottom"@[0] == 's' && "stripe_bottom"@[1] == 't' && "stripe_bottom"@[7] == 'b');
    assert("stripe_top"@.len() == 10 && "stripe_top"@[0] == 's' && "stripe_top"@[1] == 't');
    assert("stripe_left"@.len() == 11 && "stripe_left"@[0] == 's' && "stripe_left"@[1] == 't');
    assert("stripe_right"@.len() == 12 && "stripe_right"@[0] == 's' && "stripe_right"@[1] == 't');
    assert("stripe_center"@.len() == 13 && "stripe_center"@[0] == 's' && "stripe_center"@[1] == 't' && "stripe_center"@[7] == 'c');
    assert("stripe_middle"@.len() == 13 && "stripe_middle"@[0] == 's' && "stripe_middle"@[1] == 't' && "stripe_middle"@[7] == 'm');
    assert("stripe_downright"@.len() == 16 && "stripe_downright"@[0] == 's' && "stripe_downright"@[1] == 't');
    assert("stripe_downleft"@.len() == 15 && "stripe_downleft"@[0] == 's' && "stripe_downleft"@[1] == 't');
    assert("small_stripes"@.len() == 13 && "small_stripes"@[0] == 's' && "small_stripes"@[1] == 'm');
    assert("cross"@.len() == 5 && "cross"@[0] == 'c' && "cross"@[1] == 'r');
    assert("straight_cross"@.len() == 14 && "straight_cross"@[0] == 's' && "straight_cross"@[1] == 't');
    assert("triangle_bottom"@.len() == 15 && "triangle_bottom"@[0] == 't' && "triangle_bottom"@[1] == 'r');
    assert("triangle_top"@.len() == 12 && "triangle_top"@[0] == 't' && "triangle_top"@[1] == 'r');
    assert("triangles_bottom"@.len() == 16 && "triangles_bottom"@[0] == 't' && "triangles_bottom"@[1] == 'r');
    assert("triangles_top"@.len() == 13 && "triangles_top"@[0] == 't' && "triangles_top"@[1] == 'r');
    assert("diagonal_left"@.len() == 13 && "diagonal_left"@[0] == 'd' && "diagonal_left"@[1] == 'i');
    assert("diagonal_right"@.len() == 14 && "diagonal_right"@[0] == 'd' && "diagonal_right"@[1] == 'i');
    assert("diagonal_up_left"@.len() == 16 && "diagonal_up_left"@[0] == 'd' && "diagonal_up_left"@[1] == 'i');
    assert("diagonal_up_right"@.len() == 17 && "diagonal_up_right"@[0] == 'd' && "diagonal_up_right"@[1] == 'i');
    assert("circle"@.len() == 6 && "circle"@[0] == 'c' && "circle"@[1] == 'i');
    assert("rhombus"@.len() == 7 && "rhombus"@[0] == 'r' && "rhombus"@[1] == 'h');
    assert("half_vertical_bottom"@.len() == 20 && "half_vertical_bottom"@[0] == 'h' && "half_vertical_bottom"@[1] == 'a');
    assert("half_horizontal"@.len() == 15 && "half_horizontal"@[0] == 'h' && "half_horizontal"@[1] == 'a');
    assert("half_vertical_right"@.len() == 19 && "half_vertical_right"@[0] == 'h' && "half_vertical_right"@[1] == 'a');
    assert("half_horizontal_bottom"@.len() == 22 && "half_horizontal_bottom"@[0] == 'h' && "half_horizontal_bottom"@[1] == 'a');
    assert("border"@.len() == 6 && "border"@[0] == 'b' && "border"@[1] == 'o');
    assert("curly_border"@.len() == 12 && "curly_border"@[0] == 'c' && "curly_border"@[1] == 'u');
    assert("gradient"@.len() == 8 && "gradient"@[0] == 'g' && "gradient"@[1] == 'r');
    assert("gradient_up"@.len() == 11 && "gradient_up"@[0] == 'g' && "gradient_up"@[1] == 'r');
    assert("bricks"@.len() == 6 && "bricks"@[0] == 'b' && "bricks"@[1] == 'r');
    assert("globe"@.len() == 5 && "globe"@[0] == 'g' && "globe"@[1] == 'l');
    assert("creeper"@.len() == 7 && "creeper"@[0] == 'c' && "creeper"@[1] == 'r');
    assert("skull"@.len() == 5 && "skull"@[0] == 's' && "skull"@[1] == 'k');
    assert("flower"@.len() == 6 && "flower"@[0] == 'f' && "flower"@[1] == 'l');
    assert("mojang"@.len() == 6 && "mojang"@[0] == 'm' && "mojang"@[1] == 'o');
    assert("piglin"@.len() == 6 && "piglin"@[0] == 'p' && "piglin"@[1] == 'i');
}

/// No two distinct patterns share a short command token.
#[verifier::rlimit(60)]
pub proof fn lemma_pattern_id_distinct()
    ensures
        forall|p1: Pattern, p2: Pattern|
            #![trigger p1.spec_id(), p2.spec_id()]
            p1.spec_id() == p2.spec_id() ==> p1 == p2,
{
    reveal_strlit("b");
    reveal_strlit("bl");
    reveal_strlit("br");
    reveal_strlit("tl");
    reveal_strlit("tr");
    reveal_strlit("bs");
    reveal_strlit("ts");
    reveal_strlit("ls");
    reveal_strlit("rs");
    reveal_strlit("cs");
    reveal_strlit("ms");
    reveal_strlit("drs");
    reveal_strlit("dls");
    reveal_strlit("ss");
    reveal_strlit("cr");
    reveal_strlit("sc");
    reveal_strlit("bt");
    reveal_strlit("tt");
    reveal_strlit("bts");
    reveal_strlit("tts");
    reveal_strlit("ld");
    reveal_strlit("rd");
    reveal_strlit("lud");
    reveal_strlit("rud");
    reveal_strlit("mc");
    reveal_strlit("mr");
    reveal_strlit("vh");
    reveal_strlit("hh");
    reveal_strlit("vhr");
    reveal_strlit("hhb");
    reveal_strlit("bo");
    reveal_strlit("cbo");
    reveal_strlit("gra");
    reveal_strlit("gru");
    reveal_strlit("bri");
    reveal_strlit("glb");
    reveal_strlit("cre");
    reveal_strlit("sku");
    reveal_strlit("flo");
    reveal_strlit("moj");
    reveal_strlit("pig");
    assert("b"@.len() == 1 && "b"@[0] == 'b');
    assert("bl"@.len() == 2 && "bl"@[0] == 'b' && "bl"@[1] == 'l');
    assert("br"@.len() == 2 && "br"@[0] == 'b' && "br"@[1] == 'r');
    assert("tl"@.len() == 2 && "tl"@[0] == 't' && "tl"@[1] == 'l');
    assert("tr"@.len() == 2 && "tr"@[0] == 't' && "tr"@[1] == 'r');
    assert("bs"@.len() == 2 && "bs"@[0] == 'b' && "bs"@[1] == 's');
    assert("ts"@.len() == 2 && "ts"@[0] == 't' && "ts"@[1] == 's');
    assert("ls"@.len() == 2 && "ls"@[0] == 'l' && "ls"@[1] == 's');
    assert("rs"@.len() == 2 && "rs"@[0] == 'r' && "rs"@[1] == 's');
    assert("cs"@.len() == 2 && "cs"@[0] == 'c' && "cs"@[1] == 's');
    assert("ms"@.len() == 2 && "ms"@[0] == 'm' && "ms"@[1] == 's');
    assert("drs"@.len() == 3 && "drs"@[0] == 'd' && "drs"@[1] == 'r' && "drs"@[2] == 's');
    assert("dls"@.len() == 3 && "dls"@[0] == 'd' && "dls"@[1] == 'l' && "dls"@[2] == 's');
    assert("ss"@.len() == 2 && "ss"@[0] == 's' && "ss"@[1] == 's');
    assert("cr"@.len() == 2 && "cr"@[0] == 'c' && "cr"@[1] == 'r');
    assert("sc"@.len() == 2 && "sc"@[0] == 's' && "sc"@[1] == 'c');
    assert("bt"@.len() == 2 && "bt"@[0] == 'b' && "bt"@[1] == 't');
    assert("tt"@.len() == 2 && "tt"@[0] == 't' && "tt"@[1] == 't');
    assert("bts"@.len() == 3 && "bts"@[0] == 'b' && "bts"@[1] == 't' && "bts"@[2] == 's');
    assert("tts"@.len() == 3 && "tts"@[0] == 't' && "tts"@[1] == 't' && "tts"@[2] == 's');
    assert("ld"@.len() == 2 && "ld"@[0] == 'l' && "ld"@[1] == 'd');
    assert("rd"@.len() == 2 && "rd"@[0] == 'r' && "rd"@[1] == 'd');
    assert("lud"@.len() == 3 && "lud"@[0] == 'l' && "lud"@[1] == 'u' && "lud"@[2] == 'd');
    assert("rud"@.len() == 3 && "rud"@[0] == 'r' && "rud"@[1] == 'u' && "rud"@[2] == 'd');
    assert("mc"@.len() == 2 && "mc"@[0] == 'm' && "mc"@[1] == 'c');
    assert("mr"@.len() == 2 && "mr"@[0] == 'm' && "mr"@[1] == 'r');
    assert("vh"@.len() == 2 && "vh"@[0] == 'v' && "vh"@[1] == 'h');
    assert("hh"@.len() == 2 && "hh"@[0] == 'h' && "hh"@[1] == 'h');
    assert("vhr"@.len() == 3 && "vhr"@[0] == 'v' && "vhr"@[1] == 'h' && "vhr"@[2] == 'r');
    assert("hhb"@.len() == 3 && "hhb"@[0] == 'h' && "hhb"@[1] == 'h' && "hhb"@[2] == 'b');
    assert("bo"@.len() == 2 && "bo"@[0] == 'b' && "bo"@[1] == 'o');
    assert("cbo"@.len() == 3 && "cbo"@[0] == 'c' && "cbo"@[1] == 'b' && "cbo"@[2] == 'o');
    assert("gra"@.len() == 3 && "gra"@[0] == 'g' && "gra"@[1] == 'r' && "gra"@[2] == 'a');
    assert("gru"@.len() == 3 && "gru"@[0] == 'g' && "gru"@[1] == 'r' && "gru"@[2] == 'u');
    assert("bri"@.len() == 3 && "bri"@[0] == 'b' && "bri"@[1] == 'r' && "bri"@[2] == 'i');
    assert("glb"@.len() == 3 && "glb"@[0] == 'g' && "glb"@[1] == 'l' && "glb"@[2] == 'b');
    assert("cre"@.len() == 3 && "cre"@[0] == 'c' && "cre"@[1] == 'r' && "cre"@[2] == 'e');
    assert("sku"@.len() == 3 && "sku"@[0] == 's' && "sku"@[1] == 'k' && "sku"@[2] == 'u');
    assert("flo"@.len() == 3 && "flo"@[0] == 'f' && "flo"@[1] == 'l' && "flo"@[2] == 'o');
    assert("moj"@.len() == 3 && "moj"@[0] == 'm' && "moj"@[1] == 'o' && "moj"@[2] == 'j');
    assert("pig"@.len() == 3 && "pig"@[0] == 'p' && "pig"@[1] == 'i' && "pig"@[2] == 'g');
}

/// Every pattern that requires a banner pattern item names a non-empty item
/// identifier, and no two distinct patterns share one.
#[verifier::rlimit(60)]
pub proof fn lemma_required_item_ids_unique()
    ensures
        forall|p: Pattern|
            (#[trigger] p.spec_required_item_id()) matches Some(id) ==> id.len() > 0,
        forall|p1: Pattern, p2: Pattern|
            #![trigger p1.spec_required_item_id(), p2.spec_required_item_id()]
            p1.spec_required_item_id() is Some
                && p1.spec_required_item_id() == p2.spec_required_item_id() ==> p1 == p2,
{
    reveal_strlit("bordure_indented_banner_pattern");
    reveal_strlit("field_masoned_banner_pattern");
    reveal_strlit("globe_banner_pattern");
    reveal_strlit("creeper_banner_pattern");
    reveal_strlit("skull_banner_pattern");
    reveal_strlit("flower_banner_pattern");
    reveal_strlit("mojang_banner_pattern");
    reveal_strlit("piglin_banner_pattern");
    assert("bordure_indented_banner_pattern"@.len() == 31 && "bordure_indented_banner_pattern"@[0] == 'b');
    assert("field_masoned_banner_pattern"@.len() == 28 && "field_masoned_banner_pattern"@[0] == 'f');
    assert("globe_banner_pattern"@.len() == 20 && "globe_banner_pattern"@[0] == 'g');
    assert("creeper_banner_pattern"@.len() == 22 && "creeper_banner_pattern"@[0] == 'c');
    assert("skull_banner_pattern"@.len() == 20 && "skull_banner_pattern"@[0] == 's');
    assert("flower_banner_pattern"@.len() == 21 && "flower_banner_pattern"@[0] == 'f');
    assert("mojang_banner_pattern"@.len() == 21 && "mojang_banner_pattern"@[0] == 'm');
    assert("piglin_banner_pattern"@.len() == 21 && "piglin_banner_pattern"@[0] == 'p');
}

} // verus!
