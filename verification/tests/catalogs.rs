use banners::BannerPatternItem;
use banners::DyeColor;
use banners::Pattern;
use banners::dye_color_color;
use banners::dye_color_id;
use banners::dye_color_to_hex;
use banners::js_banner_pattern_item;
use banners::pattern_id;
use banners::pattern_lang_identifier;

fn all_colors() -> Vec<DyeColor> {
    vec![
        DyeColor::White,
        DyeColor::Orange,
        DyeColor::Magenta,
        DyeColor::LightBlue,
        DyeColor::Yellow,
        DyeColor::Lime,
        DyeColor::Pink,
        DyeColor::Gray,
        DyeColor::LightGray,
        DyeColor::Cyan,
        DyeColor::Purple,
        DyeColor::Blue,
        DyeColor::Brown,
        DyeColor::Green,
        DyeColor::Red,
        DyeColor::Black,
    ]
}

fn all_patterns() -> Vec<Pattern> {
    vec![
        Pattern::Base,
        Pattern::SquareBottomLeft,
        Pattern::SquareBottomRight,
        Pattern::SquareTopLeft,
        Pattern::SquareTopRight,
        Pattern::StripeBottom,
        Pattern::StripeTop,
        Pattern::StripeLeft,
        Pattern::StripeRight,
        Pattern::StripeCenter,
        Pattern::StripeMiddle,
        Pattern::StripeDownright,
        Pattern::StripeDownleft,
        Pattern::SmallStripes,
        Pattern::Cross,
        Pattern::StraightCross,
        Pattern::TriangleBottom,
        Pattern::TriangleTop,
        Pattern::TrianglesBottom,
        Pattern::TrianglesTop,
        Pattern::DiagonalLeft,
        Pattern::DiagonalRight,
        Pattern::DiagonalUpLeft,
        Pattern::DiagonalUpRight,
        Pattern::Circle,
        Pattern::Rhombus,
        Pattern::HalfVertical,
        Pattern::HalfHorizontal,
        Pattern::HalfVerticalRight,
        Pattern::HalfHorizontalBottom,
        Pattern::Border,
        Pattern::CurlyBorder,
        Pattern::Gradient,
        Pattern::GradientUp,
        Pattern::Bricks,
        Pattern::Globe,
        Pattern::Creeper,
        Pattern::Skull,
        Pattern::Flower,
        Pattern::Mojang,
        Pattern::Piglin,
    ]
}

#[test]
fn dye_color_ordinals_are_bijective() {
    let colors = all_colors();
    assert_eq!(colors.len(), 16);
    for (i, c) in colors.iter().enumerate() {
        assert_eq!(c.id() as usize, i);
        assert_eq!(dye_color_id(*c) as usize, i);
    }
}

#[test]
fn dye_color_rgb_values_distinct() {
    let colors = all_colors();
    for (i, a) in colors.iter().enumerate() {
        for b in colors.iter().skip(i + 1) {
            assert_ne!(a.color(), b.color());
        }
    }
    assert_eq!(DyeColor::White.color(), 0xf9fffe);
    assert_eq!(DyeColor::Red.color(), 0xb02e26);
    assert_eq!(DyeColor::Black.color(), 0x1d1d21);
    assert_eq!(dye_color_color(DyeColor::Lime), 0x80c71f);
}

#[test]
fn dye_color_identifiers_distinct() {
    let colors = all_colors();
    for (i, a) in colors.iter().enumerate() {
        for b in colors.iter().skip(i + 1) {
            assert_ne!(a.identifier(), b.identifier());
        }
    }
    assert_eq!(DyeColor::White.identifier(), "white");
    assert_eq!(DyeColor::LightBlue.identifier(), "light_blue");
    assert_eq!(DyeColor::LightGray.identifier(), "light_gray");
    assert_eq!(DyeColor::Black.identifier(), "black");
}

#[test]
fn dye_color_hex_codes() {
    assert_eq!(dye_color_to_hex(DyeColor::White), "#f9fffe");
    assert_eq!(dye_color_to_hex(DyeColor::Purple), "#8932b8");
    assert_eq!(dye_color_to_hex(DyeColor::Black), "#1d1d21");
    for c in all_colors() {
        let hex = dye_color_to_hex(c);
        assert_eq!(hex.len(), 7);
        assert!(hex.starts_with('#'));
        let rgb = u32::from_str_radix(&hex[1..], 16).unwrap();
        assert_eq!(rgb, c.color());
    }
}

#[test]
fn dye_color_default_is_white() {
    assert_eq!(DyeColor::default(), DyeColor::White);
}

#[test]
fn pattern_identifiers_distinct() {
    let patterns = all_patterns();
    assert_eq!(patterns.len(), 41);
    for (i, a) in patterns.iter().enumerate() {
        for b in patterns.iter().skip(i + 1) {
            assert_ne!(a.identifier(), b.identifier());
        }
    }
    assert_eq!(Pattern::Base.identifier(), "base");
    assert_eq!(Pattern::HalfVertical.identifier(), "half_vertical_bottom");
    assert_eq!(Pattern::StripeDownleft.identifier(), "stripe_downleft");
    assert_eq!(Pattern::Creeper.identifier(), "creeper");
    assert_eq!(Pattern::Base.name(), Pattern::Base.identifier());
}

#[test]
fn pattern_tokens_distinct() {
    let patterns = all_patterns();
    for (i, a) in patterns.iter().enumerate() {
        for b in patterns.iter().skip(i + 1) {
            assert_ne!(a.id(), b.id());
        }
    }
    for p in &patterns {
        let token = p.id();
        assert!(!token.is_empty() && token.len() <= 3);
        assert!(token.chars().all(|c| c.is_ascii_lowercase()));
    }
    assert_eq!(Pattern::Base.id(), "b");
    assert_eq!(Pattern::StripeDownright.id(), "drs");
    assert_eq!(Pattern::CurlyBorder.id(), "cbo");
    assert_eq!(Pattern::Circle.id(), "mc");
    assert_eq!(pattern_id(Pattern::Piglin), "pig");
}

#[test]
fn required_items_classification() {
    for p in all_patterns() {
        let expected: Option<(&str, bool)> = match p {
            Pattern::CurlyBorder => Some(("bordure_indented_banner_pattern", false)),
            Pattern::Bricks => Some(("field_masoned_banner_pattern", false)),
            Pattern::Globe => Some(("globe_banner_pattern", true)),
            Pattern::Creeper => Some(("creeper_banner_pattern", true)),
            Pattern::Skull => Some(("skull_banner_pattern", true)),
            Pattern::Flower => Some(("flower_banner_pattern", true)),
            Pattern::Mojang => Some(("mojang_banner_pattern", true)),
            Pattern::Piglin => Some(("piglin_banner_pattern", true)),
            _ => None,
        };
        match (p.banner_pattern_item_required(), expected) {
            (BannerPatternItem::NoItem, None) => {}
            (BannerPatternItem::BedrockOnly { id }, Some((want, false))) => {
                assert_eq!(id, want);
            }
            (BannerPatternItem::AllEditions { id }, Some((want, true))) => {
                assert_eq!(id, want);
            }
            _ => panic!("unexpected required-item classification for {:?}", p),
        }
    }
}

#[test]
fn required_item_ids_nonempty_and_unique() {
    let mut ids: Vec<String> = Vec::new();
    for p in all_patterns() {
        match p.banner_pattern_item() {
            BannerPatternItem::NoItem => {}
            BannerPatternItem::BedrockOnly { id } | BannerPatternItem::AllEditions { id } => {
                assert!(!id.is_empty());
                assert!(!ids.contains(&id));
                ids.push(id);
            }
        }
    }
    assert_eq!(ids.len(), 8);
}

#[test]
fn js_required_item_flattening() {
    let none = js_banner_pattern_item(Pattern::Base);
    assert_eq!(none.identifier(), None);
    assert!(none.all_editions());

    let bedrock = js_banner_pattern_item(Pattern::CurlyBorder);
    assert_eq!(bedrock.identifier().as_deref(), Some("bordure_indented_banner_pattern"));
    assert!(!bedrock.all_editions());

    let universal = js_banner_pattern_item(Pattern::Globe);
    assert_eq!(universal.identifier().as_deref(), Some("globe_banner_pattern"));
    assert!(universal.all_editions());
}

#[test]
fn lang_identifier_of_base_red() {
    assert_eq!(
        pattern_lang_identifier(Pattern::Base, DyeColor::Red),
        "block.minecraft.banner.base.red"
    );
}

#[test]
fn lang_identifier_joins_pattern_and_color() {
    assert_eq!(
        pattern_lang_identifier(Pattern::Creeper, DyeColor::LightBlue),
        "block.minecraft.banner.creeper.light_blue"
    );
    for p in all_patterns() {
        for c in all_colors() {
            let key = pattern_lang_identifier(p, c);
            let want = format!("block.minecraft.banner.{}.{}", p.identifier(), c.identifier());
            assert_eq!(key, want);
        }
    }
}
