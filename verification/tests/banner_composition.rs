use banners::Banner;
use banners::BannerError;
use banners::BannerMode;
use banners::DyeColor;
use banners::MAX_PATTERNS_COMMANDS;
use banners::MAX_PATTERNS_SURVIVAL;
use banners::Pattern;
use banners::capacity_for;

#[test]
fn new_banner_is_empty() {
    let banner = Banner::new(DyeColor::Lime);
    assert_eq!(banner.color(), DyeColor::Lime);
    assert!(banner.patterns().is_empty());
}

#[test]
fn banner_identifier_follows_base_color() {
    assert_eq!(Banner::new(DyeColor::White).identifier(), "white_banner");
    assert_eq!(Banner::new(DyeColor::Black).identifier(), "black_banner");
    assert_eq!(Banner::new(DyeColor::LightBlue).identifier(), "light_blue_banner");
}

#[test]
fn banner_lang_identifier_prefixes_block_namespace() {
    assert_eq!(
        Banner::new(DyeColor::White).lang_identifier(),
        "block.minecraft.white_banner"
    );
    assert_eq!(
        Banner::new(DyeColor::Magenta).lang_identifier(),
        "block.minecraft.magenta_banner"
    );
}

#[test]
fn appends_accumulate_in_order() {
    let layers = [
        (Pattern::StripeBottom, DyeColor::Red),
        (Pattern::Creeper, DyeColor::White),
        (Pattern::Border, DyeColor::Black),
        (Pattern::Gradient, DyeColor::Cyan),
    ];
    let mut banner = Banner::new(DyeColor::Gray);
    for (n, (pattern, color)) in layers.iter().enumerate() {
        assert!(banner.append_layer(*pattern, *color, BannerMode::Restricted).is_ok());
        assert_eq!(banner.patterns().len(), n + 1);
    }
    assert_eq!(banner.patterns().as_slice(), &layers[..]);
}

#[test]
fn capacity_boundary_restricted() {
    let mut banner = Banner::new(DyeColor::White);
    for _ in 0..capacity_for(BannerMode::Restricted) {
        assert!(banner.append_layer(Pattern::Cross, DyeColor::Red, BannerMode::Restricted).is_ok());
    }
    let snapshot = banner.patterns().clone();
    let overflow = banner.append_layer(Pattern::Cross, DyeColor::Red, BannerMode::Restricted);
    assert_eq!(overflow, Err(BannerError::CapacityExceeded));
    assert_eq!(banner.patterns(), &snapshot);
    assert_eq!(banner.color(), DyeColor::White);
}

#[test]
fn capacity_boundary_extended() {
    let mut banner = Banner::new(DyeColor::Blue);
    for _ in 0..capacity_for(BannerMode::Extended) {
        assert!(banner.append_layer(Pattern::Rhombus, DyeColor::Lime, BannerMode::Extended).is_ok());
    }
    let snapshot = banner.patterns().clone();
    let overflow = banner.append_layer(Pattern::Rhombus, DyeColor::Lime, BannerMode::Extended);
    assert_eq!(overflow, Err(BannerError::CapacityExceeded));
    assert_eq!(banner.patterns(), &snapshot);
}

#[test]
fn restricted_full_banner_still_grows_in_extended_mode() {
    let mut banner = Banner::new(DyeColor::Green);
    for _ in 0..capacity_for(BannerMode::Restricted) {
        assert!(banner.append_layer(Pattern::Bricks, DyeColor::Brown, BannerMode::Restricted).is_ok());
    }
    assert!(banner.append_layer(Pattern::Bricks, DyeColor::Brown, BannerMode::Restricted).is_err());
    assert!(banner.append_layer(Pattern::Bricks, DyeColor::Brown, BannerMode::Extended).is_ok());
    assert_eq!(banner.patterns().len(), capacity_for(BannerMode::Restricted) + 1);
}

#[test]
fn extended_capacity_exceeds_restricted() {
    assert!(capacity_for(BannerMode::Extended) > capacity_for(BannerMode::Restricted));
    assert_eq!(capacity_for(BannerMode::Restricted), MAX_PATTERNS_SURVIVAL);
    assert_eq!(capacity_for(BannerMode::Extended), MAX_PATTERNS_COMMANDS);
}

#[test]
fn set_color_keeps_layers() {
    let mut banner = Banner::new(DyeColor::Red);
    assert!(banner.append_layer(Pattern::Skull, DyeColor::White, BannerMode::Restricted).is_ok());
    banner.set_color(DyeColor::Black);
    assert_eq!(banner.color(), DyeColor::Black);
    assert_eq!(banner.identifier(), "black_banner");
    assert_eq!(banner.patterns().as_slice(), &[(Pattern::Skull, DyeColor::White)][..]);
}

#[test]
fn round_trip_blue_banner() {
    let mut banner = Banner::new(DyeColor::Blue);
    assert!(banner.append_layer(Pattern::Creeper, DyeColor::White, BannerMode::Restricted).is_ok());
    assert!(banner.append_layer(Pattern::Border, DyeColor::Black, BannerMode::Restricted).is_ok());
    assert_eq!(
        banner.patterns().as_slice(),
        &[(Pattern::Creeper, DyeColor::White), (Pattern::Border, DyeColor::Black)][..]
    );
    for _ in 2..capacity_for(BannerMode::Restricted) {
        assert!(banner.append_layer(Pattern::Flower, DyeColor::Pink, BannerMode::Restricted).is_ok());
    }
    assert_eq!(
        banner.append_layer(Pattern::Flower, DyeColor::Pink, BannerMode::Restricted),
        Err(BannerError::CapacityExceeded)
    );
}
