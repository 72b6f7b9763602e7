//! A model of layered banner designs: a base dye color plus an ordered,
//! capacity-limited stack of colored patterns, together with the identifier
//! catalogs used to resolve textures, compact command encodings, and
//! localized names.

pub mod banner;
pub mod dye_color;
pub mod pattern;

pub use banner::Banner;
pub use banner::BannerError;
pub use banner::BannerMode;
pub use banner::MAX_PATTERNS_COMMANDS;
pub use banner::MAX_PATTERNS_SURVIVAL;
pub use banner::capacity_for;
pub use dye_color::DyeColor;
pub use dye_color::dye_color_color;
pub use dye_color::dye_color_id;
pub use dye_color::dye_color_to_hex;
pub use pattern::BannerPatternItem;
pub use pattern::ItemRequirement;
pub use pattern::JsBannerPatternItem;
pub use pattern::Pattern;
pub use pattern::js_banner_pattern_item;
pub use pattern::pattern_id;
pub use pattern::pattern_lang_identifier;
