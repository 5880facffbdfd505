//! Colour Contrast Analyser: the colour logic of the picker and the profile store.

pub mod common;
pub mod text;
pub mod color_names;
pub mod picker;
pub mod color_picker;
pub mod store;
pub mod icc;
pub mod menu;
pub mod mac_keys;
