//! Configuration model, text rendering and localisation tables of an
//! input remapping tool.

pub mod small_lists;
pub mod text;
pub mod i18n;
pub mod config;
pub mod config_text;
pub mod notify;
pub mod numbers;
pub mod presets;
pub mod devices;
pub mod editing;
pub mod draft;
pub mod hotkey;
