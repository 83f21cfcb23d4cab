pub mod config;
pub mod render;
pub mod overlay;
pub mod presets;
