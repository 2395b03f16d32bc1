pub mod cli;
pub mod config;
pub mod events;
pub mod icon_picker;
pub mod settings;
pub mod text;
pub mod theme;
