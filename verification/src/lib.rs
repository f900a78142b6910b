pub mod text;
pub mod paths;
pub mod presets;
pub mod output;
pub mod args;
pub mod settings;
pub mod ai;
pub mod ffmpeg;
pub mod hotkey;
pub mod context;
pub mod cache;
pub mod cards;
pub mod integration;
pub mod window;
pub mod commands;
pub mod laws;
