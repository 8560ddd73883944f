//! Planning and pixel logic for generating Apple `AppIcon.appiconset` bundles.
pub mod cli;
pub mod config;
pub mod error;
pub mod generate;
pub mod iconset;
pub mod image_ops;
pub mod openai;
pub mod prompt;
pub mod text;
