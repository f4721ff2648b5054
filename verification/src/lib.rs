//! Rendering of smart-contract test results: payload decoding and report layout.

pub mod text;
pub mod hex;
pub mod style;
pub mod payload;
pub mod record;
pub mod table;
pub mod render;
