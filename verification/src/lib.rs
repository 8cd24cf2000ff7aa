//! Verified core of a C-callable boundary around the `vtracer` raster-to-vector engine.
//!
//! The boundary accepts a flat configuration record, validates every argument
//! before the engine sees it, and hands results back as owned,
//! terminator-free text. Everything that decides something is stated and
//! proved here; the pointer handling of the foreign interface lives outside.

pub mod config;
pub mod convert;
pub mod image;
mod outside;
pub mod status;
pub mod text;

pub use config::{vtracer_default_config, EngineConfig, VtracerConfig};
pub use convert::{
    finish_convert_bytes, finish_convert_file, vtracer_convert_bytes, vtracer_convert_file,
    vtracer_free_string,
};
pub use text::OwnedText;
