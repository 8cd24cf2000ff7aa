//! What this library takes on trust: the two calls it makes into code it
//! does not verify.

use vstd::prelude::*;
use vstd::utf8::{decode_utf8, valid_utf8};
use visioncortex::PathSimplifyMode;
use vtracer::{ColorMode, Config, Hierarchical};
use crate::config;
use crate::config::{EngineConfig, PathMode};

verus! {

/// `vtracer::Config::default()`, field by field, with the length threshold as
/// its bit pattern.
///
/// Trusted: the engine's default is full colour, stacked layers, speckle
/// filter 4, colour precision 6, layer difference 16, spline mode, corner
/// threshold 60, length threshold 4.0, at most 10 iterations, splice threshold
/// 45 and path precision 2.
#[verifier::external_body]
pub(crate) fn engine_default() -> (r: EngineConfig)
    ensures
        r == EngineConfig::default_spec(),
{
    let c = Config::default();
    EngineConfig {
        color_mode: match c.color_mode { ColorMode::Color => config::ColorMode::Color, ColorMode::Binary => config::ColorMode::Binary },
        hierarchical: match c.hierarchical { Hierarchical::Stacked => config::Hierarchical::Stacked, Hierarchical::Cutout => config::Hierarchical::Cutout },
        mode: match c.mode { PathSimplifyMode::None => PathMode::Pixel, PathSimplifyMode::Polygon => PathMode::Polygon, PathSimplifyMode::Spline => PathMode::Spline },
        filter_speckle: c.filter_speckle,
        color_precision: c.color_precision,
        layer_difference: c.layer_difference,
        corner_threshold: c.corner_threshold,
        length_threshold_bits: c.length_threshold.to_bits(),
        max_iterations: c.max_iterations,
        splice_threshold: c.splice_threshold,
        path_precision: c.path_precision,
    }
}

/// `core::str::from_utf8`.
///
/// Trusted: it accepts exactly the well-formed UTF-8 byte sequences, and the
/// text it hands back is what those bytes encode.
#[verifier::external_body]
pub(crate) fn utf8_text(bytes: &[u8]) -> (r: Option<&str>)
    ensures
        r is Some <==> valid_utf8(bytes@),
        r matches Some(text) ==> text@ == decode_utf8(bytes@),
{
    core::str::from_utf8(bytes).ok()
}

} // verus!
