//! The flat configuration record and its transcoding to and from the engine's
//! configuration.
//!
//! A foreign caller fills [`VtracerConfig`] with bytes and integers. The engine
//! works on [`EngineConfig`], which has tagged variants where the record has
//! bytes. Decoding is total: a byte outside the documented set falls into the
//! last variant of its field.

use vstd::prelude::*;
use crate::outside::engine_default;

verus! {

/// Whether the image is traced in full colour or as two levels.
#[derive(Debug, Clone, Copy, PartialEq, Eq, Structural)]
pub enum ColorMode {
    Color,
    Binary,
}

/// Whether colour layers are stacked on one another or cut out of one another.
#[derive(Debug, Clone, Copy, PartialEq, Eq, Structural)]
pub enum Hierarchical {
    Stacked,
    Cutout,
}

/// How a traced outline is simplified: left as pixel steps, reduced to a
/// polygon, or fitted with curves.
#[derive(Debug, Clone, Copy, PartialEq, Eq, Structural)]
pub enum PathMode {
    Pixel,
    Polygon,
    Spline,
}

/// The number of decimal digits written for a coordinate when the engine's
/// configuration names none.
pub const DEFAULT_PATH_PRECISION: u32 = 2;

impl ColorMode {
    /// 0 is full colour; every other byte is binary.
    pub open spec fn decode(byte: u8) -> ColorMode {
        if byte == 0 {
            ColorMode::Color
        } else {
            ColorMode::Binary
        }
    }

    /// The byte that stands for the variant.
    pub open spec fn encode(self) -> u8 {
        match self {
            ColorMode::Color => 0,
            ColorMode::Binary => 1,
        }
    }

    /// Decodes a byte of the record; no byte is refused.
    pub fn from_byte(byte: u8) -> (r: ColorMode)
        ensures
            r == ColorMode::decode(byte),
    {
        match byte {
            0 => ColorMode::Color,
            _ => ColorMode::Binary,
        }
    }

    /// Encodes the variant as the record holds it.
    pub fn to_byte(self) -> (r: u8)
        ensures
            r == self.encode(),
    {
        match self {
            ColorMode::Color => 0,
            ColorMode::Binary => 1,
        }
    }
}

impl Hierarchical {
    /// 0 is stacked; every other byte is cutout.
    pub open spec fn decode(byte: u8) -> Hierarchical {
        if byte == 0 {
            Hierarchical::Stacked
        } else {
            Hierarchical::Cutout
        }
    }

    /// The byte that stands for the variant.
    pub open spec fn encode(self) -> u8 {
        match self {
            Hierarchical::Stacked => 0,
            Hierarchical::Cutout => 1,
        }
    }

    /// Decodes a byte of the record; no byte is refused.
    pub fn from_byte(byte: u8) -> (r: Hierarchical)
        ensures
            r == Hierarchical::decode(byte),
    {
        match byte {
            0 => Hierarchical::Stacked,
            _ => Hierarchical::Cutout,
        }
    }

    /// Encodes the variant as the record holds it.
    pub fn to_byte(self) -> (r: u8)
        ensures
            r == self.encode(),
    {
        match self {
            Hierarchical::Stacked => 0,
            Hierarchical::Cutout => 1,
        }
    }
}

impl PathMode {
    /// 0 is pixel steps, 1 is polygon; every other byte is spline.
    pub open spec fn decode(byte: u8) -> PathMode {
        if byte == 0 {
            PathMode::Pixel
        } else if byte == 1 {
            PathMode::Polygon
        } else {
            PathMode::Spline
        }
    }

    /// The byte that stands for the variant.
    pub open spec fn encode(self) -> u8 {
        match self {
            PathMode::Pixel => 0,
            PathMode::Polygon => 1,
            PathMode::Spline => 2,
        }
    }

    /// Decodes a byte of the record; no byte is refused.
    pub fn from_byte(byte: u8) -> (r: PathMode)
        ensures
            r == PathMode::decode(byte),
    {
        match byte {
            0 => PathMode::Pixel,
            1 => PathMode::Polygon,
            _ => PathMode::Spline,
        }
    }

    /// Encodes the variant as the record holds it.
    pub fn to_byte(self) -> (r: u8)
        ensures
            r == self.encode(),
    {
        match self {
            PathMode::Pixel => 0,
            PathMode::Polygon => 1,
            PathMode::Spline => 2,
        }
    }
}

/// The configuration as a foreign caller writes it: primitive fields only, in
/// this order.
///
/// `length_threshold_bits` is the IEEE 754 binary64 bit pattern of the minimum
/// segment length. The boundary never computes with that number; it carries
/// the pattern through unchanged.
#[derive(Debug, Clone, Copy, PartialEq, Eq, Structural)]
pub struct VtracerConfig {
    pub color_mode: u8,
    pub hierarchical: u8,
    pub filter_speckle: usize,
    pub color_precision: i32,
    pub layer_difference: i32,
    pub mode: u8,
    pub corner_threshold: i32,
    pub length_threshold_bits: u64,
    pub max_iterations: usize,
    pub splice_threshold: i32,
    pub path_precision: u32,
}

/// The configuration as the engine takes it, with the length threshold still
/// as its bit pattern.
#[derive(Debug, Clone, Copy, PartialEq, Eq, Structural)]
pub struct EngineConfig {
    pub color_mode: ColorMode,
    pub hierarchical: Hierarchical,
    pub filter_speckle: usize,
    pub color_precision: i32,
    pub layer_difference: i32,
    pub mode: PathMode,
    pub corner_threshold: i32,
    pub length_threshold_bits: u64,
    pub max_iterations: usize,
    pub splice_threshold: i32,
    pub path_precision: Option<u32>,
}

impl EngineConfig {
    /// The configuration the engine starts from when it is given none. Its
    /// length threshold is 4.0, whose bit pattern is `0x4010_0000_0000_0000`.
    pub open spec fn default_spec() -> EngineConfig {
        EngineConfig {
            color_mode: ColorMode::Color,
            hierarchical: Hierarchical::Stacked,
            filter_speckle: 4,
            color_precision: 6,
            layer_difference: 16,
            mode: PathMode::Spline,
            corner_threshold: 60,
            length_threshold_bits: 0x4010_0000_0000_0000,
            max_iterations: 10,
            splice_threshold: 45,
            path_precision: Some(2u32),
        }
    }
}

impl Default for EngineConfig {
    /// The engine's own default, asked of the engine.
    fn default() -> (r: EngineConfig)
        ensures
            r == EngineConfig::default_spec(),
    {
        engine_default()
    }
}

impl VtracerConfig {
    /// The engine configuration this record stands for: field by field, the
    /// three bytes decoded, the path precision always present.
    pub open spec fn decode(self) -> EngineConfig {
        EngineConfig {
            color_mode: ColorMode::decode(self.color_mode),
            hierarchical: Hierarchical::decode(self.hierarchical),
            filter_speckle: self.filter_speckle,
            color_precision: self.color_precision,
            layer_difference: self.layer_difference,
            mode: PathMode::decode(self.mode),
            corner_threshold: self.corner_threshold,
            length_threshold_bits: self.length_threshold_bits,
            max_iterations: self.max_iterations,
            splice_threshold: self.splice_threshold,
            path_precision: Some(self.path_precision),
        }
    }
}

impl vstd::std_specs::convert::FromSpecImpl<VtracerConfig> for EngineConfig {
    open spec fn obeys_from_spec() -> bool {
        true
    }

    open spec fn from_spec(c: VtracerConfig) -> EngineConfig {
        c.decode()
    }
}

impl From<VtracerConfig> for EngineConfig {
    /// Decodes the record. Every record decodes: this never fails.
    fn from(c: VtracerConfig) -> (r: EngineConfig) {
        EngineConfig {
            color_mode: ColorMode::from_byte(c.color_mode),
            hierarchical: Hierarchical::from_byte(c.hierarchical),
            filter_speckle: c.filter_speckle,
            color_precision: c.color_precision,
            layer_difference: c.layer_difference,
            mode: PathMode::from_byte(c.mode),
            corner_threshold: c.corner_threshold,
            length_threshold_bits: c.length_threshold_bits,
            max_iterations: c.max_iterations,
            splice_threshold: c.splice_threshold,
            path_precision: Some(c.path_precision),
        }
    }
}

impl EngineConfig {
    /// The record that stands for this configuration. Where the configuration
    /// names no path precision, the record names [`DEFAULT_PATH_PRECISION`].
    pub open spec fn encode(self) -> VtracerConfig {
        VtracerConfig {
            color_mode: self.color_mode.encode(),
            hierarchical: self.hierarchical.encode(),
            filter_speckle: self.filter_speckle,
            color_precision: self.color_precision,
            layer_difference: self.layer_difference,
            mode: self.mode.encode(),
            corner_threshold: self.corner_threshold,
            length_threshold_bits: self.length_threshold_bits,
            max_iterations: self.max_iterations,
            splice_threshold: self.splice_threshold,
            path_precision: match self.path_precision {
                Some(p) => p,
                None => DEFAULT_PATH_PRECISION,
            },
        }
    }
}

impl VtracerConfig {
    /// Re-encodes an engine configuration into the flat record.
    pub fn from_engine(e: &EngineConfig) -> (r: VtracerConfig)
        ensures
            r == e.encode(),
    {
        VtracerConfig {
            color_mode: e.color_mode.to_byte(),
            hierarchical: e.hierarchical.to_byte(),
            filter_speckle: e.filter_speckle,
            color_precision: e.color_precision,
            layer_difference: e.layer_difference,
            mode: e.mode.to_byte(),
            corner_threshold: e.corner_threshold,
            length_threshold_bits: e.length_threshold_bits,
            max_iterations: e.max_iterations,
            splice_threshold: e.splice_threshold,
            path_precision: e.path_precision.unwrap_or(DEFAULT_PATH_PRECISION),
        }
    }
}

/// The engine's own default configuration as a flat record: a baseline of
/// which a caller changes only the fields it cares about.
pub fn vtracer_default_config() -> (r: VtracerConfig)
    ensures
        r == EngineConfig::default_spec().encode(),
        r.decode() == EngineConfig::default_spec(),
        r == (VtracerConfig {
            color_mode: 0,
            hierarchical: 0,
            filter_speckle: 4,
            color_precision: 6,
            layer_difference: 16,
            mode: 2,
            corner_threshold: 60,
            length_threshold_bits: 0x4010_0000_0000_0000,
            max_iterations: 10,
            splice_threshold: 45,
            path_precision: 2,
        }),
{
    let e = EngineConfig::default();
    VtracerConfig::from_engine(&e)
}

/// Decoding the record of an engine configuration gives that configuration
/// back, provided it names a path precision; the record has no way to name
/// none.
pub proof fn lemma_decode_inverts_encode(e: EngineConfig)
    requires
        e.path_precision is Some,
    ensures
        e.encode().decode() == e,
{
}

/// Whatever the engine configuration, decoding its record changes nothing
/// but an absent path precision, which becomes [`DEFAULT_PATH_PRECISION`].
pub proof fn lemma_decode_encode_fills_precision(e: EngineConfig)
    ensures
        e.encode().decode() == (EngineConfig {
            path_precision: Some(
                match e.path_precision {
                    Some(p) => p,
                    None => DEFAULT_PATH_PRECISION,
                },
            ),
            ..e
        }),
{
}

/// The default record decodes to the engine's own default configuration.
pub proof fn lemma_default_round_trip()
    ensures
        EngineConfig::default_spec().encode().decode() == EngineConfig::default_spec(),
{
}

/// Every byte outside the documented set of its field decodes to the field's
/// last variant: a colour mode other than 0 is binary, a layering other than
/// 0 is cutout, a path mode other than 0 and 1 is spline. No byte is left
/// without a meaning.
pub proof fn lemma_enumerated_fallback(c: VtracerConfig)
    ensures
        c.color_mode == 0 <==> c.decode().color_mode == ColorMode::Color,
        c.color_mode != 0 <==> c.decode().color_mode == ColorMode::Binary,
        c.hierarchical == 0 <==> c.decode().hierarchical == Hierarchical::Stacked,
        c.hierarchical != 0 <==> c.decode().hierarchical == Hierarchical::Cutout,
        c.mode == 0 <==> c.decode().mode == PathMode::Pixel,
        c.mode == 1 <==> c.decode().mode == PathMode::Polygon,
        c.mode > 1 <==> c.decode().mode == PathMode::Spline,
{
}

/// Encoding the decoded record gives the record back exactly when its three
/// bytes are the ones encoding writes: 0 or 1 for the colour mode and the
/// layering, 0, 1 or 2 for the path mode.
pub proof fn lemma_encode_inverts_decode(c: VtracerConfig)
    ensures
        c.decode().encode() == c <==> (c.color_mode <= 1 && c.hierarchical <= 1 && c.mode <= 2),
{
}

} // verus!
