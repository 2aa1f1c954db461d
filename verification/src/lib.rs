//! Deterministic variation/session engine for a 2D-to-3D asset pipeline.
//!
//! The crate models the parameter schema with bounded clamping, the seed
//! derivation that makes variation batches reproducible, and the session
//! state machine that tracks intents, generated variations and approvals.
//! Scalar parameters are fixed-point values in thousandths, so that every
//! bound, default and delta of the schema is represented exactly.

use vstd::prelude::*;

pub mod export;
pub mod ext;
pub mod params;
pub mod project;
pub mod session;
pub mod textfmt;
pub mod variation;

pub use export::{
    Axis, ExportConfig, ExportError, ExportFormat, LodConfig, MaterialConfig, MaterialSystem,
    NamingConfig, TargetEngine,
};
pub use params::{Bounded, ParamError, ParameterDeltaV1, ParameterSetV1};
pub use project::{
    AestheticProfile, AssetReference, ClassOverrides, ColorPalette, Project, ProjectError,
    ProjectStyleProfile, TextureStyle,
};
pub use session::{
    ApprovedDesignV1, BaseInputRefV1, BaseInputType, CollisionMode, DimensionsCm,
    DimensionsMeters, ExportSettingsV1, IntentEntryV1, PivotMode, SessionError, SessionV1,
    SESSION_FILE_EXT,
};
pub use variation::VariationSpecV1;

verus! {

/// Schema version tag carried by sessions and variation specs.
pub const PARAM_SCHEMA_VERSION: &'static str = "1.0";

/// Deterministic seed for variation generation. Use `derive` to create
/// child seeds.
#[derive(Debug, Clone, Copy, PartialEq, Eq, Structural, Hash)]
pub struct Seed(pub u64);

/// One round of the bit mix: xor with a right shift, then a wrapping
/// multiply by an odd constant.
pub open spec fn mix_round(z: u64, shift: u64, factor: u64) -> u64 {
    vstd::wrapping::u64_specs::wrapping_mul(z ^ (z >> shift), factor)
}

/// The value `derive` returns for a given seed and index: a SplitMix64-style
/// mixing construction, a pure function of its two arguments.
pub open spec fn seed_derive(seed: u64, index: u64) -> u64 {
    let z0 = vstd::wrapping::u64_specs::wrapping_add(
        vstd::wrapping::u64_specs::wrapping_add(seed, 0x9E3779B97F4A7C15),
        index,
    );
    let z1 = mix_round(z0, 30, 0xBF58476D1CE4E5B9);
    let z2 = mix_round(z1, 27, 0x94D049BB133111EB);
    z2 ^ (z2 >> 31)
}

impl Seed {
    /// Derive a new seed deterministically from this seed and an index.
    /// The result is a function of the two inputs alone, so identical
    /// inputs always give identical output.
    pub fn derive(self, index: u64) -> (r: Seed)
        ensures
            r.0 == seed_derive(self.0, index),
    {
        let mut z = self.0.wrapping_add(0x9E3779B97F4A7C15).wrapping_add(index);
        z = (z ^ (z >> 30u64)).wrapping_mul(0xBF58476D1CE4E5B9);
        z = (z ^ (z >> 27u64)).wrapping_mul(0x94D049BB133111EB);
        Seed(z ^ (z >> 31u64))
    }
}

/// High-level asset categories for parameter constraints and generation rules.
#[derive(Debug, Clone, Copy, PartialEq, Eq, Structural)]
pub enum AssetClass {
    ArenaProp,
    ArenaWall,
    Pillar,
    Debris,
}

/// Unique identifier for sessions and projects, carried as its 128-bit
/// value.
#[derive(Debug, Clone, Copy, PartialEq, Eq, Structural, Hash)]
pub struct UniqueId(pub u128);

/// An RGB color, each channel in fixed-point thousandths of full
/// intensity (`1000` is full).
#[derive(Debug, Clone, Copy, PartialEq, Eq, Structural)]
pub struct Rgb {
    pub r: i64,
    pub g: i64,
    pub b: i64,
}

impl Rgb {
    /// Every channel lies within the unit range.
    pub open spec fn in_unit_range(self) -> bool {
        0 <= self.r <= 1000 && 0 <= self.g <= 1000 && 0 <= self.b <= 1000
    }

    /// Check that every channel lies within the unit range.
    pub fn is_in_unit_range(&self) -> (v: bool)
        ensures
            v == self.in_unit_range(),
    {
        0 <= self.r && self.r <= 1000 && 0 <= self.g && self.g <= 1000 && 0 <= self.b && self.b
            <= 1000
    }
}

} // verus!
