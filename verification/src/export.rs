//! Asset export configuration and validation.
//!
//! Export configurations for turning approved variations into game-engine
//! assets. As everywhere in this crate, fractional settings are fixed-point
//! values in thousandths (`500` is one half); engine unit scales are plain
//! integers (meters are scale 1, centimeters scale 100).

use vstd::prelude::*;

use crate::ext::{lower_of, str_to_lowercase};
use crate::textfmt::str_contains_char;
use crate::Rgb;

verus! {

/// Export configuration errors.
#[derive(Debug, Clone)]
pub enum ExportError {
    InvalidLodConfig { reason: String },
    InvalidMaterialConfig { reason: String },
    InvalidNamingConfig { reason: String },
    IncompatibleSettings { reason: String },
}

/// Supported 3D export formats.
#[derive(Debug, Clone, Copy, PartialEq, Eq, Structural)]
pub enum ExportFormat {
    Gltf,
    Obj,
    Fbx,
}

/// The file extension of an export format.
pub open spec fn format_extension(f: ExportFormat) -> Seq<char> {
    match f {
        ExportFormat::Gltf => "glb"@,
        ExportFormat::Obj => "obj"@,
        ExportFormat::Fbx => "fbx"@,
    }
}

/// Whether a format can carry levels of detail.
pub open spec fn format_supports_lod(f: ExportFormat) -> bool {
    match f {
        ExportFormat::Gltf => true,
        ExportFormat::Obj => false,
        ExportFormat::Fbx => true,
    }
}

impl ExportFormat {
    /// Get the file extension for this format.
    pub fn extension(&self) -> (r: &'static str)
        ensures
            r@ == format_extension(*self),
    {
        match self {
            ExportFormat::Gltf => "glb",
            ExportFormat::Obj => "obj",
            ExportFormat::Fbx => "fbx",
        }
    }

    /// Check if this format supports LOD (level of detail) chains.
    pub fn supports_lod(&self) -> (r: bool)
        ensures
            r == format_supports_lod(*self),
    {
        match self {
            ExportFormat::Gltf => true,
            ExportFormat::Obj => false,
            ExportFormat::Fbx => true,
        }
    }

    /// Check if this format supports embedded materials (all of them do).
    pub fn supports_materials(&self) -> (r: bool)
        ensures
            r == true,
    {
        match self {
            ExportFormat::Gltf => true,
            ExportFormat::Obj => true,
            ExportFormat::Fbx => true,
        }
    }
}

/// Coordinate system axis.
#[derive(Debug, Clone, Copy, PartialEq, Eq, Structural)]
pub enum Axis {
    X,
    Y,
    Z,
}

/// Target game engine for export optimization.
#[derive(Debug, Clone, Copy, PartialEq, Eq, Structural)]
pub enum TargetEngine {
    Bevy,
    UnrealEngine5,
    UnrealEngine4,
    Unity,
    Generic,
}

/// The up-axis an engine expects: Z for Unreal, Y everywhere else.
pub open spec fn engine_up_axis(e: TargetEngine) -> Axis {
    match e {
        TargetEngine::UnrealEngine5 => Axis::Z,
        TargetEngine::UnrealEngine4 => Axis::Z,
        _ => Axis::Y,
    }
}

/// An engine's unit scale relative to meters: 100 for the
/// centimeter-based Unreal engines, 1 for the rest.
pub open spec fn engine_unit_scale(e: TargetEngine) -> u32 {
    match e {
        TargetEngine::UnrealEngine5 => 100,
        TargetEngine::UnrealEngine4 => 100,
        _ => 1,
    }
}

/// Whether an engine uses a right-handed coordinate system
/// (the Unreal engines are left-handed).
pub open spec fn engine_right_handed(e: TargetEngine) -> bool {
    match e {
        TargetEngine::UnrealEngine5 => false,
        TargetEngine::UnrealEngine4 => false,
        _ => true,
    }
}

impl TargetEngine {
    /// Get the recommended up-axis for this engine.
    pub fn up_axis(&self) -> (r: Axis)
        ensures
            r == engine_up_axis(*self),
    {
        match self {
            TargetEngine::UnrealEngine5 | TargetEngine::UnrealEngine4 => Axis::Z,
            _ => Axis::Y,
        }
    }

    /// Get the recommended unit scale relative to meters and the unit's
    /// name: meters at scale 1, or centimeters at scale 100 for Unreal.
    pub fn unit_info(&self) -> (r: (u32, &'static str))
        ensures
            r.0 == engine_unit_scale(*self),
            engine_unit_scale(*self) == 1 ==> r.1@ == "meters"@,
            engine_unit_scale(*self) == 100 ==> r.1@ == "centimeters"@,
    {
        match self {
            TargetEngine::UnrealEngine5 | TargetEngine::UnrealEngine4 => (100, "centimeters"),
            _ => (1, "meters"),
        }
    }

    /// Check if the engine uses a right-handed coordinate system.
    pub fn is_right_handed(&self) -> (r: bool)
        ensures
            r == engine_right_handed(*self),
    {
        match self {
            TargetEngine::UnrealEngine5 | TargetEngine::UnrealEngine4 => false,
            _ => true,
        }
    }
}

/// A power of two: one, or twice a power of two.
pub open spec fn is_pow2(n: nat) -> bool
    decreases n,
{
    if n == 0 {
        false
    } else if n == 1 {
        true
    } else {
        n % 2 == 0 && is_pow2(n / 2)
    }
}

/// Check whether a value is a power of two by halving it down.
fn u32_is_power_of_two(n: u32) -> (r: bool)
    ensures
        r == is_pow2(n as nat),
{
    if n == 0 {
        return false;
    }
    let mut m = n;
    while m > 1
        invariant
            m >= 1,
            is_pow2(n as nat) == is_pow2(m as nat),
        decreases m,
    {
        if m % 2 == 1 {
            return false;
        }
        m = m / 2;
    }
    true
}

/// The texture edge lengths the presets use are powers of two.
proof fn lemma_preset_resolutions_pow2()
    ensures
        is_pow2(1024nat),
        is_pow2(2048nat),
{
    reveal_with_fuel(is_pow2, 13);
}

/// LOD (level of detail) generation configuration.
#[derive(Debug, Clone, PartialEq)]
pub struct LodConfig {
    /// Number of LOD levels (0 = just the base mesh).
    pub level_count: u32,
    /// Triangle reduction per level, in thousandths, strictly between
    /// 0 and 1000.
    pub reduction_factor: i64,
    /// Minimum triangles for the lowest LOD.
    pub min_triangle_count: u32,
    /// Switching distances in engine units, thousandths, strictly
    /// ascending.
    pub distance_thresholds: Vec<i64>,
}

/// A strictly ascending run of switching distances.
pub open spec fn thresholds_ascending(s: Seq<i64>) -> bool {
    forall|i: int| 0 <= i < s.len() - 1 ==> (#[trigger] s[i]) < s[i + 1]
}

impl LodConfig {
    /// The configuration is acceptable: a real reduction per level, a
    /// positive floor for the lowest LOD, and ascending switch distances.
    pub open spec fn acceptable(self) -> bool {
        &&& 0 < self.reduction_factor < 1000
        &&& self.min_triangle_count > 0
        &&& thresholds_ascending(self.distance_thresholds@)
    }

    /// Create an LOD config optimized for Bevy (distance-based).
    pub fn for_bevy() -> (r: LodConfig)
        ensures
            r.level_count == 3,
            r.reduction_factor == 500,
            r.min_triangle_count == 100,
            r.distance_thresholds@ == seq![0i64, 15000i64, 50000i64, 150000i64],
            r.acceptable(),
    {
        let r = LodConfig {
            level_count: 3,
            reduction_factor: 500,
            min_triangle_count: 100,
            distance_thresholds: vec![0, 15000, 50000, 150000],
        };
        proof {
            assert(r.distance_thresholds@ =~= seq![0i64, 15000i64, 50000i64, 150000i64]);
        }
        r
    }

    /// Validate the LOD configuration; succeeds exactly when it is
    /// acceptable.
    #[verifier::loop_isolation(false)]
    pub fn validate(&self) -> (r: Result<(), ExportError>)
        ensures
            r is Ok <==> self.acceptable(),
            r matches Err(e) ==> e matches ExportError::InvalidLodConfig { .. },
    {
        if self.reduction_factor <= 0 || self.reduction_factor >= 1000 {
            return Err(ExportError::InvalidLodConfig {
                reason: String::from_str("reduction factor must be strictly between 0 and 1"),
            });
        }
        if self.min_triangle_count == 0 {
            return Err(ExportError::InvalidLodConfig {
                reason: String::from_str("minimum triangle count must be positive"),
            });
        }
        let n = self.distance_thresholds.len();
        let mut j: usize = 1;
        while j < n
            invariant
                1 <= j,
                n == self.distance_thresholds@.len(),
                forall|k: int|
                    0 <= k < j - 1 ==> (#[trigger] self.distance_thresholds@[k])
                        < self.distance_thresholds@[k + 1],
            decreases n - j,
        {
            if self.distance_thresholds[j - 1] >= self.distance_thresholds[j] {
                proof {
                    let bad = j - 1 as int;
                    assert(!(self.distance_thresholds@[bad] < self.distance_thresholds@[bad + 1]));
                    assert(!thresholds_ascending(self.distance_thresholds@));
                }
                return Err(ExportError::InvalidLodConfig {
                    reason: String::from_str("distance thresholds must be in ascending order"),
                });
            }
            j = j + 1;
        }
        Ok(())
    }
}

impl Default for LodConfig {
    /// Three levels halving the triangle count, with the standard
    /// switching distances.
    fn default() -> (r: LodConfig)
        ensures
            r.level_count == 3,
            r.reduction_factor == 500,
            r.min_triangle_count == 100,
            r.distance_thresholds@ == seq![0i64, 10000i64, 30000i64, 100000i64],
            r.acceptable(),
    {
        let r = LodConfig {
            level_count: 3,
            reduction_factor: 500,
            min_triangle_count: 100,
            distance_thresholds: vec![0, 10000, 30000, 100000],
        };
        proof {
            assert(r.distance_thresholds@ =~= seq![0i64, 10000i64, 30000i64, 100000i64]);
        }
        r
    }
}

/// Material system for export.
#[derive(Debug, Clone, Copy, PartialEq, Eq, Structural)]
pub enum MaterialSystem {
    Pbr,
    Legacy,
}

/// Material export configuration.
#[derive(Debug, Clone, PartialEq)]
pub struct MaterialConfig {
    pub system: MaterialSystem,
    pub generate_textures: bool,
    /// Texture edge length in pixels; must be a power of two when
    /// textures are generated.
    pub texture_resolution: u32,
    pub generate_normal_maps: bool,
    pub generate_ao_maps: bool,
    /// Combined metallic-roughness texture, standard for PBR.
    pub generate_metallic_roughness: bool,
    /// Flat color, channels in thousandths of full intensity, when not
    /// using textures.
    pub base_color: Option<Rgb>,
    /// Roughness in thousandths, within [0, 1000].
    pub roughness: i64,
    /// Metalness in thousandths, within [0, 1000].
    pub metallic: i64,
}

impl MaterialConfig {
    /// The configuration is acceptable: a power-of-two resolution when
    /// textures are on, PBR scalars inside the unit range, and a flat
    /// color, if any, inside the unit range.
    pub open spec fn acceptable(self) -> bool {
        &&& self.generate_textures ==> is_pow2(self.texture_resolution as nat)
        &&& 0 <= self.roughness <= 1000
        &&& 0 <= self.metallic <= 1000
        &&& self.base_color matches Some(c) ==> c.in_unit_range()
    }

    /// Create a config optimized for Bevy (PBR workflow).
    pub fn for_bevy() -> (r: MaterialConfig)
        ensures
            r == (MaterialConfig {
                system: MaterialSystem::Pbr,
                generate_textures: true,
                texture_resolution: 1024,
                generate_normal_maps: true,
                generate_ao_maps: true,
                generate_metallic_roughness: true,
                base_color: None,
                roughness: 700,
                metallic: 0,
            }),
    {
        MaterialConfig {
            system: MaterialSystem::Pbr,
            generate_textures: true,
            texture_resolution: 1024,
            generate_normal_maps: true,
            generate_ao_maps: true,
            generate_metallic_roughness: true,
            base_color: None,
            roughness: 700,
            metallic: 0,
        }
    }

    /// Validate the material configuration; succeeds exactly when it is
    /// acceptable.
    pub fn validate(&self) -> (r: Result<(), ExportError>)
        ensures
            r is Ok <==> self.acceptable(),
            r matches Err(e) ==> e matches ExportError::InvalidMaterialConfig { .. },
    {
        if self.generate_textures {
            if !u32_is_power_of_two(self.texture_resolution) {
                return Err(ExportError::InvalidMaterialConfig {
                    reason: String::from_str("texture resolution is not a power of 2"),
                });
            }
        }
        if self.roughness < 0 || self.roughness > 1000 {
            return Err(ExportError::InvalidMaterialConfig {
                reason: String::from_str("roughness must be within the unit range"),
            });
        }
        if self.metallic < 0 || self.metallic > 1000 {
            return Err(ExportError::InvalidMaterialConfig {
                reason: String::from_str("metallic must be within the unit range"),
            });
        }
        if let Some(color) = &self.base_color {
            if !color.is_in_unit_range() {
                return Err(ExportError::InvalidMaterialConfig {
                    reason: String::from_str("base color channel out of range"),
                });
            }
        }
        Ok(())
    }
}

impl Default for MaterialConfig {
    /// The PBR defaults for game export: 2048-pixel textures, normal,
    /// ambient-occlusion and metallic-roughness maps, roughness 0.7.
    fn default() -> (r: MaterialConfig)
        ensures
            r == (MaterialConfig {
                system: MaterialSystem::Pbr,
                generate_textures: true,
                texture_resolution: 2048,
                generate_normal_maps: true,
                generate_ao_maps: true,
                generate_metallic_roughness: true,
                base_color: None,
                roughness: 700,
                metallic: 0,
            }),
    {
        MaterialConfig {
            system: MaterialSystem::Pbr,
            generate_textures: true,
            texture_resolution: 2048,
            generate_normal_maps: true,
            generate_ao_maps: true,
            generate_metallic_roughness: true,
            base_color: None,
            roughness: 700,
            metallic: 0,
        }
    }
}

/// Asset naming conventions.
#[derive(Debug, Clone, PartialEq)]
pub struct NamingConfig {
    pub prefix: String,
    pub include_session_id: bool,
    pub include_variation_id: bool,
    pub separator: String,
    pub lowercase: bool,
}

/// Parts joined with a separator between consecutive parts.
pub open spec fn join_parts(parts: Seq<Seq<char>>, sep: Seq<char>) -> Seq<char>
    decreases parts.len(),
{
    if parts.len() == 0 {
        Seq::empty()
    } else if parts.len() == 1 {
        parts[0]
    } else {
        join_parts(parts.drop_last(), sep) + sep + parts.last()
    }
}

impl NamingConfig {
    /// The filename parts this config selects: the prefix if nonempty,
    /// the label if nonempty, the variation id if included.
    pub open spec fn name_parts(self, label: Seq<char>, vid: Seq<char>) -> Seq<Seq<char>> {
        let with_prefix: Seq<Seq<char>> = if self.prefix@.len() > 0 {
            seq![self.prefix@]
        } else {
            seq![]
        };
        let with_label = if label.len() > 0 {
            with_prefix.push(label)
        } else {
            with_prefix
        };
        if self.include_variation_id {
            with_label.push(vid)
        } else {
            with_label
        }
    }

    /// The filename this config generates: the selected parts joined with
    /// the separator, lowercased if so configured, then a dot and the
    /// extension.
    pub open spec fn filename_seq(self, label: Seq<char>, vid: Seq<char>, ext: Seq<char>) -> Seq<
        char,
    > {
        let joined = join_parts(self.name_parts(label, vid), self.separator@);
        let cased = if self.lowercase {
            lower_of(joined)
        } else {
            joined
        };
        cased + seq!['.'] + ext
    }

    /// None of the characters a filename cannot carry appears in the
    /// prefix.
    pub open spec fn acceptable(self) -> bool {
        &&& !self.prefix@.contains('/')
        &&& !self.prefix@.contains('\\')
        &&& !self.prefix@.contains(':')
        &&& !self.prefix@.contains('*')
        &&& !self.prefix@.contains('?')
        &&& !self.prefix@.contains('"')
        &&& !self.prefix@.contains('<')
        &&& !self.prefix@.contains('>')
        &&& !self.prefix@.contains('|')
    }

    /// Create a naming config for Bevy: lowercase, no prefix, the
    /// variation id included, joined with underscores.
    pub fn for_bevy() -> (r: NamingConfig)
        ensures
            r.prefix@ == Seq::<char>::empty(),
            !r.include_session_id,
            r.include_variation_id,
            r.separator@ == "_"@,
            r.lowercase,
            r.acceptable(),
    {
        NamingConfig {
            prefix: String::new(),
            include_session_id: false,
            include_variation_id: true,
            separator: String::from_str("_"),
            lowercase: true,
        }
    }

    /// Generate a filename from this config: the selected parts joined by
    /// the separator, lowercased if configured, with the extension
    /// appended after a dot.
    pub fn generate_filename(&self, user_label: &str, variation_id: &str, extension: &str) -> (r:
        String)
        ensures
            r@ == self.filename_seq(user_label@, variation_id@, extension@),
    {
        let mut parts: Vec<&str> = Vec::new();
        if !self.prefix.as_str().is_empty() {
            parts.push(self.prefix.as_str());
        }
        if !user_label.is_empty() {
            parts.push(user_label);
        }
        if self.include_variation_id {
            parts.push(variation_id);
        }
        proof {
            assert(parts@.map_values(|p: &str| p@) =~= self.name_parts(
                user_label@,
                variation_id@,
            ));
        }
        let ghost all = parts@.map_values(|p: &str| p@);
        let mut name = String::new();
        let mut i: usize = 0;
        proof {
            assert(all.subrange(0, 0) =~= Seq::<Seq<char>>::empty());
        }
        while i < parts.len()
            invariant
                i <= parts@.len(),
                all == parts@.map_values(|p: &str| p@),
                name@ == join_parts(all.subrange(0, i as int), self.separator@),
            decreases parts@.len() - i,
        {
            if i > 0 {
                name.append(self.separator.as_str());
            }
            name.append(parts[i]);
            i = i + 1;
            proof {
                let upto = all.subrange(0, i as int);
                assert(upto.drop_last() =~= all.subrange(0, i - 1));
                assert(upto.last() == all[i - 1]);
                if i > 1 {
                    assert(name@ == join_parts(upto.drop_last(), self.separator@)
                        + self.separator@ + upto.last());
                } else {
                    assert(name@ =~= all[0]);
                }
            }
        }
        proof {
            assert(all.subrange(0, parts@.len() as int) =~= all);
        }
        let cased = if self.lowercase {
            str_to_lowercase(name.as_str())
        } else {
            name
        };
        let mut out = cased;
        out.append(".");
        out.append(extension);
        proof {
            reveal_strlit(".");
            assert(out@ =~= self.filename_seq(user_label@, variation_id@, extension@));
        }
        out
    }

    /// Validate the naming configuration; succeeds exactly when the
    /// prefix holds no invalid filename character.
    pub fn validate(&self) -> (r: Result<(), ExportError>)
        ensures
            r is Ok <==> self.acceptable(),
            r matches Err(e) ==> e matches ExportError::InvalidNamingConfig { .. },
    {
        let bad = str_contains_char(self.prefix.as_str(), '/')
            || str_contains_char(self.prefix.as_str(), '\\')
            || str_contains_char(self.prefix.as_str(), ':')
            || str_contains_char(self.prefix.as_str(), '*')
            || str_contains_char(self.prefix.as_str(), '?')
            || str_contains_char(self.prefix.as_str(), '"')
            || str_contains_char(self.prefix.as_str(), '<')
            || str_contains_char(self.prefix.as_str(), '>')
            || str_contains_char(self.prefix.as_str(), '|');
        if bad {
            Err(ExportError::InvalidNamingConfig {
                reason: String::from_str("prefix contains an invalid filename character"),
            })
        } else {
            Ok(())
        }
    }
}

impl Default for NamingConfig {
    /// No prefix, the variation id included, underscore separator,
    /// lowercase names.
    fn default() -> (r: NamingConfig)
        ensures
            r.prefix@ == Seq::<char>::empty(),
            !r.include_session_id,
            r.include_variation_id,
            r.separator@ == "_"@,
            r.lowercase,
            r.acceptable(),
    {
        NamingConfig {
            prefix: String::new(),
            include_session_id: false,
            include_variation_id: true,
            separator: String::from_str("_"),
            lowercase: true,
        }
    }
}

/// Complete export configuration for the export pipeline.
#[derive(Debug, Clone, PartialEq)]
pub struct ExportConfig {
    pub format: ExportFormat,
    pub target_engine: TargetEngine,
    pub lod_config: Option<LodConfig>,
    pub material_config: MaterialConfig,
    pub naming: NamingConfig,
}

impl ExportConfig {
    /// The LOD part alone is acceptable: either no LOD chain, or one on a
    /// format that supports it and itself acceptable.
    pub open spec fn lod_part_acceptable(self) -> bool {
        self.lod_config matches Some(l) ==> format_supports_lod(self.format) && l.acceptable()
    }

    /// The whole configuration is acceptable: the LOD part, the material
    /// configuration, and the naming configuration.
    pub open spec fn acceptable(self) -> bool {
        &&& self.lod_part_acceptable()
        &&& self.material_config.acceptable()
        &&& self.naming.acceptable()
    }

    /// Create the preset for the Bevy game engine (the primary target).
    pub fn bevy() -> (r: ExportConfig)
        ensures
            r.format == ExportFormat::Gltf,
            r.target_engine == TargetEngine::Bevy,
            r.lod_config is Some,
            r.acceptable(),
    {
        proof {
            lemma_preset_resolutions_pow2();
        }
        ExportConfig {
            format: ExportFormat::Gltf,
            target_engine: TargetEngine::Bevy,
            lod_config: Some(LodConfig::for_bevy()),
            material_config: MaterialConfig::for_bevy(),
            naming: NamingConfig::for_bevy(),
        }
    }

    /// Create the preset for Unreal Engine 5: FBX, a static-mesh prefix,
    /// mixed-case names.
    pub fn unreal_engine_5() -> (r: ExportConfig)
        ensures
            r.format == ExportFormat::Fbx,
            r.target_engine == TargetEngine::UnrealEngine5,
            r.lod_config is Some,
            r.naming.prefix@ == "SM"@,
            !r.naming.lowercase,
            r.acceptable(),
    {
        proof {
            lemma_preset_resolutions_pow2();
        }
        let mut naming = NamingConfig::default();
        naming.prefix = String::from_str("SM");
        naming.lowercase = false;
        let r = ExportConfig {
            format: ExportFormat::Fbx,
            target_engine: TargetEngine::UnrealEngine5,
            lod_config: Some(LodConfig::default()),
            material_config: MaterialConfig::default(),
            naming,
        };
        proof {
            reveal_strlit("SM");
            assert(!r.naming.prefix@.contains('/'));
            assert(!r.naming.prefix@.contains('\\'));
            assert(!r.naming.prefix@.contains(':'));
            assert(!r.naming.prefix@.contains('*'));
            assert(!r.naming.prefix@.contains('?'));
            assert(!r.naming.prefix@.contains('"'));
            assert(!r.naming.prefix@.contains('<'));
            assert(!r.naming.prefix@.contains('>'));
            assert(!r.naming.prefix@.contains('|'));
        }
        r
    }

    /// Create the preset for the Unity engine: FBX with the default
    /// naming and materials.
    pub fn unity() -> (r: ExportConfig)
        ensures
            r.format == ExportFormat::Fbx,
            r.target_engine == TargetEngine::Unity,
            r.lod_config is Some,
            r.acceptable(),
    {
        proof {
            lemma_preset_resolutions_pow2();
        }
        ExportConfig {
            format: ExportFormat::Fbx,
            target_engine: TargetEngine::Unity,
            lod_config: Some(LodConfig::default()),
            material_config: MaterialConfig::default(),
            naming: NamingConfig::default(),
        }
    }

    /// Create the preset for web previews: GLTF, no LOD chain, smaller
    /// textures, a preview prefix.
    pub fn web_preview() -> (r: ExportConfig)
        ensures
            r.format == ExportFormat::Gltf,
            r.target_engine == TargetEngine::Generic,
            r.lod_config is None,
            r.naming.prefix@ == "preview"@,
            r.material_config.texture_resolution == 1024,
            r.acceptable(),
    {
        proof {
            lemma_preset_resolutions_pow2();
        }
        let mut material_config = MaterialConfig::default();
        material_config.texture_resolution = 1024;
        let mut naming = NamingConfig::default();
        naming.prefix = String::from_str("preview");
        naming.lowercase = true;
        let r = ExportConfig {
            format: ExportFormat::Gltf,
            target_engine: TargetEngine::Generic,
            lod_config: None,
            material_config,
            naming,
        };
        proof {
            reveal_strlit("preview");
            assert(!r.naming.prefix@.contains('/'));
            assert(!r.naming.prefix@.contains('\\'));
            assert(!r.naming.prefix@.contains(':'));
            assert(!r.naming.prefix@.contains('*'));
            assert(!r.naming.prefix@.contains('?'));
            assert(!r.naming.prefix@.contains('"'));
            assert(!r.naming.prefix@.contains('<'));
            assert(!r.naming.prefix@.contains('>'));
            assert(!r.naming.prefix@.contains('|'));
        }
        r
    }

    /// Validate the entire export configuration; succeeds exactly when it
    /// is acceptable, and the error kind names the first failing part in
    /// check order: an LOD chain on a format without LOD support is
    /// incompatible settings, then the LOD, material and naming
    /// configurations report their own kinds.
    pub fn validate(&self) -> (r: Result<(), ExportError>)
        ensures
            r is Ok <==> self.acceptable(),
            self.lod_config matches Some(l) && !format_supports_lod(self.format) ==> (
            r matches Err(e) && e matches ExportError::IncompatibleSettings { .. }),
            self.lod_config matches Some(l) && format_supports_lod(self.format)
                && !l.acceptable() ==> (r matches Err(e)
                && e matches ExportError::InvalidLodConfig { .. }),
            self.lod_part_acceptable() && !self.material_config.acceptable() ==> (r matches Err(e)
                && e matches ExportError::InvalidMaterialConfig { .. }),
            self.lod_part_acceptable() && self.material_config.acceptable()
                && !self.naming.acceptable() ==> (r matches Err(e)
                && e matches ExportError::InvalidNamingConfig { .. }),
    {
        if let Some(lod_config) = &self.lod_config {
            if !self.format.supports_lod() {
                return Err(ExportError::IncompatibleSettings {
                    reason: String::from_str("format does not support LOD generation"),
                });
            }
            match lod_config.validate() {
                Err(e) => {
                    return Err(e);
                },
                Ok(()) => {},
            }
        }
        match self.material_config.validate() {
            Err(e) => {
                return Err(e);
            },
            Ok(()) => {},
        }
        match self.naming.validate() {
            Err(e) => {
                return Err(e);
            },
            Ok(()) => {},
        }
        Ok(())
    }
}

impl Default for ExportConfig {
    /// The Bevy preset is the default.
    fn default() -> (r: ExportConfig)
        ensures
            r.format == ExportFormat::Gltf,
            r.target_engine == TargetEngine::Bevy,
            r.acceptable(),
    {
        ExportConfig::bevy()
    }
}

} // verus!
