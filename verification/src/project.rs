//! Project management and style consistency.
//!
//! Projects group related sessions and keep one visual style across all
//! their assets: a style profile adjusts the default parameters of every
//! session created through the project, and per-asset-class overrides can
//! replace them outright. The override table is keyed by the asset-class
//! enum itself — a small closed set — rather than by any rendered name.

use vstd::prelude::*;

use crate::ext::{fresh_uuid_value, now_unix_seconds, str_trim, trimmed_of};
use crate::params::{
    reports_first_out_of_range, sat_sub, sub_saturating, Bounded, ParamError, ParameterSetV1,
};
use crate::session::{BaseInputRefV1, SessionError, SessionV1};
use crate::{AssetClass, Rgb, Seed, UniqueId};

verus! {

/// Project-related errors.
#[derive(Debug, Clone)]
pub enum ProjectError {
    /// A project name cannot be blank.
    EmptyName,
    /// An aesthetic profile value lies outside the unit range.
    InvalidAestheticValue { field: String, value: i64 },
    /// A style value lies outside the unit range.
    InvalidStyleValue { field: String, value: i64 },
    /// A palette color channel lies outside the unit range.
    InvalidColorValue { color_index: usize, channel: usize, value: i64 },
    /// Creating a session inside the project failed.
    SessionCreation(SessionError),
    /// A per-class override holds parameters outside their bounds.
    InvalidOverrideParams(ParamError),
}

/// A value lies within the fixed-point unit range.
pub open spec fn unit_range(v: i64) -> bool {
    0 <= v <= 1000
}

/// The error is `InvalidAestheticValue` naming this field and value.
pub open spec fn aesthetic_error_names(e: ProjectError, name: Seq<char>, v: i64) -> bool {
    &&& e matches ProjectError::InvalidAestheticValue { field, value }
    &&& field@ == name
    &&& value == v
}

/// The error is `InvalidStyleValue` naming this field and value.
pub open spec fn style_error_names(e: ProjectError, name: Seq<char>, v: i64) -> bool {
    &&& e matches ProjectError::InvalidStyleValue { field, value }
    &&& field@ == name
    &&& value == v
}

/// The error names the first aesthetic field outside the unit range, in
/// declaration order, with its value.
pub open spec fn reports_first_bad_aesthetic(p: AestheticProfile, e: ProjectError) -> bool {
    if !unit_range(p.geometry_complexity) {
        aesthetic_error_names(e, "geometry_complexity"@, p.geometry_complexity)
    } else if !unit_range(p.realism) {
        aesthetic_error_names(e, "realism"@, p.realism)
    } else if !unit_range(p.wear_tendency) {
        aesthetic_error_names(e, "wear_tendency"@, p.wear_tendency)
    } else if !unit_range(p.symmetry_preference) {
        aesthetic_error_names(e, "symmetry_preference"@, p.symmetry_preference)
    } else {
        true
    }
}

/// The first out-of-range channel of one color, with its value: red,
/// then green, then blue.
pub open spec fn first_bad_channel(c: Rgb, channel: usize, value: i64) -> bool {
    if !unit_range(c.r) {
        channel == 0 && value == c.r
    } else if !unit_range(c.g) {
        channel == 1 && value == c.g
    } else {
        channel == 2 && value == c.b
    }
}

/// The error is `InvalidColorValue` naming the first color outside the
/// unit range — every earlier color acceptable — and, within it, the
/// first out-of-range channel with its value.
pub open spec fn reports_first_bad_color(p: ColorPalette, e: ProjectError) -> bool {
    &&& e matches ProjectError::InvalidColorValue { color_index, channel, value }
    &&& color_index < p.colors@.len()
    &&& !p.colors@[color_index as int].in_unit_range()
    &&& forall|k: int| 0 <= k < color_index as int ==> (#[trigger] p.colors@[k]).in_unit_range()
    &&& first_bad_channel(p.colors@[color_index as int], channel, value)
}

/// The error reports the first failing style check: the aesthetic, then
/// the palette, then the two style scalars, each with its payload.
pub open spec fn reports_first_style_failure(p: ProjectStyleProfile, e: ProjectError) -> bool {
    if !p.aesthetic.acceptable() {
        reports_first_bad_aesthetic(p.aesthetic, e)
    } else if !p.color_palette.acceptable() {
        reports_first_bad_color(p.color_palette, e)
    } else if !unit_range(p.pixel_density) {
        style_error_names(e, "pixel_density"@, p.pixel_density)
    } else if !unit_range(p.edge_sharpness) {
        style_error_names(e, "edge_sharpness"@, p.edge_sharpness)
    } else {
        true
    }
}

/// This override slot is present and holds a field outside its bounds.
pub open spec fn override_out_of_bounds(o: Option<ParameterSetV1>) -> bool {
    o matches Some(p) && !p.all_in_bounds()
}

/// The error is `InvalidOverrideParams` whose inner error names the first
/// out-of-bounds field of this override.
pub open spec fn reports_override_out_of_range(o: Option<ParameterSetV1>, e: ProjectError) -> bool {
    &&& e matches ProjectError::InvalidOverrideParams(pe)
    &&& (o matches Some(p) ==> reports_first_out_of_range(p, pe))
}

/// Visual texture style for assets.
#[derive(Debug, Clone, Copy, PartialEq, Eq, Structural)]
pub enum TextureStyle {
    /// Pixel art with the given pixel size per unit.
    PixelArt { pixel_size: u32 },
    /// Photorealistic textures.
    Realistic,
    /// Hand-painted artistic style.
    HandPainted,
    /// Stylized or cartoon rendering.
    Stylized,
    /// Low-poly, flat-shaded aesthetic.
    LowPoly,
}

impl Default for TextureStyle {
    /// Stylized rendering is the default.
    fn default() -> (r: TextureStyle)
        ensures
            r == TextureStyle::Stylized,
    {
        TextureStyle::Stylized
    }
}

/// Aesthetic profile defining overall visual character; every field is a
/// fixed-point value in thousandths, within the unit range.
#[derive(Debug, Clone, Copy, PartialEq, Eq, Structural)]
pub struct AestheticProfile {
    /// Geometry complexity: 0 is simple and blocky, 1000 highly detailed.
    pub geometry_complexity: i64,
    /// Realism: 0 is cartoon or abstract, 1000 photorealistic.
    pub realism: i64,
    /// Default wear tendency: 0 is pristine, 1000 heavily weathered.
    pub wear_tendency: i64,
    /// Symmetry preference: 0 is asymmetric, 1000 highly symmetric.
    pub symmetry_preference: i64,
}

/// The balanced default aesthetic.
pub open spec fn default_aesthetic() -> AestheticProfile {
    AestheticProfile {
        geometry_complexity: 500,
        realism: 500,
        wear_tendency: 300,
        symmetry_preference: 500,
    }
}

impl Default for AestheticProfile {
    /// Mid-range complexity, realism and symmetry, light wear.
    fn default() -> (r: AestheticProfile)
        ensures
            r == default_aesthetic(),
    {
        AestheticProfile {
            geometry_complexity: 500,
            realism: 500,
            wear_tendency: 300,
            symmetry_preference: 500,
        }
    }
}

impl AestheticProfile {
    /// Every field lies within the unit range.
    pub open spec fn acceptable(self) -> bool {
        &&& 0 <= self.geometry_complexity <= 1000
        &&& 0 <= self.realism <= 1000
        &&& 0 <= self.wear_tendency <= 1000
        &&& 0 <= self.symmetry_preference <= 1000
    }

    /// Validate that every profile value lies within the unit range,
    /// naming the first field found outside it.
    pub fn validate(&self) -> (r: Result<(), ProjectError>)
        ensures
            r is Ok <==> self.acceptable(),
            r matches Err(e) ==> e matches ProjectError::InvalidAestheticValue { .. },
            r matches Err(e) ==> reports_first_bad_aesthetic(*self, e),
    {
        if self.geometry_complexity < 0 || self.geometry_complexity > 1000 {
            return Err(ProjectError::InvalidAestheticValue {
                field: String::from_str("geometry_complexity"),
                value: self.geometry_complexity,
            });
        }
        if self.realism < 0 || self.realism > 1000 {
            return Err(ProjectError::InvalidAestheticValue {
                field: String::from_str("realism"),
                value: self.realism,
            });
        }
        if self.wear_tendency < 0 || self.wear_tendency > 1000 {
            return Err(ProjectError::InvalidAestheticValue {
                field: String::from_str("wear_tendency"),
                value: self.wear_tendency,
            });
        }
        if self.symmetry_preference < 0 || self.symmetry_preference > 1000 {
            return Err(ProjectError::InvalidAestheticValue {
                field: String::from_str("symmetry_preference"),
                value: self.symmetry_preference,
            });
        }
        Ok(())
    }
}

/// Color palette definition for consistent coloring.
#[derive(Debug, Clone, PartialEq)]
pub struct ColorPalette {
    /// Palette name.
    pub name: String,
    /// Primary colors, channels in thousandths.
    pub colors: Vec<Rgb>,
    /// Whether to strictly limit to these colors or use them as guidance.
    pub strict: bool,
}

impl ColorPalette {
    /// Every color's channels lie within the unit range.
    pub open spec fn acceptable(self) -> bool {
        forall|i: int| 0 <= i < self.colors@.len() ==> (#[trigger] self.colors@[i]).in_unit_range()
    }

    /// Create a blocky, saturated palette in the spirit of classic voxel
    /// games.
    pub fn minecraft() -> (r: ColorPalette)
        ensures
            r.name@ == "Minecraft"@,
            r.colors@ == seq![
                (Rgb { r: 545, g: 271, b: 75 }),
                (Rgb { r: 502, g: 502, b: 502 }),
                (Rgb { r: 133, g: 545, b: 133 }),
                (Rgb { r: 824, g: 706, b: 549 }),
            ],
            r.strict,
            r.acceptable(),
    {
        let r = ColorPalette {
            name: String::from_str("Minecraft"),
            colors: vec![
                Rgb { r: 545, g: 271, b: 75 },
                Rgb { r: 502, g: 502, b: 502 },
                Rgb { r: 133, g: 545, b: 133 },
                Rgb { r: 824, g: 706, b: 549 },
            ],
            strict: true,
        };
        proof {
            assert(r.colors@ =~= seq![
                (Rgb { r: 545, g: 271, b: 75 }),
                (Rgb { r: 502, g: 502, b: 502 }),
                (Rgb { r: 133, g: 545, b: 133 }),
                (Rgb { r: 824, g: 706, b: 549 }),
            ]);
        }
        r
    }

    /// Create a dark, weathered fantasy palette.
    pub fn dark_fantasy() -> (r: ColorPalette)
        ensures
            r.name@ == "Dark Fantasy"@,
            r.colors@ == seq![
                (Rgb { r: 200, g: 200, b: 200 }),
                (Rgb { r: 300, g: 250, b: 200 }),
                (Rgb { r: 150, g: 150, b: 180 }),
                (Rgb { r: 400, g: 350, b: 300 }),
            ],
            !r.strict,
            r.acceptable(),
    {
        let r = ColorPalette {
            name: String::from_str("Dark Fantasy"),
            colors: vec![
                Rgb { r: 200, g: 200, b: 200 },
                Rgb { r: 300, g: 250, b: 200 },
                Rgb { r: 150, g: 150, b: 180 },
                Rgb { r: 400, g: 350, b: 300 },
            ],
            strict: false,
        };
        proof {
            assert(r.colors@ =~= seq![
                (Rgb { r: 200, g: 200, b: 200 }),
                (Rgb { r: 300, g: 250, b: 200 }),
                (Rgb { r: 150, g: 150, b: 180 }),
                (Rgb { r: 400, g: 350, b: 300 }),
            ]);
        }
        r
    }

    /// Validate that every color channel lies within the unit range,
    /// naming the first color found outside it.
    pub fn validate(&self) -> (r: Result<(), ProjectError>)
        ensures
            r is Ok <==> self.acceptable(),
            r matches Err(e) ==> e matches ProjectError::InvalidColorValue { .. },
            r matches Err(e) ==> reports_first_bad_color(*self, e),
    {
        let n = self.colors.len();
        let mut i: usize = 0;
        while i < n
            invariant
                i <= n,
                n == self.colors@.len(),
                forall|k: int| 0 <= k < i ==> (#[trigger] self.colors@[k]).in_unit_range(),
            decreases n - i,
        {
            let c = self.colors[i];
            if c.r < 0 || c.r > 1000 {
                return Err(ProjectError::InvalidColorValue {
                    color_index: i,
                    channel: 0,
                    value: c.r,
                });
            }
            if c.g < 0 || c.g > 1000 {
                return Err(ProjectError::InvalidColorValue {
                    color_index: i,
                    channel: 1,
                    value: c.g,
                });
            }
            if c.b < 0 || c.b > 1000 {
                return Err(ProjectError::InvalidColorValue {
                    color_index: i,
                    channel: 2,
                    value: c.b,
                });
            }
            i = i + 1;
        }
        Ok(())
    }
}

impl Default for ColorPalette {
    /// A neutral gray-and-brown palette, used as guidance only.
    fn default() -> (r: ColorPalette)
        ensures
            r.name@ == "Default"@,
            r.colors@ == seq![
                (Rgb { r: 500, g: 500, b: 500 }),
                (Rgb { r: 600, g: 400, b: 200 }),
                (Rgb { r: 300, g: 300, b: 300 }),
            ],
            !r.strict,
            r.acceptable(),
    {
        let r = ColorPalette {
            name: String::from_str("Default"),
            colors: vec![
                Rgb { r: 500, g: 500, b: 500 },
                Rgb { r: 600, g: 400, b: 200 },
                Rgb { r: 300, g: 300, b: 300 },
            ],
            strict: false,
        };
        proof {
            assert(r.colors@ =~= seq![
                (Rgb { r: 500, g: 500, b: 500 }),
                (Rgb { r: 600, g: 400, b: 200 }),
                (Rgb { r: 300, g: 300, b: 300 }),
            ]);
        }
        r
    }
}

/// Reference to a previously approved asset, kept for style learning.
#[derive(Debug, Clone, PartialEq)]
pub struct AssetReference {
    /// Which approval this references.
    pub approved_id: String,
    /// Path to the generated 3D asset, if one exists.
    pub asset_path: Option<String>,
    /// Unix timestamp of the approval.
    pub approved_at: i64,
}

/// Project-wide style profile for consistency across all sessions.
#[derive(Debug, Clone, PartialEq)]
pub struct ProjectStyleProfile {
    /// Visual texture style.
    pub texture_style: TextureStyle,
    /// Overall aesthetic preferences.
    pub aesthetic: AestheticProfile,
    /// Color palette for consistent coloring.
    pub color_palette: ColorPalette,
    /// Pixel density in thousandths: lower is more pixelated and blocky.
    pub pixel_density: i64,
    /// Edge sharpness in thousandths: 0 smooth and beveled, 1000 hard.
    pub edge_sharpness: i64,
    /// Previously approved assets to learn from.
    pub reference_assets: Vec<AssetReference>,
    /// Learned style vector, components in thousandths.
    pub style_embeddings: Vec<i64>,
    /// Free-form notes about the desired style.
    pub style_notes: String,
}

impl ProjectStyleProfile {
    /// The aesthetic, the palette, and both style scalars are within
    /// their ranges.
    pub open spec fn acceptable(self) -> bool {
        &&& self.aesthetic.acceptable()
        &&& self.color_palette.acceptable()
        &&& 0 <= self.pixel_density <= 1000
        &&& 0 <= self.edge_sharpness <= 1000
    }

    /// The parameters a set takes under this profile: erosion from the
    /// wear tendency, symmetry break as the complement of the symmetry
    /// preference, detail from the geometry complexity, bevel as the
    /// complement of the edge sharpness — then every field clamped.
    pub open spec fn applied_to(self, params: ParameterSetV1) -> ParameterSetV1 {
        ParameterSetV1 {
            height_scale: params.height_scale.clamped_spec(),
            extrusion_depth: params.extrusion_depth.clamped_spec(),
            bevel_amount: (Bounded {
                value: sat_sub(1000, self.edge_sharpness),
                ..params.bevel_amount
            }).clamped_spec(),
            symmetry_break: (Bounded {
                value: sat_sub(1000, self.aesthetic.symmetry_preference),
                ..params.symmetry_break
            }).clamped_spec(),
            erosion_intensity: (Bounded {
                value: self.aesthetic.wear_tendency,
                ..params.erosion_intensity
            }).clamped_spec(),
            detail_density: (Bounded {
                value: self.aesthetic.geometry_complexity,
                ..params.detail_density
            }).clamped_spec(),
        }
    }

    /// Create a blocky, pixelated profile in the spirit of classic voxel
    /// games.
    pub fn minecraft() -> (r: ProjectStyleProfile)
        ensures
            r.texture_style == (TextureStyle::PixelArt { pixel_size: 16 }),
            r.aesthetic == (AestheticProfile {
                geometry_complexity: 200,
                realism: 0,
                wear_tendency: 200,
                symmetry_preference: 700,
            }),
            r.color_palette.name@ == "Minecraft"@,
            r.pixel_density == 100,
            r.edge_sharpness == 1000,
            r.reference_assets@.len() == 0,
            r.style_embeddings@.len() == 0,
            r.acceptable(),
    {
        ProjectStyleProfile {
            texture_style: TextureStyle::PixelArt { pixel_size: 16 },
            aesthetic: AestheticProfile {
                geometry_complexity: 200,
                realism: 0,
                wear_tendency: 200,
                symmetry_preference: 700,
            },
            color_palette: ColorPalette::minecraft(),
            pixel_density: 100,
            edge_sharpness: 1000,
            reference_assets: Vec::new(),
            style_embeddings: Vec::new(),
            style_notes: String::from_str("Blocky, pixelated aesthetic inspired by Minecraft"),
        }
    }

    /// Create a dark, weathered, realistic fantasy profile.
    pub fn dark_fantasy() -> (r: ProjectStyleProfile)
        ensures
            r.texture_style == TextureStyle::Realistic,
            r.aesthetic == (AestheticProfile {
                geometry_complexity: 700,
                realism: 800,
                wear_tendency: 800,
                symmetry_preference: 300,
            }),
            r.color_palette.name@ == "Dark Fantasy"@,
            r.pixel_density == 800,
            r.edge_sharpness == 300,
            r.reference_assets@.len() == 0,
            r.style_embeddings@.len() == 0,
            r.acceptable(),
    {
        ProjectStyleProfile {
            texture_style: TextureStyle::Realistic,
            aesthetic: AestheticProfile {
                geometry_complexity: 700,
                realism: 800,
                wear_tendency: 800,
                symmetry_preference: 300,
            },
            color_palette: ColorPalette::dark_fantasy(),
            pixel_density: 800,
            edge_sharpness: 300,
            reference_assets: Vec::new(),
            style_embeddings: Vec::new(),
            style_notes: String::from_str("Dark, weathered, realistic medieval fantasy"),
        }
    }

    /// Apply this style profile to a parameter set, overwriting the
    /// style-driven fields and clamping everything afterwards.
    pub fn apply_to_params(&self, params: ParameterSetV1) -> (r: ParameterSetV1)
        ensures
            r == self.applied_to(params),
    {
        let mut out = params;
        out.erosion_intensity.value = self.aesthetic.wear_tendency;
        out.symmetry_break.value = sub_saturating(1000, self.aesthetic.symmetry_preference);
        out.detail_density.value = self.aesthetic.geometry_complexity;
        out.bevel_amount.value = sub_saturating(1000, self.edge_sharpness);
        out.clamp_all()
    }

    /// Record a reference to an approved asset, stamped with the current
    /// time (nonnegative, but otherwise the clock's to decide).
    pub fn add_reference(&mut self, approved_id: String, asset_path: Option<String>)
        ensures
            final(self).reference_assets@.len() == old(self).reference_assets@.len() + 1,
            forall|k: int|
                0 <= k < old(self).reference_assets@.len()
                    ==> #[trigger] final(self).reference_assets@[k]
                        == old(self).reference_assets@[k],
            final(self).reference_assets@.last().approved_id == approved_id,
            final(self).reference_assets@.last().asset_path == asset_path,
            final(self).reference_assets@.last().approved_at >= 0,
            *final(self) == (ProjectStyleProfile {
                reference_assets: final(self).reference_assets,
                ..*old(self)
            }),
    {
        let approved_at = now_unix_seconds();
        self.reference_assets.push(AssetReference { approved_id, asset_path, approved_at });
    }

    /// Validate the style profile: the aesthetic, then the palette, then
    /// the two style scalars.
    pub fn validate(&self) -> (r: Result<(), ProjectError>)
        ensures
            r is Ok <==> self.acceptable(),
            r matches Err(e) ==> (e matches ProjectError::InvalidAestheticValue { .. } || (
            e matches ProjectError::InvalidColorValue { .. }
                || e matches ProjectError::InvalidStyleValue { .. })),
            r matches Err(e) ==> reports_first_style_failure(*self, e),
    {
        match self.aesthetic.validate() {
            Err(e) => {
                return Err(e);
            },
            Ok(()) => {},
        }
        match self.color_palette.validate() {
            Err(e) => {
                return Err(e);
            },
            Ok(()) => {},
        }
        if self.pixel_density < 0 || self.pixel_density > 1000 {
            return Err(ProjectError::InvalidStyleValue {
                field: String::from_str("pixel_density"),
                value: self.pixel_density,
            });
        }
        if self.edge_sharpness < 0 || self.edge_sharpness > 1000 {
            return Err(ProjectError::InvalidStyleValue {
                field: String::from_str("edge_sharpness"),
                value: self.edge_sharpness,
            });
        }
        Ok(())
    }
}

impl Default for ProjectStyleProfile {
    /// The stylized default: balanced aesthetic, neutral palette,
    /// mid-range density and sharpness, nothing learned yet.
    fn default() -> (r: ProjectStyleProfile)
        ensures
            r.texture_style == TextureStyle::Stylized,
            r.aesthetic == default_aesthetic(),
            r.color_palette.name@ == "Default"@,
            r.pixel_density == 500,
            r.edge_sharpness == 500,
            r.reference_assets@.len() == 0,
            r.style_embeddings@.len() == 0,
            r.style_notes@.len() == 0,
            r.acceptable(),
    {
        ProjectStyleProfile {
            texture_style: TextureStyle::Stylized,
            aesthetic: AestheticProfile::default(),
            color_palette: ColorPalette::default(),
            pixel_density: 500,
            edge_sharpness: 500,
            reference_assets: Vec::new(),
            style_embeddings: Vec::new(),
            style_notes: String::new(),
        }
    }
}

/// The override table with no class overridden.
pub open spec fn no_overrides() -> ClassOverrides {
    ClassOverrides {
        arena_prop: None::<ParameterSetV1>,
        arena_wall: None::<ParameterSetV1>,
        pillar: None::<ParameterSetV1>,
        debris: None::<ParameterSetV1>,
    }
}

/// Per-asset-class parameter overrides, keyed by the asset-class enum
/// itself: one optional slot per class of the closed set.
#[derive(Debug, Clone, Copy, PartialEq, Eq, Structural)]
pub struct ClassOverrides {
    pub arena_prop: Option<ParameterSetV1>,
    pub arena_wall: Option<ParameterSetV1>,
    pub pillar: Option<ParameterSetV1>,
    pub debris: Option<ParameterSetV1>,
}

impl ClassOverrides {
    /// The slot for one asset class.
    pub open spec fn for_class(self, c: AssetClass) -> Option<ParameterSetV1> {
        match c {
            AssetClass::ArenaProp => self.arena_prop,
            AssetClass::ArenaWall => self.arena_wall,
            AssetClass::Pillar => self.pillar,
            AssetClass::Debris => self.debris,
        }
    }

    /// The table with one slot replaced.
    pub open spec fn with_class(self, c: AssetClass, v: Option<ParameterSetV1>) -> ClassOverrides {
        match c {
            AssetClass::ArenaProp => ClassOverrides { arena_prop: v, ..self },
            AssetClass::ArenaWall => ClassOverrides { arena_wall: v, ..self },
            AssetClass::Pillar => ClassOverrides { pillar: v, ..self },
            AssetClass::Debris => ClassOverrides { debris: v, ..self },
        }
    }

    /// Every present override keeps its parameters within bounds.
    pub open spec fn all_in_bounds(self) -> bool {
        &&& self.arena_prop matches Some(p) ==> p.all_in_bounds()
        &&& self.arena_wall matches Some(p) ==> p.all_in_bounds()
        &&& self.pillar matches Some(p) ==> p.all_in_bounds()
        &&& self.debris matches Some(p) ==> p.all_in_bounds()
    }

    /// Look up the override for one asset class.
    pub fn get(&self, c: AssetClass) -> (r: Option<ParameterSetV1>)
        ensures
            r == self.for_class(c),
    {
        match c {
            AssetClass::ArenaProp => self.arena_prop,
            AssetClass::ArenaWall => self.arena_wall,
            AssetClass::Pillar => self.pillar,
            AssetClass::Debris => self.debris,
        }
    }
}

impl Default for ClassOverrides {
    /// No class overridden.
    fn default() -> (r: ClassOverrides)
        ensures
            r == no_overrides(),
    {
        ClassOverrides { arena_prop: None, arena_wall: None, pillar: None, debris: None }
    }
}

/// A project: a named group of sessions sharing one style profile and
/// optional per-class parameter overrides.
#[derive(Debug, Clone, PartialEq)]
pub struct Project {
    pub project_id: UniqueId,
    pub name: String,
    pub description: String,
    pub style_profile: ProjectStyleProfile,
    /// Identifiers of the sessions belonging to this project.
    pub sessions: Vec<UniqueId>,
    /// Per-asset-class parameter overrides, for optional fine-tuning.
    pub class_overrides: ClassOverrides,
    pub created_at: i64,
    pub last_modified: i64,
}

impl Project {
    /// Create a new project around a style profile. Fails exactly when
    /// the name trims to nothing or the profile is not acceptable; on
    /// success the project starts with no sessions and no overrides,
    /// stamped with the current time under a freshly generated id.
    pub fn new(name: String, style_profile: ProjectStyleProfile) -> (r: Result<
        Project,
        ProjectError,
    >)
        ensures
            r is Ok <==> trimmed_of(name@).len() != 0 && style_profile.acceptable(),
            trimmed_of(name@).len() == 0 ==> (r matches Err(e) && e is EmptyName),
            trimmed_of(name@).len() != 0 && !style_profile.acceptable() ==> (r matches Err(e) && (
            e matches ProjectError::InvalidAestheticValue { .. } || (
            e matches ProjectError::InvalidColorValue { .. }
                || e matches ProjectError::InvalidStyleValue { .. }))),
            r matches Ok(p) ==> {
                &&& p.name == name
                &&& p.description@.len() == 0
                &&& p.style_profile == style_profile
                &&& p.sessions@.len() == 0
                &&& p.class_overrides == no_overrides()
                &&& p.created_at >= 0
                &&& p.last_modified == p.created_at
            },
    {
        let trimmed = str_trim(name.as_str());
        if trimmed.is_empty() {
            return Err(ProjectError::EmptyName);
        }
        match style_profile.validate() {
            Err(e) => {
                return Err(e);
            },
            Ok(()) => {},
        }
        let project_id = UniqueId(fresh_uuid_value());
        let now = now_unix_seconds();
        Ok(Project {
            project_id,
            name,
            description: String::new(),
            style_profile,
            sessions: Vec::new(),
            class_overrides: ClassOverrides::default(),
            created_at: now,
            last_modified: now,
        })
    }

    /// Create a session within this project. The session starts from the
    /// schema defaults restyled by the project profile — or, if the asset
    /// class has an override, from the override outright — and its id is
    /// registered with the project. Fails exactly as session creation does
    /// (the disk decides whether the base input resolves).
    pub fn create_session(
        &mut self,
        asset_class: AssetClass,
        base_input: BaseInputRefV1,
        base_seed: Seed,
    ) -> (r: Result<SessionV1, ProjectError>)
        ensures
            r matches Err(e) ==> (e matches ProjectError::SessionCreation(se) && (
            se matches SessionError::InvalidPath { path } && path@ == base_input.source_path@)
                && *final(self) == *old(self)),
            r matches Ok(s) ==> {
                &&& s.asset_class == asset_class
                &&& s.base_seed == base_seed
                &&& s.base_params == (match old(self).class_overrides.for_class(asset_class) {
                    Some(p) => p,
                    None => old(self).style_profile.applied_to(
                        crate::params::default_params(),
                    ),
                })
                &&& s.intent_history@.len() == 0
                &&& s.variations@.len() == 0
                &&& s.approvals@.len() == 0
                &&& final(self).sessions@ == old(self).sessions@.push(s.session_id)
                &&& final(self).last_modified >= 0
                &&& *final(self) == (Project {
                    sessions: final(self).sessions,
                    last_modified: final(self).last_modified,
                    ..*old(self)
                })
            },
    {
        match SessionV1::new(asset_class, base_input, base_seed) {
            Err(e) => Err(ProjectError::SessionCreation(e)),
            Ok(mut session) => {
                session.base_params = self.style_profile.apply_to_params(session.base_params);
                match self.class_overrides.get(asset_class) {
                    Some(override_params) => {
                        session.base_params = override_params;
                    },
                    None => {},
                }
                self.sessions.push(session.session_id);
                self.update_modified_time();
                Ok(session)
            },
        }
    }

    /// Record an approved asset in the style profile for future learning.
    pub fn learn_from_approval(&mut self, approved_id: String, asset_path: Option<String>)
        ensures
            final(self).style_profile.reference_assets@.len()
                == old(self).style_profile.reference_assets@.len() + 1,
            final(self).style_profile.reference_assets@.last().approved_id == approved_id,
            final(self).style_profile.reference_assets@.last().asset_path == asset_path,
            final(self).style_profile == (ProjectStyleProfile {
                reference_assets: final(self).style_profile.reference_assets,
                ..old(self).style_profile
            }),
            final(self).last_modified >= 0,
            *final(self) == (Project {
                style_profile: final(self).style_profile,
                last_modified: final(self).last_modified,
                ..*old(self)
            }),
    {
        self.style_profile.add_reference(approved_id, asset_path);
        self.update_modified_time();
    }

    /// Set the parameter override for one asset class.
    pub fn set_class_override(&mut self, asset_class: AssetClass, params: ParameterSetV1)
        ensures
            final(self).class_overrides == old(self).class_overrides.with_class(
                asset_class,
                Some(params),
            ),
            final(self).last_modified >= 0,
            *final(self) == (Project {
                class_overrides: final(self).class_overrides,
                last_modified: final(self).last_modified,
                ..*old(self)
            }),
    {
        match asset_class {
            AssetClass::ArenaProp => {
                self.class_overrides.arena_prop = Some(params);
            },
            AssetClass::ArenaWall => {
                self.class_overrides.arena_wall = Some(params);
            },
            AssetClass::Pillar => {
                self.class_overrides.pillar = Some(params);
            },
            AssetClass::Debris => {
                self.class_overrides.debris = Some(params);
            },
        }
        self.update_modified_time();
    }

    /// Remove the parameter override for one asset class; the modified
    /// time moves only if there was one.
    pub fn clear_class_override(&mut self, asset_class: &AssetClass)
        ensures
            final(self).class_overrides == old(self).class_overrides.with_class(
                *asset_class,
                None::<ParameterSetV1>,
            ),
            final(self).last_modified >= 0 || final(self).last_modified
                == old(self).last_modified,
            old(self).class_overrides.for_class(*asset_class) is None
                ==> final(self).last_modified == old(self).last_modified,
            *final(self) == (Project {
                class_overrides: final(self).class_overrides,
                last_modified: final(self).last_modified,
                ..*old(self)
            }),
    {
        let had = self.class_overrides.get(*asset_class).is_some();
        match asset_class {
            AssetClass::ArenaProp => {
                self.class_overrides.arena_prop = None;
            },
            AssetClass::ArenaWall => {
                self.class_overrides.arena_wall = None;
            },
            AssetClass::Pillar => {
                self.class_overrides.pillar = None;
            },
            AssetClass::Debris => {
                self.class_overrides.debris = None;
            },
        }
        if had {
            self.update_modified_time();
        }
    }

    /// Move the last-modified stamp to the current time.
    fn update_modified_time(&mut self)
        ensures
            final(self).last_modified >= 0,
            *final(self) == (Project { last_modified: final(self).last_modified, ..*old(self) }),
    {
        self.last_modified = now_unix_seconds();
    }

    /// Validate project data: a nonblank name, an acceptable style
    /// profile, and every present class override within bounds; the first
    /// failure in that order is reported, with the same payloads as the
    /// sub-validators.
    pub fn validate(&self) -> (r: Result<(), ProjectError>)
        ensures
            r is Ok <==> trimmed_of(self.name@).len() != 0 && self.style_profile.acceptable()
                && self.class_overrides.all_in_bounds(),
            trimmed_of(self.name@).len() == 0 ==> (r matches Err(e) && e is EmptyName),
            trimmed_of(self.name@).len() != 0 && !self.style_profile.acceptable() ==> (
            r matches Err(e) && reports_first_style_failure(self.style_profile, e)),
            trimmed_of(self.name@).len() != 0 && self.style_profile.acceptable()
                && override_out_of_bounds(self.class_overrides.arena_prop) ==> (r matches Err(e)
                && reports_override_out_of_range(self.class_overrides.arena_prop, e)),
            trimmed_of(self.name@).len() != 0 && self.style_profile.acceptable()
                && !override_out_of_bounds(self.class_overrides.arena_prop)
                && override_out_of_bounds(self.class_overrides.arena_wall) ==> (r matches Err(e)
                && reports_override_out_of_range(self.class_overrides.arena_wall, e)),
            trimmed_of(self.name@).len() != 0 && self.style_profile.acceptable()
                && !override_out_of_bounds(self.class_overrides.arena_prop)
                && !override_out_of_bounds(self.class_overrides.arena_wall)
                && override_out_of_bounds(self.class_overrides.pillar) ==> (r matches Err(e)
                && reports_override_out_of_range(self.class_overrides.pillar, e)),
            trimmed_of(self.name@).len() != 0 && self.style_profile.acceptable()
                && !override_out_of_bounds(self.class_overrides.arena_prop)
                && !override_out_of_bounds(self.class_overrides.arena_wall)
                && !override_out_of_bounds(self.class_overrides.pillar)
                && override_out_of_bounds(self.class_overrides.debris) ==> (r matches Err(e)
                && reports_override_out_of_range(self.class_overrides.debris, e)),
    {
        let trimmed = str_trim(self.name.as_str());
        if trimmed.is_empty() {
            return Err(ProjectError::EmptyName);
        }
        match self.style_profile.validate() {
            Err(e) => {
                return Err(e);
            },
            Ok(()) => {},
        }
        if let Some(p) = &self.class_overrides.arena_prop {
            match p.validate() {
                Err(e) => {
                    return Err(ProjectError::InvalidOverrideParams(e));
                },
                Ok(()) => {},
            }
        }
        if let Some(p) = &self.class_overrides.arena_wall {
            match p.validate() {
                Err(e) => {
                    return Err(ProjectError::InvalidOverrideParams(e));
                },
                Ok(()) => {},
            }
        }
        if let Some(p) = &self.class_overrides.pillar {
            match p.validate() {
                Err(e) => {
                    return Err(ProjectError::InvalidOverrideParams(e));
                },
                Ok(()) => {},
            }
        }
        if let Some(p) = &self.class_overrides.debris {
            match p.validate() {
                Err(e) => {
                    return Err(ProjectError::InvalidOverrideParams(e));
                },
                Ok(()) => {},
            }
        }
        Ok(())
    }
}

} // verus!
