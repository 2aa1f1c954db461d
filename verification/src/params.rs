//! Bounded scalar parameters and the v1 parameter schema.
//!
//! Every scalar is a fixed-point value in thousandths: `1000` stands for a
//! full unit, so the schema range `[0.5, 2.0]` is `[500, 2000]`. A bounded
//! parameter carries hard `[min, max]` bounds and clamps on every write;
//! out-of-range inputs are corrected silently, only an inverted bound pair
//! is an error.

use vstd::prelude::*;

verus! {

/// Parameter-related errors.
#[derive(Debug, Clone)]
pub enum ParamError {
    /// The requested bounds were rejected at construction: `min >= max`.
    InvalidBounds { min: i64, max: i64 },
    /// A stored value sits outside its declared bounds; only forged or
    /// corrupted state can reach this, since every mutation path clamps.
    OutOfRange { field: String, value: i64, min: i64, max: i64 },
}

/// `value` forced into `[min, max]`; the lower bound wins when the
/// bounds are inverted.
pub open spec fn clamp_to(value: i64, min: i64, max: i64) -> i64 {
    if value < min {
        min
    } else if value > max {
        max
    } else {
        value
    }
}

/// `a + b` on `i64`, held at the ends of the representable range.
pub open spec fn sat_add(a: i64, b: i64) -> i64 {
    if a + b > i64::MAX {
        i64::MAX
    } else if a + b < i64::MIN {
        i64::MIN
    } else {
        (a + b) as i64
    }
}

/// Saturating `i64` addition; deltas are added with this before clamping,
/// so no parameter update can overflow.
pub fn add_saturating(a: i64, b: i64) -> (r: i64)
    ensures
        r == sat_add(a, b),
{
    if b >= 0 {
        if a > i64::MAX - b {
            i64::MAX
        } else {
            a + b
        }
    } else {
        if a < i64::MIN - b {
            i64::MIN
        } else {
            a + b
        }
    }
}

/// `a - b` on `i64`, held at the ends of the representable range.
pub open spec fn sat_sub(a: i64, b: i64) -> i64 {
    if a - b > i64::MAX {
        i64::MAX
    } else if a - b < i64::MIN {
        i64::MIN
    } else {
        (a - b) as i64
    }
}

/// Saturating `i64` subtraction.
pub fn sub_saturating(a: i64, b: i64) -> (r: i64)
    ensures
        r == sat_sub(a, b),
{
    if b >= 0 {
        if a < i64::MIN + b {
            i64::MIN
        } else {
            a - b
        }
    } else {
        if a > i64::MAX + b {
            i64::MAX
        } else {
            a - b
        }
    }
}

/// Bounded parameter with automatic clamping to `[min, max]`,
/// in fixed-point thousandths.
#[derive(Debug, Clone, Copy, PartialEq, Eq, Structural)]
pub struct Bounded {
    pub value: i64,
    pub min: i64,
    pub max: i64,
}

impl Bounded {
    /// The stored value sits inside the declared bounds.
    pub open spec fn in_bounds(self) -> bool {
        self.min <= self.value <= self.max
    }

    /// Well-formed: the bounds are a real interval and the value is inside it.
    pub open spec fn wf(self) -> bool {
        self.min < self.max && self.in_bounds()
    }

    /// Create a bounded parameter, clamping `value` into `[min, max]`.
    /// Fails exactly when `min >= max`; an out-of-range `value` is never
    /// an error, it is clamped.
    pub fn new(value: i64, min: i64, max: i64) -> (r: Result<Bounded, ParamError>)
        ensures
            r is Ok <==> min < max,
            r matches Ok(b) ==> b == (Bounded { value: clamp_to(value, min, max), min, max }),
            r matches Ok(b) ==> b.wf(),
            r matches Err(e) ==> e matches ParamError::InvalidBounds { min: emin, max: emax }
                && emin == min && emax == max,
    {
        if !(min < max) {
            return Err(ParamError::InvalidBounds { min, max });
        }
        let b = Bounded { value, min, max };
        Ok(b.clamped())
    }

    /// Return a copy with the value clamped into `[min, max]`.
    /// Clamping an already-valid value is a no-op.
    #[must_use]
    pub fn clamped(self) -> (r: Bounded)
        ensures
            r == (Bounded { value: clamp_to(self.value, self.min, self.max), ..self }),
            self.in_bounds() ==> r == self,
            self.min <= self.max ==> r.in_bounds(),
    {
        let mut out = self;
        if out.value < out.min {
            out.value = out.min;
        } else if out.value > out.max {
            out.value = out.max;
        }
        out
    }

    /// Set a new value, clamping into the bounds; the stored value may
    /// differ from the requested one.
    pub fn set(&mut self, new_value: i64)
        ensures
            *final(self) == (Bounded {
                value: clamp_to(new_value, old(self).min, old(self).max),
                ..*old(self)
            }),
            old(self).min <= old(self).max ==> final(self).in_bounds(),
    {
        self.value = new_value;
        *self = self.clamped();
    }
}

/// Sparse additive deltas to the v1 parameters; an absent field means
/// "no change".
#[derive(Debug, Clone, Copy, PartialEq, Eq, Structural)]
pub struct ParameterDeltaV1 {
    pub height_scale: Option<i64>,
    pub extrusion_depth: Option<i64>,
    pub bevel_amount: Option<i64>,
    pub symmetry_break: Option<i64>,
    pub erosion_intensity: Option<i64>,
    pub detail_density: Option<i64>,
}

impl Default for ParameterDeltaV1 {
    /// The empty delta: no field changes.
    fn default() -> (r: ParameterDeltaV1)
        ensures
            r == empty_delta(),
    {
        ParameterDeltaV1 {
            height_scale: None,
            extrusion_depth: None,
            bevel_amount: None,
            symmetry_break: None,
            erosion_intensity: None,
            detail_density: None,
        }
    }
}

/// The delta that changes nothing.
pub open spec fn empty_delta() -> ParameterDeltaV1 {
    ParameterDeltaV1 {
        height_scale: None,
        extrusion_depth: None,
        bevel_amount: None,
        symmetry_break: None,
        erosion_intensity: None,
        detail_density: None,
    }
}

/// One field of a delta applied to one bounded parameter: add the offset
/// (saturating), then clamp that field. An absent offset leaves the
/// parameter untouched, bounds included.
pub open spec fn apply_field(b: Bounded, d: Option<i64>) -> Bounded {
    match d {
        None => b,
        Some(v) => Bounded { value: clamp_to(sat_add(b.value, v), b.min, b.max), ..b },
    }
}

/// Complete set of generation parameters for v1, each bounded and clamped.
#[derive(Debug, Clone, Copy, PartialEq, Eq, Structural)]
pub struct ParameterSetV1 {
    /// Scales silhouette height; range [500, 2000] thousandths.
    pub height_scale: Bounded,
    /// Depth of the 2.5D extrusion; range [100, 1000] thousandths.
    pub extrusion_depth: Bounded,
    /// Edge softening; range [0, 500] thousandths.
    pub bevel_amount: Bounded,
    /// How much symmetry is broken; range [0, 1000] thousandths.
    pub symmetry_break: Bounded,
    /// Wear and damage intensity; range [0, 1000] thousandths.
    pub erosion_intensity: Bounded,
    /// Fine detail variation; range [0, 1000] thousandths.
    pub detail_density: Bounded,
}

/// The schema's fixed defaults and valid ranges.
pub open spec fn default_params() -> ParameterSetV1 {
    ParameterSetV1 {
        height_scale: Bounded { value: 1000, min: 500, max: 2000 },
        extrusion_depth: Bounded { value: 500, min: 100, max: 1000 },
        bevel_amount: Bounded { value: 100, min: 0, max: 500 },
        symmetry_break: Bounded { value: 0, min: 0, max: 1000 },
        erosion_intensity: Bounded { value: 0, min: 0, max: 1000 },
        detail_density: Bounded { value: 200, min: 0, max: 1000 },
    }
}

impl Default for ParameterSetV1 {
    /// Every field at its schema default, inside its fixed valid range.
    fn default() -> (r: ParameterSetV1)
        ensures
            r == default_params(),
            r.wf(),
    {
        ParameterSetV1 {
            height_scale: Bounded { value: 1000, min: 500, max: 2000 },
            extrusion_depth: Bounded { value: 500, min: 100, max: 1000 },
            bevel_amount: Bounded { value: 100, min: 0, max: 500 },
            symmetry_break: Bounded { value: 0, min: 0, max: 1000 },
            erosion_intensity: Bounded { value: 0, min: 0, max: 1000 },
            detail_density: Bounded { value: 200, min: 0, max: 1000 },
        }
    }
}

/// The error is `OutOfRange` naming this parameter, with its value and
/// bounds.
pub open spec fn out_of_range_names(e: ParamError, name: Seq<char>, b: Bounded) -> bool {
    &&& e matches ParamError::OutOfRange { field, value, min, max }
    &&& field@ == name
    &&& value == b.value
    &&& min == b.min
    &&& max == b.max
}

/// The error names the first field outside its bounds, in schema order,
/// with that field's value and bounds.
pub open spec fn reports_first_out_of_range(p: ParameterSetV1, e: ParamError) -> bool {
    if !p.height_scale.in_bounds() {
        out_of_range_names(e, "height_scale"@, p.height_scale)
    } else if !p.extrusion_depth.in_bounds() {
        out_of_range_names(e, "extrusion_depth"@, p.extrusion_depth)
    } else if !p.bevel_amount.in_bounds() {
        out_of_range_names(e, "bevel_amount"@, p.bevel_amount)
    } else if !p.symmetry_break.in_bounds() {
        out_of_range_names(e, "symmetry_break"@, p.symmetry_break)
    } else if !p.erosion_intensity.in_bounds() {
        out_of_range_names(e, "erosion_intensity"@, p.erosion_intensity)
    } else if !p.detail_density.in_bounds() {
        out_of_range_names(e, "detail_density"@, p.detail_density)
    } else {
        true
    }
}

impl ParameterSetV1 {
    /// Every field is well-formed: real bounds, value inside them.
    pub open spec fn wf(self) -> bool {
        &&& self.height_scale.wf()
        &&& self.extrusion_depth.wf()
        &&& self.bevel_amount.wf()
        &&& self.symmetry_break.wf()
        &&& self.erosion_intensity.wf()
        &&& self.detail_density.wf()
    }

    /// Every field's value is inside its declared bounds (the check that
    /// `validate` performs; it does not ask that the bounds be a real
    /// interval).
    pub open spec fn all_in_bounds(self) -> bool {
        &&& self.height_scale.in_bounds()
        &&& self.extrusion_depth.in_bounds()
        &&& self.bevel_amount.in_bounds()
        &&& self.symmetry_break.in_bounds()
        &&& self.erosion_intensity.in_bounds()
        &&& self.detail_density.in_bounds()
    }

    /// Re-clamp every field; used defensively on state of unknown origin.
    #[must_use]
    pub fn clamp_all(self) -> (r: ParameterSetV1)
        ensures
            r.height_scale == self.height_scale.clamped_spec(),
            r.extrusion_depth == self.extrusion_depth.clamped_spec(),
            r.bevel_amount == self.bevel_amount.clamped_spec(),
            r.symmetry_break == self.symmetry_break.clamped_spec(),
            r.erosion_intensity == self.erosion_intensity.clamped_spec(),
            r.detail_density == self.detail_density.clamped_spec(),
            self.bounds_ordered() ==> r.all_in_bounds(),
    {
        let mut out = self;
        out.height_scale = out.height_scale.clamped();
        out.extrusion_depth = out.extrusion_depth.clamped();
        out.bevel_amount = out.bevel_amount.clamped();
        out.symmetry_break = out.symmetry_break.clamped();
        out.erosion_intensity = out.erosion_intensity.clamped();
        out.detail_density = out.detail_density.clamped();
        out
    }

    /// Each field's bounds are ordered (`min <= max`), whatever the values.
    pub open spec fn bounds_ordered(self) -> bool {
        &&& self.height_scale.min <= self.height_scale.max
        &&& self.extrusion_depth.min <= self.extrusion_depth.max
        &&& self.bevel_amount.min <= self.bevel_amount.max
        &&& self.symmetry_break.min <= self.symmetry_break.max
        &&& self.erosion_intensity.min <= self.erosion_intensity.max
        &&& self.detail_density.min <= self.detail_density.max
    }

    /// The whole set after a delta: each present field added and clamped,
    /// each absent field untouched.
    pub open spec fn delta_applied(self, delta: ParameterDeltaV1) -> ParameterSetV1 {
        ParameterSetV1 {
            height_scale: apply_field(self.height_scale, delta.height_scale),
            extrusion_depth: apply_field(self.extrusion_depth, delta.extrusion_depth),
            bevel_amount: apply_field(self.bevel_amount, delta.bevel_amount),
            symmetry_break: apply_field(self.symmetry_break, delta.symmetry_break),
            erosion_intensity: apply_field(self.erosion_intensity, delta.erosion_intensity),
            detail_density: apply_field(self.detail_density, delta.detail_density),
        }
    }

    /// Apply a sparse additive delta: for each present field, add the
    /// offset to the current value and clamp that single field; absent
    /// fields are untouched. Clamping is per-field, so the outcome does
    /// not depend on any order of application.
    pub fn apply_delta(&mut self, delta: &ParameterDeltaV1)
        ensures
            *final(self) == old(self).delta_applied(*delta),
            old(self).wf() ==> final(self).wf(),
    {
        if let Some(v) = delta.height_scale {
            self.height_scale.value = add_saturating(self.height_scale.value, v);
            self.height_scale = self.height_scale.clamped();
        }
        if let Some(v) = delta.extrusion_depth {
            self.extrusion_depth.value = add_saturating(self.extrusion_depth.value, v);
            self.extrusion_depth = self.extrusion_depth.clamped();
        }
        if let Some(v) = delta.bevel_amount {
            self.bevel_amount.value = add_saturating(self.bevel_amount.value, v);
            self.bevel_amount = self.bevel_amount.clamped();
        }
        if let Some(v) = delta.symmetry_break {
            self.symmetry_break.value = add_saturating(self.symmetry_break.value, v);
            self.symmetry_break = self.symmetry_break.clamped();
        }
        if let Some(v) = delta.erosion_intensity {
            self.erosion_intensity.value = add_saturating(self.erosion_intensity.value, v);
            self.erosion_intensity = self.erosion_intensity.clamped();
        }
        if let Some(v) = delta.detail_density {
            self.detail_density.value = add_saturating(self.detail_density.value, v);
            self.detail_density = self.detail_density.clamped();
        }
    }

    /// Check that every field's value lies within its declared bounds,
    /// naming the first field found outside them. Every ordinary mutation
    /// path clamps, so this fires only on corrupted or forged state.
    pub fn validate(&self) -> (r: Result<(), ParamError>)
        ensures
            r is Ok <==> self.all_in_bounds(),
            r matches Err(e) ==> e matches ParamError::OutOfRange { .. },
            r matches Err(e) ==> reports_first_out_of_range(*self, e),
    {
        if self.height_scale.value < self.height_scale.min
            || self.height_scale.value > self.height_scale.max {
            return Err(ParamError::OutOfRange {
                field: String::from_str("height_scale"),
                value: self.height_scale.value,
                min: self.height_scale.min,
                max: self.height_scale.max,
            });
        }
        if self.extrusion_depth.value < self.extrusion_depth.min
            || self.extrusion_depth.value > self.extrusion_depth.max {
            return Err(ParamError::OutOfRange {
                field: String::from_str("extrusion_depth"),
                value: self.extrusion_depth.value,
                min: self.extrusion_depth.min,
                max: self.extrusion_depth.max,
            });
        }
        if self.bevel_amount.value < self.bevel_amount.min
            || self.bevel_amount.value > self.bevel_amount.max {
            return Err(ParamError::OutOfRange {
                field: String::from_str("bevel_amount"),
                value: self.bevel_amount.value,
                min: self.bevel_amount.min,
                max: self.bevel_amount.max,
            });
        }
        if self.symmetry_break.value < self.symmetry_break.min
            || self.symmetry_break.value > self.symmetry_break.max {
            return Err(ParamError::OutOfRange {
                field: String::from_str("symmetry_break"),
                value: self.symmetry_break.value,
                min: self.symmetry_break.min,
                max: self.symmetry_break.max,
            });
        }
        if self.erosion_intensity.value < self.erosion_intensity.min
            || self.erosion_intensity.value > self.erosion_intensity.max {
            return Err(ParamError::OutOfRange {
                field: String::from_str("erosion_intensity"),
                value: self.erosion_intensity.value,
                min: self.erosion_intensity.min,
                max: self.erosion_intensity.max,
            });
        }
        if self.detail_density.value < self.detail_density.min
            || self.detail_density.value > self.detail_density.max {
            return Err(ParamError::OutOfRange {
                field: String::from_str("detail_density"),
                value: self.detail_density.value,
                min: self.detail_density.min,
                max: self.detail_density.max,
            });
        }
        Ok(())
    }
}

impl Bounded {
    /// `clamped` as a value: the same parameter with its value forced
    /// into the bounds.
    pub open spec fn clamped_spec(self) -> Bounded {
        Bounded { value: clamp_to(self.value, self.min, self.max), ..self }
    }
}

/// After a delta, every field of a well-formed parameter set stays within
/// its own bounds, and the bounds themselves never move.
pub proof fn lemma_delta_keeps_bounds(p: ParameterSetV1, d: ParameterDeltaV1)
    requires
        p.wf(),
    ensures
        p.delta_applied(d).wf(),
        p.delta_applied(d).height_scale.min == p.height_scale.min,
        p.delta_applied(d).height_scale.max == p.height_scale.max,
        p.delta_applied(d).extrusion_depth.min == p.extrusion_depth.min,
        p.delta_applied(d).extrusion_depth.max == p.extrusion_depth.max,
        p.delta_applied(d).bevel_amount.min == p.bevel_amount.min,
        p.delta_applied(d).bevel_amount.max == p.bevel_amount.max,
        p.delta_applied(d).symmetry_break.min == p.symmetry_break.min,
        p.delta_applied(d).symmetry_break.max == p.symmetry_break.max,
        p.delta_applied(d).erosion_intensity.min == p.erosion_intensity.min,
        p.delta_applied(d).erosion_intensity.max == p.erosion_intensity.max,
        p.delta_applied(d).detail_density.min == p.detail_density.min,
        p.delta_applied(d).detail_density.max == p.detail_density.max,
{
}

/// Fields absent from a delta are untouched by its application.
pub proof fn lemma_delta_absent_fields_unchanged(p: ParameterSetV1, d: ParameterDeltaV1)
    ensures
        d.height_scale is None ==> p.delta_applied(d).height_scale == p.height_scale,
        d.extrusion_depth is None ==> p.delta_applied(d).extrusion_depth == p.extrusion_depth,
        d.bevel_amount is None ==> p.delta_applied(d).bevel_amount == p.bevel_amount,
        d.symmetry_break is None ==> p.delta_applied(d).symmetry_break == p.symmetry_break,
        d.erosion_intensity is None ==> p.delta_applied(d).erosion_intensity
            == p.erosion_intensity,
        d.detail_density is None ==> p.delta_applied(d).detail_density == p.detail_density,
{
}

} // verus!
