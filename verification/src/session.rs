//! The session state machine: one base input, its parameter history,
//! generated variations, and approvals.
//!
//! A session owns all four collections and is their sole mutator. Intents
//! are append-only with sequential iteration numbers; variation batches are
//! replaced or appended wholesale; approvals accumulate monotonically and
//! are never invalidated by later regeneration. The validator checks the
//! cross-collection invariants in a fixed order and reports the first
//! failure.

use vstd::prelude::*;

use crate::ext::{path_exists, str_trim, trimmed_of};
use crate::params::{
    default_params, reports_first_out_of_range, ParamError, ParameterDeltaV1, ParameterSetV1,
};
use crate::textfmt::{dec_str, str_eq, u64_to_dec_string};
use crate::variation::{
    lemma_variation_id_injective, make_variation_id, variation_id_seq, VariationSpecV1,
};
use crate::{AssetClass, Seed, UniqueId, PARAM_SCHEMA_VERSION};

verus! {

/// Recommended file extension for saved sessions.
pub const SESSION_FILE_EXT: &'static str = "forge.json";

/// Session-level errors.
#[derive(Debug, Clone)]
pub enum SessionError {
    /// Dimensions must be positive.
    InvalidDimensions,
    /// The variation id is not in the current batch.
    UnknownVariation { variation_id: String },
    /// The variation is already approved.
    DuplicateApproval { variation_id: String },
    /// Two variations in the current batch share this id.
    DuplicateVariation { variation_id: String },
    /// Intent text cannot be blank.
    EmptyIntent,
    /// The persisted schema version does not match the engine's.
    SchemaVersionMismatch { expected: String, got: String },
    /// The base input path does not resolve.
    InvalidPath { path: String },
    /// An approval references a variation absent from the current batch.
    OrphanedApproval { approved_id: String, variation_id: String },
    /// The base parameters are outside their declared bounds.
    InvalidParameters(ParamError),
}

/// Source type for the base silhouette input.
#[derive(Debug, Clone, Copy, PartialEq, Eq, Structural)]
pub enum BaseInputType {
    Drawn,
    Image,
}

/// Reference to the base 2D input file, path-based.
#[derive(Debug, Clone, PartialEq)]
pub struct BaseInputRefV1 {
    pub input_type: BaseInputType,
    pub source_path: String,
}

impl BaseInputRefV1 {
    /// Probe the filesystem for the referenced path. What is on disk
    /// decides the outcome; a failure always reports this path.
    pub fn validate(&self) -> (r: Result<(), SessionError>)
        ensures
            r matches Err(e) ==> e matches SessionError::InvalidPath { path }
                && path@ == self.source_path@,
    {
        if path_exists(self.source_path.as_str()) {
            Ok(())
        } else {
            Err(SessionError::InvalidPath { path: self.source_path.clone() })
        }
    }
}

/// User intent entry (prompt) for a given iteration.
#[derive(Debug, Clone, PartialEq)]
pub struct IntentEntryV1 {
    pub iteration: u32,
    pub text: String,
}

/// Real-world dimensions in meters, in fixed-point thousandths
/// (`2500` is 2.5 m).
#[derive(Debug, Clone, Copy, PartialEq, Eq, Structural)]
pub struct DimensionsMeters {
    pub height: i64,
    pub width: i64,
    pub depth: i64,
}

/// Real-world dimensions in centimeters, in fixed-point thousandths
/// (`250000` is 250 cm).
#[derive(Debug, Clone, Copy, PartialEq, Eq, Structural)]
pub struct DimensionsCm {
    pub height: i64,
    pub width: i64,
    pub depth: i64,
}

/// One dimension component scaled up by 100, held at the ends of the
/// representable range.
pub open spec fn scaled_up_100(v: i64) -> i64 {
    if v * 100 > i64::MAX {
        i64::MAX
    } else if v * 100 < i64::MIN {
        i64::MIN
    } else {
        (v * 100) as i64
    }
}

/// One dimension component scaled down by 100, rounded toward zero
/// (Rust's integer division).
pub open spec fn scaled_down_100(v: i64) -> i64 {
    if v >= 0 {
        (v / 100) as i64
    } else {
        (((v * -1) / 100) * -1) as i64
    }
}

/// Multiply a component by 100, saturating at the representable range.
fn component_scale_up(v: i64) -> (r: i64)
    ensures
        r == scaled_up_100(v),
{
    match v.checked_mul(100) {
        Some(x) => x,
        None => {
            proof {
                assert(v > 0 ==> v * 100 > i64::MAX || v * 100 >= 100) by (nonlinear_arith);
                assert(v <= 0 ==> v * 100 <= 0) by (nonlinear_arith);
            }
            if v > 0 {
                i64::MAX
            } else {
                i64::MIN
            }
        },
    }
}

/// Divide a component by 100, rounding toward zero.
fn component_scale_down(v: i64) -> (r: i64)
    ensures
        r == scaled_down_100(v),
{
    proof {
        assert(v >= 0 ==> 0 <= v / 100 <= v) by (nonlinear_arith);
        assert(v < 0 ==> v <= ((v * -1) / 100) * -1 <= 0) by (nonlinear_arith);
    }
    match v.checked_div(100) {
        Some(x) => x,
        None => 0,
    }
}

impl DimensionsMeters {
    /// All dimensions are strictly positive.
    pub open spec fn valid(self) -> bool {
        self.height > 0 && self.width > 0 && self.depth > 0
    }

    /// Check that all dimensions are positive.
    pub fn is_valid(&self) -> (r: bool)
        ensures
            r == self.valid(),
    {
        self.height > 0 && self.width > 0 && self.depth > 0
    }

    /// Convert to centimeters (each component scaled by 100, saturating).
    pub fn to_centimeters(&self) -> (r: DimensionsCm)
        ensures
            r.height == scaled_up_100(self.height),
            r.width == scaled_up_100(self.width),
            r.depth == scaled_up_100(self.depth),
    {
        DimensionsCm {
            height: component_scale_up(self.height),
            width: component_scale_up(self.width),
            depth: component_scale_up(self.depth),
        }
    }
}

impl DimensionsCm {
    /// All dimensions are strictly positive.
    pub open spec fn valid(self) -> bool {
        self.height > 0 && self.width > 0 && self.depth > 0
    }

    /// Check that all dimensions are positive.
    pub fn is_valid(&self) -> (r: bool)
        ensures
            r == self.valid(),
    {
        self.height > 0 && self.width > 0 && self.depth > 0
    }

    /// `to_meters` as a value.
    pub open spec fn to_meters_spec(self) -> DimensionsMeters {
        DimensionsMeters {
            height: scaled_down_100(self.height),
            width: scaled_down_100(self.width),
            depth: scaled_down_100(self.depth),
        }
    }

    /// Convert to meters (each component divided by 100, toward zero).
    pub fn to_meters(&self) -> (r: DimensionsMeters)
        ensures
            r.height == scaled_down_100(self.height),
            r.width == scaled_down_100(self.width),
            r.depth == scaled_down_100(self.depth),
    {
        DimensionsMeters {
            height: component_scale_down(self.height),
            width: component_scale_down(self.width),
            depth: component_scale_down(self.depth),
        }
    }
}

/// Converting meters to centimeters and back returns the original
/// dimensions whenever scaling up does not saturate.
pub proof fn lemma_unit_conversion_round_trip(d: DimensionsMeters)
    requires
        -92233720368547758 <= d.height <= 92233720368547758,
        -92233720368547758 <= d.width <= 92233720368547758,
        -92233720368547758 <= d.depth <= 92233720368547758,
    ensures
        (DimensionsCm {
            height: scaled_up_100(d.height),
            width: scaled_up_100(d.width),
            depth: scaled_up_100(d.depth),
        }).to_meters_spec() == d,
{
    lemma_scale_round_trip(d.height);
    lemma_scale_round_trip(d.width);
    lemma_scale_round_trip(d.depth);
}

/// Scaling one component up by 100 and back down returns it, as long as
/// the scaled value stays representable.
proof fn lemma_scale_round_trip(v: i64)
    requires
        -92233720368547758 <= v <= 92233720368547758,
    ensures
        scaled_down_100(scaled_up_100(v)) == v,
{
    assert(v * 100 <= i64::MAX && v * 100 >= i64::MIN) by (nonlinear_arith)
        requires -92233720368547758 <= v <= 92233720368547758;
    let w = scaled_up_100(v);
    assert(w == v * 100);
    if v >= 0 {
        assert((v * 100) / 100 == v) by (nonlinear_arith);
    } else {
        assert(((v * 100) * -1) / 100 == v * -1) by (nonlinear_arith);
    }
}

/// Pivot point placement for engine integration.
#[derive(Debug, Clone, Copy, PartialEq, Eq, Structural)]
pub enum PivotMode {
    Center,
    BaseCenter,
}

/// Collision mesh generation mode.
#[derive(Debug, Clone, Copy, PartialEq, Eq, Structural)]
pub enum CollisionMode {
    Disabled,
    Box,
    Convex,
}

/// Export settings for 3D asset generation.
#[derive(Debug, Clone, Copy, PartialEq, Eq, Structural)]
pub struct ExportSettingsV1 {
    pub pivot: PivotMode,
    pub collision: CollisionMode,
    pub generate_lods: bool,
}

/// The default export settings: base-center pivot, box collision, LODs on.
pub open spec fn default_export_settings() -> ExportSettingsV1 {
    ExportSettingsV1 {
        pivot: PivotMode::BaseCenter,
        collision: CollisionMode::Box,
        generate_lods: true,
    }
}

impl Default for ExportSettingsV1 {
    /// Base-center pivot, box collision, LODs enabled by default.
    fn default() -> (r: ExportSettingsV1)
        ensures
            r == default_export_settings(),
    {
        ExportSettingsV1 {
            pivot: PivotMode::BaseCenter,
            collision: CollisionMode::Box,
            generate_lods: true,
        }
    }
}

/// A single approved design, pinned by variation id, ready for export.
#[derive(Debug, Clone, PartialEq)]
pub struct ApprovedDesignV1 {
    pub approved_id: String,
    pub variation_id: String,
    pub dimensions: DimensionsMeters,
    pub export: ExportSettingsV1,
    pub user_label: Option<String>,
}

/// The identifier of the approval at ordinal `ord` of variation `vid`.
pub open spec fn approved_id_seq(ord: nat, vid: Seq<char>) -> Seq<char> {
    "appr_"@ + (dec_str(ord) + seq!['_'] + vid)
}

/// Build the identifier of the approval at ordinal `ord` of the variation
/// named by `vid`.
fn make_approved_id(ord: u64, vid: &str) -> (r: String)
    ensures
        r@ == approved_id_seq(ord as nat, vid@),
{
    let mut s = String::from_str("appr_");
    let dec = u64_to_dec_string(ord);
    s.append(dec.as_str());
    s.append("_");
    s.append(vid);
    proof {
        reveal_strlit("_");
        assert(s@ =~= approved_id_seq(ord as nat, vid@));
    }
    s
}

/// The v1 session object.
#[derive(Debug, Clone, PartialEq)]
pub struct SessionV1 {
    pub session_id: UniqueId,
    pub asset_class: AssetClass,
    pub schema_version: String,
    pub base_input: BaseInputRefV1,
    pub base_seed: Seed,
    pub base_params: ParameterSetV1,
    pub intent_history: Vec<IntentEntryV1>,
    pub variations: Vec<VariationSpecV1>,
    pub approvals: Vec<ApprovedDesignV1>,
    pub notes: Option<String>,
}

impl SessionV1 {
    /// Some variation in the current batch carries this id.
    pub open spec fn has_variation(self, id: Seq<char>) -> bool {
        exists|i: int|
            0 <= i < self.variations@.len() && #[trigger] self.variations@[i].variation_id@ == id
    }

    /// Some approval already references this variation id.
    pub open spec fn has_approval_for(self, id: Seq<char>) -> bool {
        exists|i: int|
            0 <= i < self.approvals@.len() && #[trigger] self.approvals@[i].variation_id@ == id
    }

    /// No two variations in the current batch share an id.
    pub open spec fn variations_distinct(self) -> bool {
        forall|i: int, j: int|
            #![trigger self.variations@[i].variation_id@, self.variations@[j].variation_id@]
            0 <= i < j < self.variations@.len()
                ==> self.variations@[i].variation_id@ != self.variations@[j].variation_id@
    }

    /// Every approval's variation id exists among the current variations.
    pub open spec fn approvals_resolve(self) -> bool {
        forall|i: int|
            0 <= i < self.approvals@.len()
                ==> self.has_variation(#[trigger] self.approvals@[i].variation_id@)
    }

    /// Every approval's dimensions are valid.
    pub open spec fn approval_dims_valid(self) -> bool {
        forall|i: int|
            0 <= i < self.approvals@.len() ==> (#[trigger] self.approvals@[i]).dimensions.valid()
    }

    /// The session's schema version matches an expected one.
    pub open spec fn schema_matches_version(self, expected: Seq<char>) -> bool {
        self.schema_version@ == expected
    }

    /// The session's schema version matches the engine's constant.
    pub open spec fn schema_matches(self) -> bool {
        self.schema_matches_version(PARAM_SCHEMA_VERSION@)
    }

    /// Every variation's identifier is the one of its position: entry `k`
    /// carries `variation_id_seq(k, its own seed)`. Batch generation
    /// establishes this, appending preserves it, and it forces all ids to
    /// be distinct.
    pub open spec fn variations_sequentially_indexed(self) -> bool {
        forall|k: int|
            0 <= k < self.variations@.len()
                ==> (#[trigger] self.variations@[k]).variation_id@ == variation_id_seq(
                k as nat,
                self.variations@[k].seed.0,
            )
    }

    /// Every intent entry carries its position as iteration number.
    pub open spec fn intents_sequential(self) -> bool {
        forall|i: int|
            0 <= i < self.intent_history@.len()
                ==> (#[trigger] self.intent_history@[i]).iteration == i
    }

    /// The whole consistency verdict, given the expected schema version
    /// and the outcome of the base-input path probe: schema matches, path
    /// resolves, parameters in bounds, variation ids distinct, approvals
    /// resolve, approval dimensions valid.
    pub open spec fn consistent_against(self, expected: Seq<char>, path_ok: bool) -> bool {
        &&& self.schema_matches_version(expected)
        &&& path_ok
        &&& self.base_params.all_in_bounds()
        &&& self.variations_distinct()
        &&& self.approvals_resolve()
        &&& self.approval_dims_valid()
    }

    /// The consistency verdict against the engine's own schema version.
    pub open spec fn consistent_given_path(self, path_ok: bool) -> bool {
        self.consistent_against(PARAM_SCHEMA_VERSION@, path_ok)
    }

    /// Create a new session: fails exactly when the base input path does
    /// not resolve (the disk decides); on success every collection starts
    /// empty, the parameters at their schema defaults, under a freshly
    /// generated session identifier.
    pub fn new(asset_class: AssetClass, base_input: BaseInputRefV1, base_seed: Seed) -> (r:
        Result<SessionV1, SessionError>)
        ensures
            r matches Ok(s) ==> {
                &&& s.asset_class == asset_class
                &&& s.schema_version@ == PARAM_SCHEMA_VERSION@
                &&& s.base_input == base_input
                &&& s.base_seed == base_seed
                &&& s.base_params == default_params()
                &&& s.intent_history@.len() == 0
                &&& s.variations@.len() == 0
                &&& s.approvals@.len() == 0
                &&& s.notes is None
            },
            r matches Err(e) ==> e matches SessionError::InvalidPath { path }
                && path@ == base_input.source_path@,
    {
        match base_input.validate() {
            Err(e) => Err(e),
            Ok(()) => {
                let session_id = UniqueId(crate::ext::fresh_uuid_value());
                Ok(SessionV1 {
                    session_id,
                    asset_class,
                    schema_version: String::from_str(PARAM_SCHEMA_VERSION),
                    base_input,
                    base_seed,
                    base_params: ParameterSetV1::default(),
                    intent_history: Vec::new(),
                    variations: Vec::new(),
                    approvals: Vec::new(),
                    notes: None,
                })
            },
        }
    }

    /// Add an intent: rejected exactly when the text trims to nothing;
    /// otherwise appended with the next sequential iteration number, so
    /// no two entries ever share an iteration.
    pub fn push_intent(&mut self, text: String) -> (r: Result<u32, SessionError>)
        requires
            old(self).intent_history@.len() < u32::MAX,
        ensures
            r is Ok <==> trimmed_of(text@).len() != 0,
            old(self).intents_sequential() ==> final(self).intents_sequential(),
            r matches Err(e) ==> e is EmptyIntent && *final(self) == *old(self),
            r matches Ok(n) ==> {
                &&& n == old(self).intent_history@.len()
                &&& final(self).intent_history@ == old(self).intent_history@.push(
                    (IntentEntryV1 { iteration: n, text }),
                )
                &&& *final(self) == (SessionV1 {
                    intent_history: final(self).intent_history,
                    ..*old(self)
                })
            },
    {
        let trimmed = str_trim(text.as_str());
        if trimmed.is_empty() {
            return Err(SessionError::EmptyIntent);
        }
        let iter = self.intent_history.len() as u32;
        self.intent_history.push(IntentEntryV1 { iteration: iter, text });
        Ok(iter)
    }

    /// Apply a parameter delta to the base parameters; past variation
    /// snapshots are untouched, only future generation is affected.
    pub fn apply_base_delta(&mut self, delta: &ParameterDeltaV1)
        ensures
            final(self).base_params == old(self).base_params.delta_applied(*delta),
            *final(self) == (SessionV1 { base_params: final(self).base_params, ..*old(self) }),
    {
        self.base_params.apply_delta(delta);
    }

    /// Generate a batch of `count` variations from the current seed and
    /// parameters, replacing the current collection wholesale. Prior
    /// approvals remain as they are: they are pinned by id, never
    /// invalidated by regeneration.
    pub fn generate_variations(&mut self, count: usize, intent_text: &str)
        ensures
            final(self).variations@.len() == count,
            forall|k: int|
                0 <= k < count ==> #[trigger] final(self).variations@[k].is_batch_entry(
                    old(self).session_id,
                    old(self).asset_class,
                    old(self).base_seed,
                    old(self).base_params,
                    intent_text@,
                    k,
                ),
            final(self).variations_distinct(),
            final(self).variations_sequentially_indexed(),
            *final(self) == (SessionV1 { variations: final(self).variations, ..*old(self) }),
    {
        let batch = VariationSpecV1::generate_batch(
            self.session_id,
            self.asset_class,
            self.base_seed,
            self.base_params,
            intent_text,
            count,
        );
        self.variations = batch;
        proof {
            assert forall|k: int| 0 <= k < self.variations@.len()
                implies (#[trigger] self.variations@[k]).variation_id@ == variation_id_seq(
                    k as nat,
                    self.variations@[k].seed.0,
                ) by {
                assert(self.variations@[k].is_batch_entry(
                    old(self).session_id,
                    old(self).asset_class,
                    old(self).base_seed,
                    old(self).base_params,
                    intent_text@,
                    k,
                ));
            }
        }
    }

    /// Generate a batch of `count` variations and add it to the existing
    /// collection instead of replacing it. The new entries continue the
    /// index sequence where the collection ends, so on a sequentially
    /// indexed session the merged ids stay pairwise distinct.
    #[verifier::loop_isolation(false)]
    pub fn append_variations(&mut self, count: usize, intent_text: &str)
        requires
            old(self).variations@.len() + count <= usize::MAX,
        ensures
            final(self).variations@.len() == old(self).variations@.len() + count,
            forall|k: int|
                0 <= k < old(self).variations@.len()
                    ==> #[trigger] final(self).variations@[k] == old(self).variations@[k],
            forall|k: int|
                old(self).variations@.len() <= k < final(self).variations@.len()
                    ==> #[trigger] final(self).variations@[k].is_batch_entry(
                    old(self).session_id,
                    old(self).asset_class,
                    old(self).base_seed,
                    old(self).base_params,
                    intent_text@,
                    k,
                ),
            old(self).variations_sequentially_indexed()
                ==> final(self).variations_sequentially_indexed(),
            old(self).variations_sequentially_indexed() ==> final(self).variations_distinct(),
            *final(self) == (SessionV1 { variations: final(self).variations, ..*old(self) }),
    {
        let start = self.variations.len();
        let mut i: usize = 0;
        while i < count
            invariant
                i <= count,
                self.variations@.len() == start + i,
                forall|k: int|
                    0 <= k < start ==> #[trigger] self.variations@[k] == old(
                        self,
                    ).variations@[k],
                forall|k: int|
                    start <= k < start + i ==> #[trigger] self.variations@[k].is_batch_entry(
                        old(self).session_id,
                        old(self).asset_class,
                        old(self).base_seed,
                        old(self).base_params,
                        intent_text@,
                        k,
                    ),
                *self == (SessionV1 { variations: self.variations, ..*old(self) }),
            decreases count - i,
        {
            let idx = start + i;
            let seed = self.base_seed.derive(idx as u64);
            let variation_id = make_variation_id(idx as u64, seed.0);
            self.variations.push(VariationSpecV1 {
                variation_id,
                base_session_id: self.session_id,
                asset_class: self.asset_class,
                schema_version: String::from_str(PARAM_SCHEMA_VERSION),
                seed,
                params: self.base_params,
                intent_text: String::from_str(intent_text),
            });
            i = i + 1;
        }
        proof {
            if old(self).variations_sequentially_indexed() {
                assert forall|k: int| 0 <= k < self.variations@.len()
                    implies (#[trigger] self.variations@[k]).variation_id@ == variation_id_seq(
                        k as nat,
                        self.variations@[k].seed.0,
                    ) by {
                    if k < start {
                        assert(self.variations@[k] == old(self).variations@[k]);
                        assert(old(self).variations@[k].variation_id@ == variation_id_seq(
                            k as nat,
                            old(self).variations@[k].seed.0,
                        ));
                    } else {
                        assert(self.variations@[k].is_batch_entry(
                            old(self).session_id,
                            old(self).asset_class,
                            old(self).base_seed,
                            old(self).base_params,
                            intent_text@,
                            k,
                        ));
                    }
                }
                assert(self.variations_sequentially_indexed());
                assert forall|a: int, b: int|
                    #![trigger self.variations@[a].variation_id@, self.variations@[b].variation_id@]
                    0 <= a < b < self.variations@.len()
                        implies self.variations@[a].variation_id@
                        != self.variations@[b].variation_id@ by {
                    if self.variations@[a].variation_id@ == self.variations@[b].variation_id@ {
                        lemma_variation_id_injective(
                            a as nat,
                            self.variations@[a].seed.0,
                            b as nat,
                            self.variations@[b].seed.0,
                        );
                    }
                }
            }
        }
    }

    /// Whether some variation in the current batch carries this id.
    fn contains_variation(&self, id: &str) -> (r: bool)
        ensures
            r == self.has_variation(id@),
    {
        let n = self.variations.len();
        let mut i: usize = 0;
        while i < n
            invariant
                i <= n,
                n == self.variations@.len(),
                forall|k: int| 0 <= k < i ==> #[trigger] self.variations@[k].variation_id@ != id@,
            decreases n - i,
        {
            if str_eq(self.variations[i].variation_id.as_str(), id) {
                return true;
            }
            i = i + 1;
        }
        false
    }

    /// Whether some approval already references this variation id.
    fn contains_approval_for(&self, id: &str) -> (r: bool)
        ensures
            r == self.has_approval_for(id@),
    {
        let n = self.approvals.len();
        let mut i: usize = 0;
        while i < n
            invariant
                i <= n,
                n == self.approvals@.len(),
                forall|k: int| 0 <= k < i ==> #[trigger] self.approvals@[k].variation_id@ != id@,
            decreases n - i,
        {
            if str_eq(self.approvals[i].variation_id.as_str(), id) {
                return true;
            }
            i = i + 1;
        }
        false
    }

    /// Approve a variation of the current batch under real-world
    /// dimensions and export settings. Succeeds exactly when the
    /// dimensions are valid, the id is in the current batch, and the id is
    /// not yet approved; the checks run in that order. On success the new
    /// approval is appended, identified by
    /// `appr_<ordinal><underscore><variation id>`.
    pub fn approve_variation(
        &mut self,
        variation_id: &str,
        dimensions: DimensionsMeters,
        export: ExportSettingsV1,
        user_label: Option<String>,
    ) -> (r: Result<String, SessionError>)
        ensures
            r is Ok <==> dimensions.valid() && old(self).has_variation(variation_id@) && !old(
                self,
            ).has_approval_for(variation_id@),
            r is Err ==> *final(self) == *old(self),
            !dimensions.valid() ==> (r matches Err(e) && e is InvalidDimensions),
            dimensions.valid() && !old(self).has_variation(variation_id@) ==> (r matches Err(e)
                && e matches SessionError::UnknownVariation { variation_id: v } && v@
                == variation_id@),
            dimensions.valid() && old(self).has_variation(variation_id@) && old(
                self,
            ).has_approval_for(variation_id@) ==> (r matches Err(e)
                && e matches SessionError::DuplicateApproval { variation_id: v } && v@
                == variation_id@),
            r matches Ok(aid) ==> {
                &&& aid@ == approved_id_seq(old(self).approvals@.len() as nat, variation_id@)
                &&& final(self).approvals@.len() == old(self).approvals@.len() + 1
                &&& forall|k: int|
                    0 <= k < old(self).approvals@.len()
                        ==> #[trigger] final(self).approvals@[k] == old(self).approvals@[k]
                &&& final(self).approvals@.last().approved_id@ == aid@
                &&& final(self).approvals@.last().variation_id@ == variation_id@
                &&& final(self).approvals@.last().dimensions == dimensions
                &&& final(self).approvals@.last().export == export
                &&& final(self).approvals@.last().user_label == user_label
                &&& *final(self) == (SessionV1 {
                    approvals: final(self).approvals,
                    ..*old(self)
                })
                &&& old(self).approvals_resolve() ==> final(self).approvals_resolve()
                &&& old(self).approval_dims_valid() ==> final(self).approval_dims_valid()
            },
    {
        if !dimensions.is_valid() {
            return Err(SessionError::InvalidDimensions);
        }
        if !self.contains_variation(variation_id) {
            return Err(SessionError::UnknownVariation {
                variation_id: String::from_str(variation_id),
            });
        }
        if self.contains_approval_for(variation_id) {
            return Err(SessionError::DuplicateApproval {
                variation_id: String::from_str(variation_id),
            });
        }
        let approved_id = make_approved_id(self.approvals.len() as u64, variation_id);
        let returned_id = approved_id.clone();
        self.approvals.push(ApprovedDesignV1 {
            approved_id,
            variation_id: String::from_str(variation_id),
            dimensions,
            export,
            user_label,
        });
        proof {
            if old(self).approvals_resolve() {
                assert forall|k: int| 0 <= k < self.approvals@.len()
                    implies self.has_variation(#[trigger] self.approvals@[k].variation_id@) by {
                    if k < self.approvals@.len() - 1 {
                        assert(self.approvals@[k] == old(self).approvals@[k]);
                        assert(old(self).has_variation(old(self).approvals@[k].variation_id@));
                    }
                }
            }
            if old(self).approval_dims_valid() {
                assert forall|k: int| 0 <= k < self.approvals@.len()
                    implies (#[trigger] self.approvals@[k]).dimensions.valid() by {
                    if k < self.approvals@.len() - 1 {
                        assert(self.approvals@[k] == old(self).approvals@[k]);
                        assert(old(self).approvals@[k].dimensions.valid());
                    }
                }
            }
        }
        Ok(returned_id)
    }

    /// The consistency check on everything but the filesystem: the
    /// expected schema version and the path probe's outcome are taken as
    /// arguments, so schema generations other than the engine's own can be
    /// checked against, and the verdict is exact. Checks run in a fixed
    /// order — schema version, base input path, base parameter bounds,
    /// duplicate variation ids, orphaned approvals, approval dimensions —
    /// and the first failure is reported.
    #[verifier::loop_isolation(false)]
    pub fn validate_with(&self, expected_version: &str, path_ok: bool) -> (r: Result<
        (),
        SessionError,
    >)
        ensures
            r is Ok <==> self.consistent_against(expected_version@, path_ok),
            !self.schema_matches_version(expected_version@) ==> (r matches Err(e)
                && e matches SessionError::SchemaVersionMismatch { expected, got } && expected@
                == expected_version@ && got@ == self.schema_version@),
            self.schema_matches_version(expected_version@) && !path_ok ==> (r matches Err(e)
                && e matches SessionError::InvalidPath { path } && path@
                == self.base_input.source_path@),
            self.schema_matches_version(expected_version@) && path_ok
                && !self.base_params.all_in_bounds() ==> (
            r matches Err(e) && e matches SessionError::InvalidParameters(pe)
                && pe matches ParamError::OutOfRange { .. } && reports_first_out_of_range(
                self.base_params,
                pe,
            )),
            r matches Err(e) ==> (e matches SessionError::InvalidParameters(pe)
                ==> reports_first_out_of_range(self.base_params, pe)),
            self.schema_matches_version(expected_version@) && path_ok
                && self.base_params.all_in_bounds()
                && !self.variations_distinct() ==> (r matches Err(e)
                && e matches SessionError::DuplicateVariation { variation_id: v }
                && exists|i: int, j: int|
                    #![trigger self.variations@[i].variation_id@, self.variations@[j].variation_id@]
                    0 <= i < j < self.variations@.len() && self.variations@[i].variation_id@
                        == self.variations@[j].variation_id@ && v@
                        == self.variations@[j].variation_id@),
            self.schema_matches_version(expected_version@) && path_ok
                && self.base_params.all_in_bounds()
                && self.variations_distinct() && !self.approvals_resolve() ==> (r matches Err(e)
                && e matches SessionError::OrphanedApproval { approved_id, variation_id }
                && exists|k: int|
                    0 <= k < self.approvals@.len()
                        && #[trigger] self.approvals@[k].approved_id@ == approved_id@
                        && self.approvals@[k].variation_id@ == variation_id@ && !self.has_variation(
                        variation_id@,
                    )),
            self.schema_matches_version(expected_version@) && path_ok
                && self.base_params.all_in_bounds()
                && self.variations_distinct() && self.approvals_resolve()
                && !self.approval_dims_valid() ==> (r matches Err(e) && e is InvalidDimensions),
            r matches Err(e) ==> (e matches SessionError::InvalidPath { path } ==> (
            self.schema_matches_version(expected_version@) && !path_ok && path@
                == self.base_input.source_path@)),
    {
        if !str_eq(self.schema_version.as_str(), expected_version) {
            return Err(SessionError::SchemaVersionMismatch {
                expected: String::from_str(expected_version),
                got: self.schema_version.clone(),
            });
        }
        if !path_ok {
            return Err(SessionError::InvalidPath { path: self.base_input.source_path.clone() });
        }
        match self.base_params.validate() {
            Err(pe) => {
                return Err(SessionError::InvalidParameters(pe));
            },
            Ok(()) => {},
        }
        let n = self.variations.len();
        let mut i: usize = 1;
        while i < n
            invariant
                1 <= i,
                n == self.variations@.len(),
                forall|a: int, b: int|
                    #![trigger self.variations@[a].variation_id@, self.variations@[b].variation_id@]
                    0 <= a < b < i ==> self.variations@[a].variation_id@
                        != self.variations@[b].variation_id@,
            decreases n - i,
        {
            let mut j: usize = 0;
            while j < i
                invariant
                    j <= i < n,
                    n == self.variations@.len(),
                    forall|b: int|
                        0 <= b < j ==> #[trigger] self.variations@[b].variation_id@
                            != self.variations@[i as int].variation_id@,
                decreases i - j,
            {
                if str_eq(
                    self.variations[j].variation_id.as_str(),
                    self.variations[i].variation_id.as_str(),
                ) {
                    return Err(SessionError::DuplicateVariation {
                        variation_id: self.variations[i].variation_id.clone(),
                    });
                }
                j = j + 1;
            }
            i = i + 1;
        }
        let m = self.approvals.len();
        let mut k: usize = 0;
        while k < m
            invariant
                k <= m,
                m == self.approvals@.len(),
                forall|a: int|
                    0 <= a < k ==> self.has_variation(
                        #[trigger] self.approvals@[a].variation_id@,
                    ),
            decreases m - k,
        {
            if !self.contains_variation(self.approvals[k].variation_id.as_str()) {
                let orphan_approved = self.approvals[k].approved_id.clone();
                let orphan_variation = self.approvals[k].variation_id.clone();
                proof {
                    assert((k as int) < self.approvals@.len()
                        && self.approvals@[k as int].approved_id@ == orphan_approved@
                        && self.approvals@[k as int].variation_id@ == orphan_variation@
                        && !self.has_variation(orphan_variation@));
                }
                return Err(SessionError::OrphanedApproval {
                    approved_id: orphan_approved,
                    variation_id: orphan_variation,
                });
            }
            k = k + 1;
        }
        let mut k: usize = 0;
        while k < m
            invariant
                k <= m,
                m == self.approvals@.len(),
                forall|a: int|
                    0 <= a < k ==> (#[trigger] self.approvals@[a]).dimensions.valid(),
            decreases m - k,
        {
            if !self.approvals[k].dimensions.is_valid() {
                return Err(SessionError::InvalidDimensions);
            }
            k = k + 1;
        }
        Ok(())
    }

    /// The on-demand consistency check: probes the base input path, then
    /// runs `validate_with`. Read-only and always safe to call; apart from
    /// the path probe, whose answer the disk decides, the verdict is the
    /// exact one `validate_with` states.
    pub fn validate(&self) -> (r: Result<(), SessionError>)
        ensures
            r is Ok ==> self.consistent_given_path(true),
            !self.schema_matches() ==> (r matches Err(e)
                && e matches SessionError::SchemaVersionMismatch { expected, got } && expected@
                == PARAM_SCHEMA_VERSION@ && got@ == self.schema_version@),
            self.schema_matches() && self.base_params.all_in_bounds() && self.variations_distinct()
                && self.approvals_resolve() && self.approval_dims_valid() ==> (r is Ok || (
            r matches Err(e) && e matches SessionError::InvalidPath { path } && path@
                == self.base_input.source_path@)),
            r matches Err(e) ==> (e matches SessionError::InvalidPath { path } ==> path@
                == self.base_input.source_path@ && self.schema_matches()),
            r matches Err(e) ==> (e matches SessionError::InvalidParameters(pe)
                ==> reports_first_out_of_range(self.base_params, pe)),
    {
        let path_ok = path_exists(self.base_input.source_path.as_str());
        self.validate_with(PARAM_SCHEMA_VERSION, path_ok)
    }
}

} // verus!
