//! Deterministic variation specs: batches of candidate configurations.
//!
//! A batch of `count` variations is a pure function of the base seed and
//! the parameter set: entry `k` carries the derived seed
//! `base_seed.derive(k)` and the identifier
//! `var_<k zero-padded to 4><underscore><derived seed in decimal>`.
//! Identifiers are pairwise distinct within a batch because the padded
//! index renders injectively and digit runs contain no underscore.

use vstd::prelude::*;

use crate::params::ParameterSetV1;
use crate::textfmt::{
    dec_str, digits_val, lemma_pad_dec_props, lemma_sep_split_unique, pad_left, u64_to_dec_string,
    u64_to_padded_string,
};
use crate::{AssetClass, Seed, UniqueId, seed_derive, PARAM_SCHEMA_VERSION};

verus! {

/// The identifier of the variation at `index` with derived seed value
/// `seed_value`.
pub open spec fn variation_id_seq(index: nat, seed_value: u64) -> Seq<char> {
    "var_"@ + (pad_left(dec_str(index), 4) + seq!['_'] + dec_str(seed_value as nat))
}

/// Equal left parts of a concatenation cancel.
proof fn lemma_concat_left_cancel(p: Seq<char>, a: Seq<char>, b: Seq<char>)
    requires
        p + a == p + b,
    ensures
        a == b,
{
    assert((p + a).len() == p.len() + a.len());
    assert((p + b).len() == p.len() + b.len());
    assert(a.len() == b.len());
    assert forall|i: int| 0 <= i < a.len() implies a[i] == b[i] by {
        assert((p + a)[p.len() + i] == a[i]);
        assert((p + b)[p.len() + i] == b[i]);
    }
    assert(a =~= b);
}

/// Variation identifiers determine their index: two identifiers built from
/// different indices differ, whatever the seeds.
pub proof fn lemma_variation_id_injective(i: nat, s1: u64, j: nat, s2: u64)
    requires
        variation_id_seq(i, s1) == variation_id_seq(j, s2),
    ensures
        i == j,
{
    let p1 = pad_left(dec_str(i), 4);
    let p2 = pad_left(dec_str(j), 4);
    lemma_concat_left_cancel(
        "var_"@,
        p1 + seq!['_'] + dec_str(s1 as nat),
        p2 + seq!['_'] + dec_str(s2 as nat),
    );
    lemma_pad_dec_props(i, 4);
    lemma_pad_dec_props(j, 4);
    lemma_sep_split_unique(p1, dec_str(s1 as nat), p2, dec_str(s2 as nat));
    assert(digits_val(p1) == digits_val(p2));
}

/// Build the identifier of the variation at `index` with derived seed
/// value `seed_value`.
pub(crate) fn make_variation_id(index: u64, seed_value: u64) -> (r: String)
    ensures
        r@ == variation_id_seq(index as nat, seed_value),
{
    let mut s = String::from_str("var_");
    let padded = u64_to_padded_string(index, 4);
    s.append(padded.as_str());
    s.append("_");
    let dec = u64_to_dec_string(seed_value);
    s.append(dec.as_str());
    proof {
        reveal_strlit("_");
        assert(s@ =~= variation_id_seq(index as nat, seed_value));
    }
    s
}

/// A single variation spec, immutable once created: same spec, same
/// downstream output.
#[derive(Debug, Clone, PartialEq)]
pub struct VariationSpecV1 {
    pub variation_id: String,
    pub base_session_id: UniqueId,
    pub asset_class: AssetClass,
    pub schema_version: String,
    pub seed: Seed,
    pub params: ParameterSetV1,
    pub intent_text: String,
}

impl VariationSpecV1 {
    /// The spec at position `k` of a batch generated from these inputs.
    pub open spec fn is_batch_entry(
        self,
        base_session_id: UniqueId,
        asset_class: AssetClass,
        base_seed: Seed,
        base_params: ParameterSetV1,
        intent_text: Seq<char>,
        k: int,
    ) -> bool {
        &&& self.variation_id@ == variation_id_seq(k as nat, seed_derive(base_seed.0, k as u64))
        &&& self.base_session_id == base_session_id
        &&& self.asset_class == asset_class
        &&& self.schema_version@ == PARAM_SCHEMA_VERSION@
        &&& self.seed.0 == seed_derive(base_seed.0, k as u64)
        &&& self.params == base_params
        &&& self.intent_text@ == intent_text
    }

    /// Generate `count` deterministic variations from a base seed and
    /// parameter set: entry `k` carries the derived seed
    /// `base_seed.derive(k)` and an identifier unique within the batch;
    /// the parameters are the shared snapshot, unchanged. An empty intent
    /// text is permitted (a regeneration with only a seed change).
    pub fn generate_batch(
        base_session_id: UniqueId,
        asset_class: AssetClass,
        base_seed: Seed,
        base_params: ParameterSetV1,
        intent_text: &str,
        count: usize,
    ) -> (r: Vec<VariationSpecV1>)
        ensures
            r@.len() == count,
            forall|k: int| 0 <= k < count ==> #[trigger] r@[k].is_batch_entry(
                base_session_id, asset_class, base_seed, base_params, intent_text@, k,
            ),
            forall|k1: int, k2: int|
                #![trigger r@[k1].variation_id@, r@[k2].variation_id@]
                0 <= k1 < count && 0 <= k2 < count && k1 != k2
                    ==> r@[k1].variation_id@ != r@[k2].variation_id@,
    {
        let mut out: Vec<VariationSpecV1> = Vec::new();
        let mut i: usize = 0;
        while i < count
            invariant
                i <= count,
                out@.len() == i,
                forall|k: int| 0 <= k < i ==> #[trigger] out@[k].is_batch_entry(
                    base_session_id, asset_class, base_seed, base_params, intent_text@, k,
                ),
            decreases count - i,
        {
            let seed = base_seed.derive(i as u64);
            let variation_id = make_variation_id(i as u64, seed.0);
            out.push(VariationSpecV1 {
                variation_id,
                base_session_id,
                asset_class,
                schema_version: String::from_str(PARAM_SCHEMA_VERSION),
                seed,
                params: base_params,
                intent_text: String::from_str(intent_text),
            });
            i = i + 1;
        }
        proof {
            assert forall|k1: int, k2: int|
                #![trigger out@[k1].variation_id@, out@[k2].variation_id@]
                0 <= k1 < count && 0 <= k2 < count && k1 != k2
                    implies out@[k1].variation_id@ != out@[k2].variation_id@ by {
                assert(out@[k1].is_batch_entry(
                    base_session_id, asset_class, base_seed, base_params, intent_text@, k1,
                ));
                assert(out@[k2].is_batch_entry(
                    base_session_id, asset_class, base_seed, base_params, intent_text@, k2,
                ));
                if out@[k1].variation_id@ == out@[k2].variation_id@ {
                    lemma_variation_id_injective(
                        k1 as nat,
                        seed_derive(base_seed.0, k1 as u64),
                        k2 as nat,
                        seed_derive(base_seed.0, k2 as u64),
                    );
                }
            }
        }
        out
    }
}

} // verus!
