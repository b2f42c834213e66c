//! The laws of the reflection layer, stated once over the model and proved.
//!
//! Each law here relates several operations of the layer through the spec
//! functions their contracts are stated over, so a caller can compose the
//! contracts without re-deriving these facts.

use vstd::prelude::*;
use crate::erased::Property;
use crate::model::{
    agg_fields, agg_name, field_index, has_field, lemma_field_index, merge_ok, merged,
    names_unique, tag_of, wf_model, PropModel,
};

verus! {

/// Law: a typed write that succeeds is seen by a typed read at the same
/// type.  After `set_val::<T>(h, v)` returns `Ok`, the handle's model is
/// exactly `v`'s model, and `val::<T>(h)` accepts it — the read returns the
/// written value.
pub proof fn lemma_write_then_read<T: Property>(before: PropModel, v: &T)
    requires
        tag_of(before) == tag_of(v.erased_model()),
    ensures
        T::accepts(v.erased_model()),
{
    v.lemma_accepts();
}

/// Law: on every non-aggregate value, the semantic merge is the wholesale
/// replacement — `apply` is defined exactly when `set` is (the runtime
/// types are equal) and produces exactly `set`'s result.
pub proof fn lemma_leaf_apply_is_set(a: PropModel, b: PropModel)
    requires
        !(a is Agg),
    ensures
        merge_ok(a, b) == (tag_of(a) == tag_of(b)),
        merge_ok(a, b) ==> merged(a, b) == b,
{
}

/// Law: the runtime type behind a handle never changes.  Whenever the merge
/// is defined, its result carries exactly the runtime type of the value it
/// replaces; only the contents change.
pub proof fn lemma_apply_preserves_type(a: PropModel, b: PropModel)
    requires
        merge_ok(a, b),
    ensures
        tag_of(merged(a, b)) == tag_of(a),
{
}

/// Law: a merge keeps values well formed.  Merging never introduces a
/// duplicate field name at any depth: it keeps the target's own field names
/// and only replaces values with merges of already well-formed values.
pub proof fn lemma_apply_preserves_wf(a: PropModel, b: PropModel)
    requires
        wf_model(a),
        wf_model(b),
        merge_ok(a, b),
    ensures
        wf_model(merged(a, b)),
    decreases a,
{
    match a {
        PropModel::Agg { name: an, fields: af } => match b {
            PropModel::Agg { name: bn, fields: bf } => {
                let mfields = agg_fields(merged(a, b));
                assert forall|i: int, j: int| 0 <= i < j < mfields.len() implies (
                #[trigger] mfields[i]).0 != (#[trigger] mfields[j]).0 by {
                    assert(mfields[i].0 == af[i].0);
                    assert(mfields[j].0 == af[j].0);
                    assert(af[i].0 != af[j].0);
                }
                assert forall|i: int| 0 <= i < mfields.len() implies wf_model(
                    (#[trigger] mfields[i]).1,
                ) by {
                    if has_field(bf, af[i].0) {
                        let k = field_index(bf, af[i].0);
                        lemma_field_index(bf, af[i].0);
                        lemma_apply_preserves_wf(af[i].1, bf[k].1);
                        assert(mfields[i].1 == merged(af[i].1, bf[k].1));
                    } else {
                        assert(mfields[i] == af[i]);
                        assert(wf_model(af[i].1));
                    }
                }
            },
            _ => {
            },
        },
        _ => {
        },
    }
}

/// Law: the merge of aggregate `b` into aggregate `a` is field-granular.
/// The merged value keeps `a`'s type name, field set and field order; every
/// field of `a` whose name `b` also has is merged with `b`'s field of that
/// name — replaced outright where the field is itself a leaf — and every
/// field of `a` absent from `b` is left untouched.
pub proof fn lemma_apply_agg_fields(a: PropModel, b: PropModel)
    requires
        a is Agg,
        b is Agg,
        merge_ok(a, b),
    ensures
        merged(a, b) is Agg,
        agg_name(merged(a, b)) == agg_name(a),
        agg_fields(merged(a, b)).len() == agg_fields(a).len(),
        forall|i: int|
            0 <= i < agg_fields(a).len() ==> (#[trigger] agg_fields(merged(a, b))[i]).0
                == agg_fields(a)[i].0,
        forall|i: int|
            0 <= i < agg_fields(a).len() && has_field(
                agg_fields(b),
                (#[trigger] agg_fields(a)[i]).0,
            ) ==> agg_fields(merged(a, b))[i].1 == merged(
                agg_fields(a)[i].1,
                agg_fields(b)[field_index(agg_fields(b), agg_fields(a)[i].0)].1,
            ),
        forall|i: int|
            0 <= i < agg_fields(a).len() && has_field(
                agg_fields(b),
                (#[trigger] agg_fields(a)[i]).0,
            ) && !(agg_fields(a)[i].1 is Agg) ==> agg_fields(merged(a, b))[i].1 == agg_fields(
                b,
            )[field_index(agg_fields(b), agg_fields(a)[i].0)].1,
        forall|i: int|
            0 <= i < agg_fields(a).len() && !has_field(
                agg_fields(b),
                (#[trigger] agg_fields(a)[i]).0,
            ) ==> agg_fields(merged(a, b))[i] == agg_fields(a)[i],
{
    assert forall|i: int|
        0 <= i < agg_fields(a).len() && has_field(agg_fields(b), (#[trigger] agg_fields(a)[i]).0)
            && !(agg_fields(a)[i].1 is Agg) implies agg_fields(merged(a, b))[i].1 == agg_fields(
        b,
    )[field_index(agg_fields(b), agg_fields(a)[i].0)].1 by {
        lemma_leaf_apply_is_set(
            agg_fields(a)[i].1,
            agg_fields(b)[field_index(agg_fields(b), agg_fields(a)[i].0)].1,
        );
    }
}

} // verus!
