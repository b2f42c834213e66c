//! Mathematical model of erased values.
//!
//! Every erased handle denotes a [`PropModel`]: an abstract value together
//! with the runtime type it carries.  The contracts of the executable layer
//! are stated over this model, and the semantics of the merge operation
//! (`apply`) is defined here once, as the spec functions [`merge_ok`] and
//! [`merged`].

use vstd::prelude::*;
use crate::tag::Tag;

verus! {

/// Abstract form of an erased value: the concrete value it holds, with
/// enough structure to recover its runtime type.
#[verifier::ext_equal]
pub enum PropModel {
    /// A 32-bit signed integer.
    I32(i32),
    /// A 64-bit unsigned integer.
    U64(u64),
    /// A boolean.
    Bool(bool),
    /// A string.
    Str(Seq<char>),
    /// A sequence container of erased values; an opaque leaf for merging.
    List(Seq<PropModel>),
    /// A string-keyed mapping container; an opaque leaf for merging.
    Dict(Seq<(Seq<char>, PropModel)>),
    /// A generated named wrapper type around one erased value.
    Named { name: Seq<char>, value: Box<PropModel> },
    /// An aggregate: a named concrete type with ordered, named fields.
    Agg { name: Seq<char>, fields: Seq<(Seq<char>, PropModel)> },
}

/// The runtime type token a value of this model carries.
pub open spec fn tag_of(m: PropModel) -> Tag {
    match m {
        PropModel::I32(_) => Tag::I32,
        PropModel::U64(_) => Tag::U64,
        PropModel::Bool(_) => Tag::Bool,
        PropModel::Str(_) => Tag::Str,
        PropModel::List(_) => Tag::List,
        PropModel::Dict(_) => Tag::Dict,
        PropModel::Named { name, value } => Tag::Named(name),
        PropModel::Agg { name, fields } => Tag::Agg(name),
    }
}

/// The field list of an aggregate model.
pub open spec fn agg_fields(m: PropModel) -> Seq<(Seq<char>, PropModel)>
    recommends
        m is Agg,
{
    match m {
        PropModel::Agg { name, fields } => fields,
        _ => arbitrary(),
    }
}

/// The type name of an aggregate model.
pub open spec fn agg_name(m: PropModel) -> Seq<char>
    recommends
        m is Agg,
{
    match m {
        PropModel::Agg { name, fields } => name,
        _ => arbitrary(),
    }
}

/// Index of the first field called `name`, or `-1` when there is none.
pub open spec fn field_index(fields: Seq<(Seq<char>, PropModel)>, name: Seq<char>) -> int
    decreases fields.len(),
{
    if fields.len() == 0 {
        -1
    } else if fields[0].0 == name {
        0
    } else {
        let rest = field_index(fields.drop_first(), name);
        if rest < 0 {
            -1
        } else {
            rest + 1
        }
    }
}

/// Whether some field is called `name`.
pub open spec fn has_field(fields: Seq<(Seq<char>, PropModel)>, name: Seq<char>) -> bool {
    field_index(fields, name) >= 0
}

/// `field_index` finds exactly the first occurrence of a name.
pub proof fn lemma_field_index(fields: Seq<(Seq<char>, PropModel)>, name: Seq<char>)
    ensures
        has_field(fields, name) ==> {
            let i = field_index(fields, name);
            &&& 0 <= i < fields.len()
            &&& fields[i].0 == name
            &&& forall|j: int| 0 <= j < i ==> (#[trigger] fields[j]).0 != name
        },
        !has_field(fields, name) ==> forall|j: int|
            0 <= j < fields.len() ==> (#[trigger] fields[j]).0 != name,
    decreases fields.len(),
{
    if fields.len() > 0 && fields[0].0 != name {
        lemma_field_index(fields.drop_first(), name);
        assert forall|j: int| 1 <= j < fields.len() implies fields.drop_first()[j - 1]
            == #[trigger] fields[j] by {
        }
    }
}

/// No two fields share a name.
pub open spec fn names_unique(fields: Seq<(Seq<char>, PropModel)>) -> bool {
    forall|i: int, j: int|
        0 <= i < j < fields.len() ==> (#[trigger] fields[i]).0 != (#[trigger] fields[j]).0
}

/// Whether a value is well formed: within every aggregate and every mapping
/// container it holds, no two entries share a name.
pub open spec fn wf_model(m: PropModel) -> bool
    decreases m,
{
    match m {
        PropModel::List(s) => forall|i: int| 0 <= i < s.len() ==> wf_model(#[trigger] s[i]),
        PropModel::Dict(s) => names_unique(s) && forall|i: int|
            0 <= i < s.len() ==> wf_model((#[trigger] s[i]).1),
        PropModel::Named { name, value } => wf_model(*value),
        PropModel::Agg { name, fields } => names_unique(fields) && forall|i: int|
            0 <= i < fields.len() ==> wf_model((#[trigger] fields[i]).1),
        _ => true,
    }
}

/// Whether the merge `apply` performs is defined for the pair `(a, b)`.
///
/// Aggregates merge into aggregates field by field: every field of `a` whose
/// name `b` also has must itself merge into `b`'s field of that name.  Every
/// other value is a leaf and merges only into a value of its exact runtime
/// type.
pub open spec fn merge_ok(a: PropModel, b: PropModel) -> bool
    decreases a,
{
    match a {
        PropModel::Agg { name: an, fields: af } => match b {
            PropModel::Agg { name: bn, fields: bf } => forall|i: int|
                0 <= i < af.len() && has_field(bf, (#[trigger] af[i]).0) ==> merge_ok(
                    af[i].1,
                    bf[field_index(bf, af[i].0)].1,
                ),
            _ => false,
        },
        _ => tag_of(a) == tag_of(b),
    }
}

/// The value `apply` leaves behind when `merge_ok(a, b)` holds.
///
/// For an aggregate, each field of `a` is merged with `b`'s field of the same
/// name where `b` has one and kept unchanged where it does not; the field set
/// and order of `a` are preserved.  Every other value is replaced wholesale
/// by `b`.
pub open spec fn merged(a: PropModel, b: PropModel) -> PropModel
    decreases a,
{
    match a {
        PropModel::Agg { name: an, fields: af } => match b {
            PropModel::Agg { name: bn, fields: bf } => PropModel::Agg {
                name: an,
                fields: Seq::new(
                    af.len(),
                    |i: int|
                        if 0 <= i < af.len() && has_field(bf, af[i].0) {
                            (af[i].0, merged(af[i].1, bf[field_index(bf, af[i].0)].1))
                        } else {
                            af[i]
                        },
                ),
            },
            _ => b,
        },
        _ => b,
    }
}

} // verus!
