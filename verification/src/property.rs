//! The type-erased handle and its operations.
//!
//! A [`DynProperty`] holds exactly one concrete value behind a uniform
//! representation: a tagged union whose tag is the value's runtime type
//! token.  The handle supports polymorphic clone, wholesale replacement
//! (`set`), semantic merge (`apply`) and aggregate discovery; the typed
//! access helpers live on the [`crate::PropertyVal`] trait.

use vstd::prelude::*;
use crate::model::{
    agg_fields, field_index, has_field, lemma_field_index, merge_ok, merged, names_unique, tag_of,
    PropModel,
};
use crate::tag::{Tag, TypeTag};

verus! {

/// A type-erased handle: exactly one concrete value of one concrete runtime
/// type.  The runtime type of a live handle never changes; only the value it
/// holds does.
#[derive(Debug, PartialEq, Eq)]
pub enum DynProperty {
    /// A 32-bit signed integer.
    I32(i32),
    /// A 64-bit unsigned integer.
    U64(u64),
    /// A boolean.
    Bool(bool),
    /// A string.
    Str(String),
    /// A sequence container of erased values; merging treats it as a leaf.
    List(Vec<DynProperty>),
    /// A string-keyed mapping container; merging treats it as a leaf.
    Dict(Vec<Entry>),
    /// A generated named wrapper type around one erased value.
    Named(NamedValue),
    /// An aggregate: named fields, each itself an erased value.
    Agg(Properties),
}

/// One named erased value, used both as a mapping entry and as an aggregate
/// field.
#[derive(Debug, PartialEq, Eq)]
pub struct Entry {
    /// The name of the entry; unique within one aggregate.
    pub name: String,
    /// The erased value behind the name.
    pub value: DynProperty,
}

/// A value of a generated plain wrapper type: the registered type name
/// together with the wrapped value.  Two wrapper values have the same runtime
/// type exactly when their names are equal.
#[derive(Debug, PartialEq, Eq)]
pub struct NamedValue {
    /// The registered name of the concrete type.
    pub name: String,
    /// The wrapped value.
    pub value: Box<DynProperty>,
}

/// An aggregate value: a named concrete type composed of uniquely named
/// fields, each an erased value in its own right.
#[derive(Debug, PartialEq, Eq)]
pub struct Properties {
    /// The registered name of the concrete aggregate type.
    pub name: String,
    /// The fields, in their stable declaration order.
    pub fields: Vec<Entry>,
}

/// The model an erased handle denotes.
pub open spec fn model(p: DynProperty) -> PropModel
    decreases p,
{
    match p {
        DynProperty::I32(x) => PropModel::I32(x),
        DynProperty::U64(x) => PropModel::U64(x),
        DynProperty::Bool(x) => PropModel::Bool(x),
        DynProperty::Str(s) => PropModel::Str(s@),
        DynProperty::List(v) => PropModel::List(list_model(v)),
        DynProperty::Dict(entries) => PropModel::Dict(entries_model(entries)),
        DynProperty::Named(nv) => PropModel::Named {
            name: nv.name@,
            value: Box::new(model(*nv.value)),
        },
        DynProperty::Agg(props) => PropModel::Agg {
            name: props.name@,
            fields: entries_model(props.fields),
        },
    }
}

/// The model of an aggregate value.
pub open spec fn props_model(p: Properties) -> PropModel {
    PropModel::Agg { name: p.name@, fields: entries_model(p.fields) }
}

/// The models of the elements of a sequence container, in order.
pub open spec fn list_model(v: Vec<DynProperty>) -> Seq<PropModel>
    decreases v,
{
    Seq::new(
        v@.len(),
        |i: int|
            if 0 <= i < v@.len() {
                model(v@[i])
            } else {
                PropModel::Bool(false)
            },
    )
}

/// The models of a list of named entries, names and order kept.
pub open spec fn entries_model(entries: Vec<Entry>) -> Seq<(Seq<char>, PropModel)>
    decreases entries,
{
    Seq::new(
        entries@.len(),
        |i: int|
            if 0 <= i < entries@.len() {
                (entries@[i].name@, model(entries@[i].value))
            } else {
                (Seq::empty(), PropModel::Bool(false))
            },
    )
}

impl View for DynProperty {
    type V = PropModel;

    open spec fn view(&self) -> PropModel {
        model(*self)
    }
}

/// A type-mismatch failure: an operation that demands exact runtime-type
/// equality was handed a value of another type.  It names the runtime type
/// the operation expected and the one it actually found.
#[derive(Debug, PartialEq, Eq)]
pub struct PropertyError {
    /// The runtime type of the target of the operation.
    pub expected: TypeTag,
    /// The runtime type of the value that was offered.
    pub actual: TypeTag,
}

impl View for PropertyError {
    type V = (Tag, Tag);

    open spec fn view(&self) -> (Tag, Tag) {
        (self.expected@, self.actual@)
    }
}

impl DynProperty {
    /// The runtime type token of the held value: the read-only runtime type
    /// view every erased value exposes.
    pub fn type_tag(&self) -> (t: TypeTag)
        ensures
            t@ == tag_of(self@),
    {
        match self {
            DynProperty::I32(_) => TypeTag::I32,
            DynProperty::U64(_) => TypeTag::U64,
            DynProperty::Bool(_) => TypeTag::Bool,
            DynProperty::Str(_) => TypeTag::Str,
            DynProperty::List(_) => TypeTag::List,
            DynProperty::Dict(_) => TypeTag::Dict,
            DynProperty::Named(nv) => TypeTag::Named(nv.name.clone()),
            DynProperty::Agg(props) => TypeTag::Agg(props.name.clone()),
        }
    }

    /// Polymorphic clone: a new, independently owned handle to an equal
    /// value of the same runtime type.
    #[verifier::loop_isolation(false)]
    pub fn clone_prop(&self) -> (r: DynProperty)
        ensures
            r@ == self@,
        decreases *self,
    {
        match self {
            DynProperty::I32(x) => DynProperty::I32(*x),
            DynProperty::U64(x) => DynProperty::U64(*x),
            DynProperty::Bool(x) => DynProperty::Bool(*x),
            DynProperty::Str(s) => DynProperty::Str(s.clone()),
            DynProperty::List(v) => {
                let mut out: Vec<DynProperty> = Vec::new();
                let mut i: usize = 0;
                while i < v.len()
                    invariant
                        i <= v.len(),
                        out@.len() == i,
                        forall|j: int| 0 <= j < i ==> model(#[trigger] out@[j]) == model(v@[j]),
                    decreases v.len() - i,
                {
                    proof {
                        assert(*v == (*self)->List_0);
                        assert(decreases_to!(*self => (*self)->List_0));
                        assert(decreases_to!(*v => v@));
                        assert(decreases_to!(v@ => v@[i as int]));
                    }
                    out.push(v[i].clone_prop());
                    i += 1;
                }
                let r = DynProperty::List(out);
                proof {
                    assert(out@.len() == v@.len());
                    assert(list_model(out) =~~= list_model(*v));
                    assert(model(r) =~~= model(*self));
                }
                r
            },
            DynProperty::Dict(entries) => {
                let out = clone_entries(entries);
                let r = DynProperty::Dict(out);
                proof {
                    assert(model(r) =~~= model(*self));
                }
                r
            },
            DynProperty::Named(nv) => {
                let inner = nv.value.clone_prop();
                DynProperty::Named(NamedValue { name: nv.name.clone(), value: Box::new(inner) })
            },
            DynProperty::Agg(props) => {
                let out = clone_entries(&props.fields);
                let r = DynProperty::Agg(Properties { name: props.name.clone(), fields: out });
                proof {
                    assert(model(r) =~~= model(*self));
                }
                r
            },
        }
    }
}

impl DynProperty {
    /// Wholesale replacement: overwrite the held value with `value`'s value.
    ///
    /// The runtime types of the two handles must be exactly equal; on a
    /// mismatch the handle is left untouched and the error names both types.
    pub fn set(&mut self, value: &DynProperty) -> (r: Result<(), PropertyError>)
        ensures
            tag_of(old(self)@) == tag_of(value@) ==> r is Ok && final(self)@ == value@,
            tag_of(old(self)@) != tag_of(value@) ==> final(self)@ == old(self)@ && (
            r matches Err(e) && e@ == (tag_of(old(self)@), tag_of(value@))),
    {
        let ta = self.type_tag();
        let tb = value.type_tag();
        if ta.tag_eq(&tb) {
            *self = value.clone_prop();
            Ok(())
        } else {
            Err(PropertyError { expected: ta, actual: tb })
        }
    }

    /// Semantic merge: an aggregate takes `value`'s fields of matching name
    /// field by field and keeps the rest; every other value is replaced
    /// wholesale exactly as by [`DynProperty::set`].
    ///
    /// On any type mismatch — a leaf merged with another runtime type, an
    /// aggregate merged with a non-aggregate, or a mismatch inside a matched
    /// field pair — the handle is left untouched and an error is returned.
    pub fn apply(&mut self, value: &DynProperty) -> (r: Result<(), PropertyError>)
        ensures
            merge_ok(old(self)@, value@) ==> r is Ok && final(self)@ == merged(
                old(self)@,
                value@,
            ),
            !merge_ok(old(self)@, value@) ==> r is Err && final(self)@ == old(self)@,
            !merge_ok(old(self)@, value@) && !(old(self)@ is Agg) ==> (
            r matches Err(e) && e@ == (tag_of(old(self)@), tag_of(value@))),
    {
        match applied_value(&*self, value) {
            Ok(v) => {
                *self = v;
                Ok(())
            },
            Err(e) => Err(e),
        }
    }
}

impl Properties {
    /// Whether the aggregate is well formed: no two fields share a name.
    pub open spec fn wf(&self) -> bool {
        names_unique(entries_model(self.fields))
    }

    /// A new, empty aggregate of the concrete type registered as `name`.
    pub fn new(name: String) -> (r: Properties)
        ensures
            props_model(r) == (PropModel::Agg { name: name@, fields: Seq::empty() }),
            r.wf(),
    {
        let r = Properties { name, fields: Vec::new() };
        proof {
            assert(entries_model(r.fields) =~~= Seq::<(Seq<char>, PropModel)>::empty());
        }
        r
    }

    /// How many fields the aggregate has.
    pub fn field_count(&self) -> (n: usize)
        ensures
            n == entries_model(self.fields).len(),
    {
        self.fields.len()
    }

    /// The name and value of the field at `i`, in the stable field order.
    pub fn field_at(&self, i: usize) -> (r: (&String, &DynProperty))
        requires
            i < entries_model(self.fields).len(),
        ensures
            r.0@ == entries_model(self.fields)[i as int].0,
            r.1@ == entries_model(self.fields)[i as int].1,
    {
        let e = &self.fields[i];
        (&e.name, &e.value)
    }

    /// The value of the field called `name`, if the aggregate has one.
    pub fn prop_with_name<'a>(&'a self, name: &String) -> (r: Option<&'a DynProperty>)
        ensures
            (r is Some) == has_field(entries_model(self.fields), name@),
            r matches Some(v) ==> v@ == entries_model(self.fields)[field_index(
                entries_model(self.fields),
                name@,
            )].1,
    {
        proof {
            lemma_field_index(entries_model(self.fields), name@);
        }
        match find_index(&self.fields, name) {
            Some(i) => Some(&self.fields[i].value),
            None => None,
        }
    }

    /// Insert a field: replace the value of the field called `name` where
    /// the aggregate already has one, and append a new field otherwise.
    /// Field names stay unique.
    pub fn insert(&mut self, name: String, value: DynProperty)
        ensures
            final(self).name@ == old(self).name@,
            ({
                let m0 = entries_model(old(self).fields);
                let m1 = entries_model(final(self).fields);
                if has_field(m0, name@) {
                    m1 == m0.update(field_index(m0, name@), (name@, value@))
                } else {
                    m1 == m0.push((name@, value@))
                }
            }),
            old(self).wf() ==> final(self).wf(),
    {
        let ghost m0 = entries_model(self.fields);
        proof {
            lemma_field_index(m0, name@);
        }
        match find_index(&self.fields, &name) {
            Some(i) => {
                self.fields[i] = Entry { name, value };
                proof {
                    let m1 = entries_model(self.fields);
                    assert(m1 =~~= m0.update(i as int, (m0[i as int].0, model(value))));
                    assert forall|p: int, q: int|
                        0 <= p < q < m1.len() && names_unique(m0) implies (#[trigger] m1[p]).0 != (
                        #[trigger] m1[q]).0 by {
                        assert(m1[p].0 == m0[p].0);
                        assert(m1[q].0 == m0[q].0);
                    }
                }
            },
            None => {
                self.fields.push(Entry { name, value });
                proof {
                    let m1 = entries_model(self.fields);
                    assert(m1 =~~= m0.push((name@, model(value))));
                    assert forall|p: int, q: int|
                        0 <= p < q < m1.len() && names_unique(m0) implies (#[trigger] m1[p]).0 != (
                        #[trigger] m1[q]).0 by {
                        if q < m0.len() {
                        } else {
                            assert(m1[q].0 == name@);
                            assert(m0[p].0 != name@);
                        }
                    }
                }
            },
        }
    }
}

/// The value the merge of `b` into `a` produces, or the type mismatch that
/// stops it; `a` and `b` are both left untouched.
#[verifier::loop_isolation(false)]
fn applied_value(a: &DynProperty, b: &DynProperty) -> (r: Result<DynProperty, PropertyError>)
    ensures
        merge_ok(a@, b@) ==> (r matches Ok(v) && v@ == merged(a@, b@)),
        !merge_ok(a@, b@) ==> r is Err,
        !merge_ok(a@, b@) && !(a@ is Agg) ==> (r matches Err(e) && e@ == (
        tag_of(a@),
        tag_of(b@),
        )),
        a@ is Agg && !(b@ is Agg) ==> (r matches Err(e) && e@ == (tag_of(a@), tag_of(b@))),
    decreases *a,
{
    match a {
        DynProperty::Agg(pa) => match b {
            DynProperty::Agg(pb) => {
                let ghost af = entries_model(pa.fields);
                let ghost bf = entries_model(pb.fields);
                let mut out: Vec<Entry> = Vec::new();
                let mut i: usize = 0;
                while i < pa.fields.len()
                    invariant
                        i <= pa.fields.len(),
                        out@.len() == i,
                        forall|j: int|
                            0 <= j < i && has_field(bf, (#[trigger] af[j]).0) ==> merge_ok(
                                af[j].1,
                                bf[field_index(bf, af[j].0)].1,
                            ),
                        forall|j: int|
                            0 <= j < i ==> #[trigger] entries_model(out)[j] == (
                            if has_field(bf, af[j].0) {
                                (af[j].0, merged(af[j].1, bf[field_index(bf, af[j].0)].1))
                            } else {
                                af[j]
                            }),
                    decreases pa.fields.len() - i,
                {
                    proof {
                        assert(*pa == (*a)->Agg_0);
                        assert(decreases_to!(*a => (*a)->Agg_0));
                        assert(decreases_to!(*pa => pa.fields));
                        assert(decreases_to!(pa.fields => pa.fields@));
                        assert(decreases_to!(pa.fields@ => pa.fields@[i as int]));
                    }
                    let e = &pa.fields[i];
                    proof {
                        assert(af[i as int] == (e.name@, model(e.value)));
                    }
                    match find_index(&pb.fields, &e.name) {
                        Some(k) => {
                            proof {
                                lemma_field_index(bf, af[i as int].0);
                                assert(bf[k as int] == (
                                    pb.fields@[k as int].name@,
                                    model(pb.fields@[k as int].value),
                                ));
                            }
                            match applied_value(&e.value, &pb.fields[k].value) {
                                Ok(v) => {
                                    let ghost out0 = out;
                                    out.push(Entry { name: e.name.clone(), value: v });
                                    proof {
                                        assert forall|j: int| 0 <= j < i implies #[trigger] entries_model(
                                            out,
                                        )[j] == entries_model(out0)[j] by {
                                            assert(out@[j] == out0@[j]);
                                        }
                                        assert(entries_model(out)[i as int] == (
                                            af[i as int].0,
                                            merged(
                                                af[i as int].1,
                                                bf[field_index(bf, af[i as int].0)].1,
                                            ),
                                        ));
                                    }
                                },
                                Err(err) => {
                                    proof {
                                        assert(!merge_ok(
                                            af[i as int].1,
                                            bf[field_index(bf, af[i as int].0)].1,
                                        ));
                                        assert(!merge_ok(a@, b@));
                                    }
                                    return Err(err);
                                },
                            }
                        },
                        None => {
                            let ghost out0 = out;
                            out.push(Entry { name: e.name.clone(), value: e.value.clone_prop() });
                            proof {
                                assert forall|j: int| 0 <= j < i implies #[trigger] entries_model(
                                    out,
                                )[j] == entries_model(out0)[j] by {
                                    assert(out@[j] == out0@[j]);
                                }
                                assert(entries_model(out)[i as int] == af[i as int]);
                            }
                        },
                    }
                    i += 1;
                }
                let result = DynProperty::Agg(
                    Properties { name: pa.name.clone(), fields: out },
                );
                proof {
                    assert(merge_ok(a@, b@));
                    let mf = agg_fields(merged(a@, b@));
                    assert forall|c: int| 0 <= c < af.len() implies entries_model(out)[c]
                        == mf[c] by {
                    }
                    assert(entries_model(out) =~~= mf);
                    assert(result@ =~~= merged(a@, b@));
                }
                Ok(result)
            },
            _ => {
                proof {
                    assert(!(b@ is Agg));
                }
                Err(PropertyError { expected: a.type_tag(), actual: b.type_tag() })
            },
        },
        _ => {
            proof {
                assert(!(a@ is Agg));
            }
            let ta = a.type_tag();
            let tb = b.type_tag();
            if ta.tag_eq(&tb) {
                Ok(b.clone_prop())
            } else {
                Err(PropertyError { expected: ta, actual: tb })
            }
        },
    }
}

/// Index of the first entry of `entries` called `name`, if any.
#[verifier::loop_isolation(false)]
fn find_index(entries: &Vec<Entry>, name: &String) -> (r: Option<usize>)
    ensures
        r matches Some(i) ==> i as int == field_index(entries_model(*entries), name@),
        (r is Some) == has_field(entries_model(*entries), name@),
{
    let ghost m = entries_model(*entries);
    proof {
        lemma_field_index(m, name@);
    }
    let mut i: usize = 0;
    while i < entries.len()
        invariant
            i <= entries.len(),
            forall|j: int| 0 <= j < i ==> (#[trigger] m[j]).0 != name@,
        decreases entries.len() - i,
    {
        if entries[i].name == *name {
            proof {
                assert(m[i as int].0 == name@);
                if !has_field(m, name@) {
                    assert(m[i as int].0 != name@);
                } else {
                    let k = field_index(m, name@);
                    if k < i as int {
                        assert(m[k].0 != name@);
                    } else if k > i as int {
                        assert(m[i as int].0 != name@);
                    }
                }
            }
            return Some(i);
        }
        i += 1;
    }
    proof {
        if has_field(m, name@) {
            let k = field_index(m, name@);
            assert(m[k].0 != name@);
        }
    }
    None
}

/// A clone of a list of named entries, names and order kept.
#[verifier::loop_isolation(false)]
fn clone_entries(entries: &Vec<Entry>) -> (r: Vec<Entry>)
    ensures
        entries_model(r) == entries_model(*entries),
    decreases *entries,
{
    let mut out: Vec<Entry> = Vec::new();
    let mut i: usize = 0;
    while i < entries.len()
        invariant
            i <= entries.len(),
            out@.len() == i,
            forall|j: int| 0 <= j < i ==> (#[trigger] out@[j]).name@ == entries@[j].name@
                && model(out@[j].value) == model(entries@[j].value),
        decreases entries.len() - i,
    {
        let e = &entries[i];
        out.push(Entry { name: e.name.clone(), value: e.value.clone_prop() });
        i += 1;
    }
    proof {
        assert(entries_model(out) =~~= entries_model(*entries));
    }
    out
}

} // verus!
