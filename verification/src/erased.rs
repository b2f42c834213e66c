//! The erasure contract and the typed-access helpers.
//!
//! [`Property`] is the capability a concrete type needs to live behind a
//! type-erased handle: conversion into the handle, a checked typed view out
//! of it, and a runtime type token.  [`AsProperties`] is aggregate
//! discovery: it answers whether a value has named, traversable sub-fields.
//! [`PropertyVal`] is the pair of typed-access helpers on the handle itself.
//!
//! The `Property` implementations on the concrete payload types below are
//! the generation mechanism of this layer, written out once per type shape:
//! one uniform rule for plain types and one for container types, whose
//! merges degrade to wholesale replacement and whose aggregate membership is
//! absent.

use vstd::prelude::*;
use crate::model::{tag_of, PropModel};
use crate::property::{
    entries_model, list_model, model, props_model, DynProperty, Entry, NamedValue, Properties,
    PropertyError,
};
use crate::tag::TypeTag;

verus! {

/// Aggregate discovery: every erased value answers whether it is composed
/// of named fields, and hands its aggregate view out if so.
pub trait AsProperties {
    /// The erased model of this value.
    spec fn erased_model(&self) -> PropModel;

    /// The aggregate behind this value, if it is one.
    fn as_properties(&self) -> (r: Option<&Properties>)
        ensures
            (r is Some) == (self.erased_model() is Agg),
            r matches Some(p) ==> props_model(*p) == self.erased_model(),
    ;
}

/// The capability set of a reflectable concrete type: it can be erased into
/// a handle, recovered from one by a runtime-type-checked view, and it
/// carries a runtime type token.
pub trait Property: AsProperties + Sized {
    /// Which erased values hold exactly this concrete type.
    spec fn accepts(m: PropModel) -> bool;

    /// Every value of the type is accepted back by its own typed view.
    proof fn lemma_accepts(&self)
        ensures
            Self::accepts(self.erased_model()),
    ;

    /// The runtime type token of this value.
    fn prop_tag(&self) -> (t: TypeTag)
        ensures
            t@ == tag_of(self.erased_model()),
    ;

    /// Erase the value into a handle that owns it.
    fn erase(self) -> (p: DynProperty)
        ensures
            p@ == self.erased_model(),
    ;

    /// The checked typed view: a reference to the held value exactly when
    /// the handle holds this concrete type.
    fn downcast<'a>(p: &'a DynProperty) -> (r: Option<&'a Self>)
        ensures
            (r is Some) == Self::accepts(p@),
            r matches Some(v) ==> v.erased_model() == p@,
    ;

    /// The mutable typed view: exclusive typed access to the held value of
    /// a handle known to hold this concrete type.  Whatever the caller
    /// leaves behind the reference is what the handle then holds.
    fn downcast_mut<'a>(p: &'a mut DynProperty) -> (r: &'a mut Self)
        requires
            Self::accepts(old(p)@),
        ensures
            (*r).erased_model() == old(p)@,
            final(p)@ == (*final(r)).erased_model(),
    ;
}

/// The typed-access helpers layered on the erased handle: a typed read that
/// returns nothing on a type mismatch, and a typed overwrite that reports
/// the mismatch and leaves the handle untouched.
pub trait PropertyVal: AsProperties {
    /// The typed read: `Some` exactly when the handle holds a `T`.
    fn val<'a, T: Property>(&'a self) -> (r: Option<&'a T>)
        ensures
            (r is Some) == T::accepts(self.erased_model()),
            r matches Some(v) ==> v.erased_model() == self.erased_model(),
    ;

    /// The typed overwrite: replaces the held value with `value` when the
    /// runtime types agree exactly, and otherwise reports the mismatch and
    /// leaves the handle untouched.
    fn set_val<T: Property>(&mut self, value: T) -> (r: Result<(), PropertyError>)
        ensures
            tag_of(old(self).erased_model()) == tag_of(value.erased_model()) ==> r is Ok
                && final(self).erased_model() == value.erased_model(),
            tag_of(old(self).erased_model()) != tag_of(value.erased_model())
                ==> final(self).erased_model() == old(self).erased_model() && (
            r matches Err(e) && e@ == (
                tag_of(old(self).erased_model()),
                tag_of(value.erased_model()),
            )),
    ;
}

impl AsProperties for DynProperty {
    open spec fn erased_model(&self) -> PropModel {
        model(*self)
    }

    fn as_properties(&self) -> (r: Option<&Properties>) {
        match self {
            DynProperty::Agg(p) => Some(p),
            _ => None,
        }
    }
}

impl PropertyVal for DynProperty {
    fn val<'a, T: Property>(&'a self) -> (r: Option<&'a T>) {
        T::downcast(self)
    }

    fn set_val<T: Property>(&mut self, value: T) -> (r: Result<(), PropertyError>) {
        let ts = self.type_tag();
        let tv = value.prop_tag();
        if ts.tag_eq(&tv) {
            *self = value.erase();
            Ok(())
        } else {
            Err(PropertyError { expected: ts, actual: tv })
        }
    }
}

impl AsProperties for Properties {
    open spec fn erased_model(&self) -> PropModel {
        props_model(*self)
    }

    fn as_properties(&self) -> (r: Option<&Properties>) {
        Some(self)
    }
}

impl Property for Properties {
    open spec fn accepts(m: PropModel) -> bool {
        m is Agg
    }

    proof fn lemma_accepts(&self) {
    }

    fn prop_tag(&self) -> (t: TypeTag) {
        TypeTag::Agg(self.name.clone())
    }

    fn erase(self) -> (p: DynProperty) {
        DynProperty::Agg(self)
    }

    fn downcast<'a>(p: &'a DynProperty) -> (r: Option<&'a Self>) {
        match p {
            DynProperty::Agg(v) => Some(v),
            _ => None,
        }
    }

    fn downcast_mut<'a>(p: &'a mut DynProperty) -> (r: &'a mut Self) {
        match p {
            DynProperty::Agg(v) => v,
            _ => unreached(),
        }
    }
}

impl AsProperties for NamedValue {
    open spec fn erased_model(&self) -> PropModel {
        PropModel::Named { name: self.name@, value: Box::new(model(*self.value)) }
    }

    fn as_properties(&self) -> (r: Option<&Properties>) {
        None
    }
}

impl Property for NamedValue {
    open spec fn accepts(m: PropModel) -> bool {
        m is Named
    }

    proof fn lemma_accepts(&self) {
    }

    fn prop_tag(&self) -> (t: TypeTag) {
        TypeTag::Named(self.name.clone())
    }

    fn erase(self) -> (p: DynProperty) {
        DynProperty::Named(self)
    }

    fn downcast<'a>(p: &'a DynProperty) -> (r: Option<&'a Self>) {
        match p {
            DynProperty::Named(v) => Some(v),
            _ => None,
        }
    }

    fn downcast_mut<'a>(p: &'a mut DynProperty) -> (r: &'a mut Self) {
        match p {
            DynProperty::Named(v) => v,
            _ => unreached(),
        }
    }
}

impl AsProperties for i32 {
    open spec fn erased_model(&self) -> PropModel {
        PropModel::I32(*self)
    }

    fn as_properties(&self) -> (r: Option<&Properties>) {
        None
    }
}

impl Property for i32 {
    open spec fn accepts(m: PropModel) -> bool {
        m is I32
    }

    proof fn lemma_accepts(&self) {
    }

    fn prop_tag(&self) -> (t: TypeTag) {
        TypeTag::I32
    }

    fn erase(self) -> (p: DynProperty) {
        DynProperty::I32(self)
    }

    fn downcast<'a>(p: &'a DynProperty) -> (r: Option<&'a Self>) {
        match p {
            DynProperty::I32(v) => Some(v),
            _ => None,
        }
    }

    fn downcast_mut<'a>(p: &'a mut DynProperty) -> (r: &'a mut Self) {
        match p {
            DynProperty::I32(v) => v,
            _ => unreached(),
        }
    }
}

impl AsProperties for u64 {
    open spec fn erased_model(&self) -> PropModel {
        PropModel::U64(*self)
    }

    fn as_properties(&self) -> (r: Option<&Properties>) {
        None
    }
}

impl Property for u64 {
    open spec fn accepts(m: PropModel) -> bool {
        m is U64
    }

    proof fn lemma_accepts(&self) {
    }

    fn prop_tag(&self) -> (t: TypeTag) {
        TypeTag::U64
    }

    fn erase(self) -> (p: DynProperty) {
        DynProperty::U64(self)
    }

    fn downcast<'a>(p: &'a DynProperty) -> (r: Option<&'a Self>) {
        match p {
            DynProperty::U64(v) => Some(v),
            _ => None,
        }
    }

    fn downcast_mut<'a>(p: &'a mut DynProperty) -> (r: &'a mut Self) {
        match p {
            DynProperty::U64(v) => v,
            _ => unreached(),
        }
    }
}

impl AsProperties for bool {
    open spec fn erased_model(&self) -> PropModel {
        PropModel::Bool(*self)
    }

    fn as_properties(&self) -> (r: Option<&Properties>) {
        None
    }
}

impl Property for bool {
    open spec fn accepts(m: PropModel) -> bool {
        m is Bool
    }

    proof fn lemma_accepts(&self) {
    }

    fn prop_tag(&self) -> (t: TypeTag) {
        TypeTag::Bool
    }

    fn erase(self) -> (p: DynProperty) {
        DynProperty::Bool(self)
    }

    fn downcast<'a>(p: &'a DynProperty) -> (r: Option<&'a Self>) {
        match p {
            DynProperty::Bool(v) => Some(v),
            _ => None,
        }
    }

    fn downcast_mut<'a>(p: &'a mut DynProperty) -> (r: &'a mut Self) {
        match p {
            DynProperty::Bool(v) => v,
            _ => unreached(),
        }
    }
}

impl AsProperties for String {
    open spec fn erased_model(&self) -> PropModel {
        PropModel::Str(self@)
    }

    fn as_properties(&self) -> (r: Option<&Properties>) {
        None
    }
}

impl Property for String {
    open spec fn accepts(m: PropModel) -> bool {
        m is Str
    }

    proof fn lemma_accepts(&self) {
    }

    fn prop_tag(&self) -> (t: TypeTag) {
        TypeTag::Str
    }

    fn erase(self) -> (p: DynProperty) {
        DynProperty::Str(self)
    }

    fn downcast<'a>(p: &'a DynProperty) -> (r: Option<&'a Self>) {
        match p {
            DynProperty::Str(v) => Some(v),
            _ => None,
        }
    }

    fn downcast_mut<'a>(p: &'a mut DynProperty) -> (r: &'a mut Self) {
        match p {
            DynProperty::Str(v) => v,
            _ => unreached(),
        }
    }
}

impl AsProperties for Vec<DynProperty> {
    open spec fn erased_model(&self) -> PropModel {
        PropModel::List(list_model(*self))
    }

    fn as_properties(&self) -> (r: Option<&Properties>) {
        None
    }
}

impl Property for Vec<DynProperty> {
    open spec fn accepts(m: PropModel) -> bool {
        m is List
    }

    proof fn lemma_accepts(&self) {
    }

    fn prop_tag(&self) -> (t: TypeTag) {
        TypeTag::List
    }

    fn erase(self) -> (p: DynProperty) {
        DynProperty::List(self)
    }

    fn downcast<'a>(p: &'a DynProperty) -> (r: Option<&'a Self>) {
        match p {
            DynProperty::List(v) => Some(v),
            _ => None,
        }
    }

    fn downcast_mut<'a>(p: &'a mut DynProperty) -> (r: &'a mut Self) {
        match p {
            DynProperty::List(v) => v,
            _ => unreached(),
        }
    }
}

impl AsProperties for Vec<Entry> {
    open spec fn erased_model(&self) -> PropModel {
        PropModel::Dict(entries_model(*self))
    }

    fn as_properties(&self) -> (r: Option<&Properties>) {
        None
    }
}

impl Property for Vec<Entry> {
    open spec fn accepts(m: PropModel) -> bool {
        m is Dict
    }

    proof fn lemma_accepts(&self) {
    }

    fn prop_tag(&self) -> (t: TypeTag) {
        TypeTag::Dict
    }

    fn erase(self) -> (p: DynProperty) {
        DynProperty::Dict(self)
    }

    fn downcast<'a>(p: &'a DynProperty) -> (r: Option<&'a Self>) {
        match p {
            DynProperty::Dict(v) => Some(v),
            _ => None,
        }
    }

    fn downcast_mut<'a>(p: &'a mut DynProperty) -> (r: &'a mut Self) {
        match p {
            DynProperty::Dict(v) => v,
            _ => unreached(),
        }
    }
}

} // verus!
