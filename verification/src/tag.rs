//! Runtime type tokens.
//!
//! Every erased value carries an implicit concrete type; a [`TypeTag`] is the
//! runtime token that stands for that type.  Tokens are compared during
//! downcasts and whole-value replacement, and they appear in type-mismatch
//! errors.  Generated wrapper types and aggregates are identified by the name
//! they were registered under.

use vstd::prelude::*;

verus! {

/// Mathematical form of a runtime type token.
pub enum Tag {
    /// A 32-bit signed integer value.
    I32,
    /// A 64-bit unsigned integer value.
    U64,
    /// A boolean value.
    Bool,
    /// A string value.
    Str,
    /// A sequence container of erased values, treated as an opaque leaf.
    List,
    /// A string-keyed mapping container of erased values, an opaque leaf.
    Dict,
    /// A generated named wrapper type; the name identifies the concrete type.
    Named(Seq<char>),
    /// An aggregate with named fields; the name identifies the concrete type.
    Agg(Seq<char>),
}

/// Runtime type token of an erased value.
#[derive(PartialEq, Eq, Debug)]
pub enum TypeTag {
    /// A 32-bit signed integer value.
    I32,
    /// A 64-bit unsigned integer value.
    U64,
    /// A boolean value.
    Bool,
    /// A string value.
    Str,
    /// A sequence container of erased values, treated as an opaque leaf.
    List,
    /// A string-keyed mapping container of erased values, an opaque leaf.
    Dict,
    /// A generated named wrapper type; the name identifies the concrete type.
    Named(String),
    /// An aggregate with named fields; the name identifies the concrete type.
    Agg(String),
}

impl View for TypeTag {
    type V = Tag;

    open spec fn view(&self) -> Tag {
        match self {
            TypeTag::I32 => Tag::I32,
            TypeTag::U64 => Tag::U64,
            TypeTag::Bool => Tag::Bool,
            TypeTag::Str => Tag::Str,
            TypeTag::List => Tag::List,
            TypeTag::Dict => Tag::Dict,
            TypeTag::Named(name) => Tag::Named(name@),
            TypeTag::Agg(name) => Tag::Agg(name@),
        }
    }
}

impl TypeTag {
    /// Token equality, the check every typed operation performs before it
    /// grants access.
    pub fn tag_eq(&self, other: &TypeTag) -> (r: bool)
        ensures
            r == (self@ == other@),
    {
        match (self, other) {
            (TypeTag::I32, TypeTag::I32) => true,
            (TypeTag::U64, TypeTag::U64) => true,
            (TypeTag::Bool, TypeTag::Bool) => true,
            (TypeTag::Str, TypeTag::Str) => true,
            (TypeTag::List, TypeTag::List) => true,
            (TypeTag::Dict, TypeTag::Dict) => true,
            (TypeTag::Named(a), TypeTag::Named(b)) => *a == *b,
            (TypeTag::Agg(a), TypeTag::Agg(b)) => *a == *b,
            _ => false,
        }
    }
}

} // verus!
