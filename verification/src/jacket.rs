//! The finalized set of canonical names derived for one resource.

use vstd::prelude::*;

verus! {

/// The mathematical value of a [`StraitJacket`]: the seven canonical names
/// as character sequences.
pub struct JacketView {
    pub name: Seq<char>,
    pub name_snake: Seq<char>,
    pub name_and_metadata: Seq<char>,
    pub name_tag: Seq<char>,
    pub plural: Seq<char>,
    pub plural_snake: Seq<char>,
    pub metadata: Seq<char>,
}

/// The immutable set of canonical names for one resource, finalized once by
/// [`crate::builder::StraitJacketBuilder::build`] and consumed by the wrapper
/// generator: the base name, its snake-case form, the envelope and tag type
/// names, the plural and plural snake-case forms, and the metadata type name.
#[derive(Debug, Clone)]
pub struct StraitJacket {
    name: String,
    name_snake: String,
    name_and_metadata: String,
    name_tag: String,
    plural: String,
    plural_snake: String,
    metadata: String,
}

impl View for StraitJacket {
    type V = JacketView;

    closed spec fn view(&self) -> JacketView {
        JacketView {
            name: self.name@,
            name_snake: self.name_snake@,
            name_and_metadata: self.name_and_metadata@,
            name_tag: self.name_tag@,
            plural: self.plural@,
            plural_snake: self.plural_snake@,
            metadata: self.metadata@,
        }
    }
}

impl StraitJacket {
    /// Packs seven already-derived names into an identifier set.
    pub fn new(
        name: String,
        name_snake: String,
        name_and_metadata: String,
        name_tag: String,
        plural: String,
        plural_snake: String,
        metadata: String,
    ) -> (r: Self)
        ensures
            r@ == (JacketView {
                name: name@,
                name_snake: name_snake@,
                name_and_metadata: name_and_metadata@,
                name_tag: name_tag@,
                plural: plural@,
                plural_snake: plural_snake@,
                metadata: metadata@,
            }),
    {
        Self { name, name_snake, name_and_metadata, name_tag, plural, plural_snake, metadata }
    }

    /// The base resource type name.
    pub fn name(&self) -> (r: &String)
        ensures
            r@ == self@.name,
    {
        &self.name
    }

    /// The lower-case, underscored singular key.
    pub fn name_snake(&self) -> (r: &String)
        ensures
            r@ == self@.name_snake,
    {
        &self.name_snake
    }

    /// The name of the type wrapping an item together with optional metadata.
    pub fn name_and_metadata(&self) -> (r: &String)
        ensures
            r@ == self@.name_and_metadata,
    {
        &self.name_and_metadata
    }

    /// The name of the single-variant union wrapping the envelope.
    pub fn name_tag(&self) -> (r: &String)
        ensures
            r@ == self@.name_tag,
    {
        &self.name_tag
    }

    /// The plural type name for the collection.
    pub fn plural(&self) -> (r: &String)
        ensures
            r@ == self@.plural,
    {
        &self.plural
    }

    /// The lower-case, underscored plural key.
    pub fn plural_snake(&self) -> (r: &String)
        ensures
            r@ == self@.plural_snake,
    {
        &self.plural_snake
    }

    /// The name of the caller-supplied metadata type.
    pub fn metadata(&self) -> (r: &String)
        ensures
            r@ == self@.metadata,
    {
        &self.metadata
    }
}

} // verus!
