//! The mutable accumulator that derives an identifier set from a base name
//! and explicit overrides.

use vstd::prelude::*;

use crate::inflect::{plural_of, snake_of, to_plural, to_snake_case};
use crate::jacket::{JacketView, StraitJacket};
use crate::text::str_eq;

verus! {

/// The mathematical value of a [`StraitJacketBuilder`]: the base name and
/// the six optional override slots.
pub struct BuilderView {
    pub name: Seq<char>,
    pub name_snake: Option<Seq<char>>,
    pub name_and_metadata: Option<Seq<char>>,
    pub name_tag: Option<Seq<char>>,
    pub plural: Option<Seq<char>>,
    pub plural_snake: Option<Seq<char>>,
    pub metadata: Option<Seq<char>>,
}

/// Accumulates overrides for the derived names of one resource, starting
/// from the base name, and finalizes them into a [`StraitJacket`] with
/// [`StraitJacketBuilder::build`]. Each setter replaces any earlier value
/// for its slot, so the last write wins.
#[derive(Debug, Clone)]
pub struct StraitJacketBuilder {
    name: String,
    name_snake: Option<String>,
    name_and_metadata: Option<String>,
    name_tag: Option<String>,
    plural: Option<String>,
    plural_snake: Option<String>,
    metadata: Option<String>,
}

impl View for StraitJacketBuilder {
    type V = BuilderView;

    closed spec fn view(&self) -> BuilderView {
        BuilderView {
            name: self.name@,
            name_snake: match self.name_snake {
                Some(ref s) => Some(s@),
                None => None,
            },
            name_and_metadata: match self.name_and_metadata {
                Some(ref s) => Some(s@),
                None => None,
            },
            name_tag: match self.name_tag {
                Some(ref s) => Some(s@),
                None => None,
            },
            plural: match self.plural {
                Some(ref s) => Some(s@),
                None => None,
            },
            plural_snake: match self.plural_snake {
                Some(ref s) => Some(s@),
                None => None,
            },
            metadata: match self.metadata {
                Some(ref s) => Some(s@),
                None => None,
            },
        }
    }
}

/// A fresh builder state: the base name with every override slot empty.
pub open spec fn spec_new(name: Seq<char>) -> BuilderView {
    BuilderView {
        name: name,
        name_snake: None,
        name_and_metadata: None,
        name_tag: None,
        plural: None,
        plural_snake: None,
        metadata: None,
    }
}

/// What [`StraitJacketBuilder::set`] does to a builder state: the six
/// recognized keys fill their slot; any other key leaves the state unchanged.
pub open spec fn spec_set(b: BuilderView, field: Seq<char>, value: Seq<char>) -> BuilderView {
    if field == "name_snake"@ {
        BuilderView { name_snake: Some(value), ..b }
    } else if field == "name_and_metadata"@ {
        BuilderView { name_and_metadata: Some(value), ..b }
    } else if field == "name_tag"@ {
        BuilderView { name_tag: Some(value), ..b }
    } else if field == "plural"@ {
        BuilderView { plural: Some(value), ..b }
    } else if field == "plural_snake"@ {
        BuilderView { plural_snake: Some(value), ..b }
    } else if field == "metadata"@ {
        BuilderView { metadata: Some(value), ..b }
    } else {
        b
    }
}

/// What [`StraitJacketBuilder::build`] computes from a builder state: each
/// unset slot gets its default. The plural snake-case default is derived
/// from the effective plural, so a plural override flows into it.
pub open spec fn spec_build(b: BuilderView) -> JacketView {
    let plural = match b.plural {
        Some(p) => p,
        None => plural_of(b.name),
    };
    JacketView {
        name: b.name,
        name_snake: match b.name_snake {
            Some(s) => s,
            None => snake_of(b.name),
        },
        name_and_metadata: match b.name_and_metadata {
            Some(s) => s,
            None => b.name + "AndMetadata"@,
        },
        name_tag: match b.name_tag {
            Some(s) => s,
            None => b.name + "Tag"@,
        },
        plural: plural,
        plural_snake: match b.plural_snake {
            Some(s) => s,
            None => snake_of(plural),
        },
        metadata: match b.metadata {
            Some(s) => s,
            None => "Metadata"@,
        },
    }
}

impl StraitJacketBuilder {
    /// Starts a builder from the base resource name, with all override
    /// slots empty.
    pub fn new(name: String) -> (r: Self)
        ensures
            r@ == spec_new(name@),
    {
        Self {
            name,
            name_snake: None,
            name_and_metadata: None,
            name_tag: None,
            plural: None,
            plural_snake: None,
            metadata: None,
        }
    }

    /// Overrides the snake-case form of the base name.
    pub fn name_snake(self, value: &str) -> (r: Self)
        ensures
            r@ == (BuilderView { name_snake: Some(value@), ..self@ }),
    {
        Self { name_snake: Some(value.to_owned()), ..self }
    }

    /// Overrides the name of the envelope type.
    pub fn name_and_metadata(self, value: &str) -> (r: Self)
        ensures
            r@ == (BuilderView { name_and_metadata: Some(value@), ..self@ }),
    {
        Self { name_and_metadata: Some(value.to_owned()), ..self }
    }

    /// Overrides the name of the tag type.
    pub fn name_tag(self, value: &str) -> (r: Self)
        ensures
            r@ == (BuilderView { name_tag: Some(value@), ..self@ }),
    {
        Self { name_tag: Some(value.to_owned()), ..self }
    }

    /// Overrides the plural form of the base name.
    pub fn plural(self, value: &str) -> (r: Self)
        ensures
            r@ == (BuilderView { plural: Some(value@), ..self@ }),
    {
        Self { plural: Some(value.to_owned()), ..self }
    }

    /// Overrides the snake-case form of the plural.
    pub fn plural_snake(self, value: &str) -> (r: Self)
        ensures
            r@ == (BuilderView { plural_snake: Some(value@), ..self@ }),
    {
        Self { plural_snake: Some(value.to_owned()), ..self }
    }

    /// Overrides the name of the metadata type.
    pub fn metadata(self, value: &str) -> (r: Self)
        ensures
            r@ == (BuilderView { metadata: Some(value@), ..self@ }),
    {
        Self { metadata: Some(value.to_owned()), ..self }
    }

    /// Applies `value` to the slot named by `field`, if it is one of the six
    /// recognized keys; any other key is silently ignored.
    pub fn set(self, field: &str, value: &str) -> (r: Self)
        ensures
            r@ == spec_set(self@, field@, value@),
    {
        if str_eq(field, "name_snake") {
            self.name_snake(value)
        } else if str_eq(field, "name_and_metadata") {
            self.name_and_metadata(value)
        } else if str_eq(field, "name_tag") {
            self.name_tag(value)
        } else if str_eq(field, "plural") {
            self.plural(value)
        } else if str_eq(field, "plural_snake") {
            self.plural_snake(value)
        } else if str_eq(field, "metadata") {
            self.metadata(value)
        } else {
            self
        }
    }

    /// Finalizes the builder: every unset slot gets its default and the
    /// seven names are packed into an immutable identifier set. Total: it
    /// never fails.
    pub fn build(self) -> (r: StraitJacket)
        ensures
            r@ == spec_build(self@),
    {
        let Self { name, name_snake, name_and_metadata, name_tag, plural, plural_snake, metadata } =
            self;

        let plural: String = match plural {
            Some(p) => p,
            None => to_plural(name.as_str()),
        };
        let name_snake: String = match name_snake {
            Some(s) => s,
            None => to_snake_case(name.as_str()),
        };
        let name_and_metadata: String = match name_and_metadata {
            Some(s) => s,
            None => name.clone().concat("AndMetadata"),
        };
        let name_tag: String = match name_tag {
            Some(s) => s,
            None => name.clone().concat("Tag"),
        };
        let plural_snake: String = match plural_snake {
            Some(s) => s,
            None => to_snake_case(plural.as_str()),
        };
        let metadata: String = match metadata {
            Some(s) => s,
            None => "Metadata".to_owned(),
        };

        StraitJacket::new(name, name_snake, name_and_metadata, name_tag, plural, plural_snake, metadata)
    }
}

/// Default derivation determinism: finalizing builders that are in the same
/// state yields identical identifier sets; in particular, repeated
/// finalization of a fresh builder for a fixed base name always derives the
/// same names.
pub proof fn lemma_build_deterministic(b1: BuilderView, b2: BuilderView)
    requires
        b1 == b2,
    ensures
        spec_build(b1) == spec_build(b2),
{
}

/// Override precedence: when the plural is overridden and the plural
/// snake-case form is not, the finalized plural snake-case name is the snake
/// case of the overridden plural, not of the auto-pluralized base name.
pub proof fn lemma_override_precedence(b: BuilderView, p: Seq<char>)
    requires
        b.plural == Some(p),
        b.plural_snake is None,
    ensures
        spec_build(b).plural == p,
        spec_build(b).plural_snake == snake_of(p),
{
}

} // verus!
