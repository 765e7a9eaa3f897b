//! Derives the family of identifiers and wrapper shapes used by a remote
//! API that returns collections in a quirky envelope: each item is wrapped
//! in an object whose sole key is the resource's snake-case name, the list
//! of those objects sits under the pluralized snake-case key, and
//! server-assigned metadata is merged into items on read but never written.
//!
//! The crate derives the canonical names (snake case, plural, plural snake
//! case, envelope and tag type names, metadata type name) from a base
//! resource name with explicit overrides, parses declarative key/value
//! overrides out of an attribute list, and models the envelope, tag and
//! collection wrappers together with the conversions between a plain list
//! of items and the tagged collection representation.

pub mod builder;
pub mod generate;
pub mod inflect;
pub mod jacket;
pub mod parser;
mod text;
pub mod wire;
pub mod wrapper;
