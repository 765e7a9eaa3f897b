//! The wrapper generator: from a base name, an ordered override list and
//! the caller's own item definition, the finalized identifier set and the
//! descriptions of the envelope, tag and collection types.

use vstd::prelude::*;

use crate::builder::{spec_build, spec_new, spec_set, BuilderView, StraitJacketBuilder};
use crate::jacket::{JacketView, StraitJacket};
use crate::parser::{get_attributes_and_values, pairs_view, spec_pairs, AttributeEntry};

verus! {

/// The description of the generated envelope type: an item value plus an
/// optional metadata value. Metadata participates in deserialization but is
/// suppressed on serialization.
pub struct EnvelopeDef {
    /// The envelope type's own name.
    pub name: String,
    /// The name of the caller's item type.
    pub item_type: String,
    /// The name of the caller-supplied metadata type.
    pub metadata_type: String,
}

/// The description of the generated tag type: a single-variant union
/// carrying an envelope, bound on the wire to the singular snake-case key.
pub struct TagDef {
    /// The tag type's own name.
    pub name: String,
    /// The wire key of the sole variant: the singular snake-case name.
    pub key: String,
    /// The name of the envelope type the variant carries.
    pub envelope_type: String,
}

/// The description of the generated collection type: one field holding a
/// sequence of tags, bound on the wire to the plural snake-case key.
pub struct CollectionDef {
    /// The collection type's own name.
    pub name: String,
    /// The wire key of the sole field: the plural snake-case name.
    pub key: String,
    /// The name of the tag type the field holds a sequence of.
    pub tag_type: String,
}

/// Everything one invocation of the generator produces: the caller's item
/// definition reproduced verbatim, the finalized identifier set, and the
/// three wrapper type descriptions, in emission order.
pub struct Generated {
    /// The caller's own definition, untouched: generation is purely additive.
    pub item: String,
    /// The finalized identifier set.
    pub names: StraitJacket,
    /// The envelope type description.
    pub envelope: EnvelopeDef,
    /// The tag type description.
    pub tag: TagDef,
    /// The collection type description.
    pub collection: CollectionDef,
}

/// A builder state after applying a sequence of override pairs in order:
/// later writes to a slot replace earlier ones.
pub open spec fn spec_apply(b: BuilderView, pairs: Seq<(Seq<char>, Seq<char>)>) -> BuilderView
    decreases pairs.len(),
{
    if pairs.len() == 0 {
        b
    } else {
        spec_apply(spec_set(b, pairs[0].0, pairs[0].1), pairs.drop_first())
    }
}

/// The identifier set that one invocation of the generator derives: a fresh
/// builder for the base name, the extracted override pairs applied in
/// order, then finalized.
pub open spec fn spec_names(name: Seq<char>, entries: Seq<AttributeEntry>) -> JacketView {
    spec_build(spec_apply(spec_new(name), spec_pairs(entries)))
}

/// Runs the generator for one resource: extracts the override pairs from
/// the attribute entries, derives the identifier set, and emits the
/// envelope, tag and collection descriptions, with the caller's item
/// definition reproduced verbatim. Total: unrecognized attribute shapes and
/// unknown keys are ignored, never errors.
pub fn straitjacket(item_name: &str, item_definition: &str, attributes: &Vec<AttributeEntry>) -> (r:
    Generated)
    ensures
        ({
            let sj = spec_names(item_name@, attributes@);
            &&& r.item@ == item_definition@
            &&& r.names@ == sj
            &&& r.envelope.name@ == sj.name_and_metadata
            &&& r.envelope.item_type@ == sj.name
            &&& r.envelope.metadata_type@ == sj.metadata
            &&& r.tag.name@ == sj.name_tag
            &&& r.tag.key@ == sj.name_snake
            &&& r.tag.envelope_type@ == sj.name_and_metadata
            &&& r.collection.name@ == sj.plural
            &&& r.collection.key@ == sj.plural_snake
            &&& r.collection.tag_type@ == sj.name_tag
        }),
{
    let ghost all_pairs = spec_pairs(attributes@);
    let mut builder = StraitJacketBuilder::new(item_name.to_owned());
    let pairs = get_attributes_and_values(attributes);
    proof {
        assert(all_pairs.skip(0) =~= all_pairs);
    }

    let n = pairs.len();
    for i in 0..n
        invariant
            n == pairs.len(),
            pairs_view(pairs@) == all_pairs,
            spec_apply(builder@, all_pairs.skip(i as int)) == spec_apply(
                spec_new(item_name@),
                all_pairs,
            ),
    {
        let ghost before = builder@;
        let ghost rest = all_pairs.skip(i as int);
        builder = builder.set(pairs[i].0.as_str(), pairs[i].1.as_str());
        proof {
            assert(rest[0] == all_pairs[i as int]);
            assert(rest.drop_first() =~= all_pairs.skip(i + 1 as int));
            assert(spec_apply(before, rest) == spec_apply(
                spec_set(before, rest[0].0, rest[0].1),
                rest.drop_first(),
            ));
        }
    }
    proof {
        assert(all_pairs.skip(n as int) =~= Seq::<(Seq<char>, Seq<char>)>::empty());
    }

    let names = builder.build();

    let envelope = EnvelopeDef {
        name: names.name_and_metadata().clone(),
        item_type: names.name().clone(),
        metadata_type: names.metadata().clone(),
    };
    let tag = TagDef {
        name: names.name_tag().clone(),
        key: names.name_snake().clone(),
        envelope_type: names.name_and_metadata().clone(),
    };
    let collection = CollectionDef {
        name: names.plural().clone(),
        key: names.plural_snake().clone(),
        tag_type: names.name_tag().clone(),
    };

    Generated { item: item_definition.to_owned(), names, envelope, tag, collection }
}

} // verus!
