//! The generated wrapper family: the envelope, the single-variant tag and
//! the collection, with the three conversions between a plain list of items
//! and the tagged collection representation.

use vstd::prelude::*;

verus! {

/// An item together with its optional server-assigned metadata. Metadata is
/// only ever present on values read back from the server; freshly
/// constructed data has none.
pub struct Envelope<T, M> {
    pub item: T,
    pub metadata: Option<M>,
}

/// The single-variant union that models the server's habit of wrapping
/// every item of a collection in an object whose sole key is the singular
/// resource name.
pub enum Tag<T, M> {
    Tag(Envelope<T, M>),
}

/// The outer wrapper: a sequence of tags, bound on the wire to the plural
/// snake-case key.
pub struct Collection<T, M> {
    pub entries: Vec<Tag<T, M>>,
}

/// The tag that wraps one freshly constructed item: an envelope with no
/// metadata, inside the single tag variant.
pub open spec fn spec_tag_of<T, M>(item: T) -> Tag<T, M> {
    Tag::Tag(Envelope { item: item, metadata: None })
}

/// The envelope inside a tag. The tag type has exactly one variant, so this
/// is an irrefutable match.
pub open spec fn spec_envelope_of<T, M>(tag: Tag<T, M>) -> Envelope<T, M> {
    match tag {
        Tag::Tag(e) => e,
    }
}

/// The tags wrapping a sequence of items, in order.
pub open spec fn tags_of_items<T, M>(items: Seq<T>) -> Seq<Tag<T, M>> {
    items.map_values(|item: T| spec_tag_of::<T, M>(item))
}

/// The envelopes inside a sequence of tags, in order.
pub open spec fn envelopes_of_tags<T, M>(tags: Seq<Tag<T, M>>) -> Seq<Envelope<T, M>> {
    tags.map_values(|tag: Tag<T, M>| spec_envelope_of(tag))
}

/// The items inside a sequence of tags, in order, metadata discarded.
pub open spec fn items_of_tags<T, M>(tags: Seq<Tag<T, M>>) -> Seq<T> {
    tags.map_values(|tag: Tag<T, M>| spec_envelope_of(tag).item)
}

/// Wraps an owned list of items into a collection: each item in an envelope
/// with metadata absent, each envelope in the single tag variant, in input
/// order. Total, and count-preserving.
pub fn collection_from_items<T, M>(items: Vec<T>) -> (r: Collection<T, M>)
    ensures
        r.entries@ == tags_of_items::<T, M>(items@),
{
    let ghost all = items@;
    let mut entries: Vec<Tag<T, M>> = Vec::new();
    for item in it: items.into_iter()
        invariant
            it.seq() == all,
            entries@ == tags_of_items::<T, M>(all.take(it.index())),
    {
        let ghost old_entries = entries@;
        entries.push(Tag::Tag(Envelope { item, metadata: None }));
        proof {
            assert(tags_of_items::<T, M>(all.take(it.index() + 1)) =~= old_entries.push(
                spec_tag_of::<T, M>(all[it.index()]),
            ));
        }
    }
    proof {
        assert(all.take(all.len() as int) =~= all);
    }
    Collection { entries }
}

/// Unwraps an owned collection into its envelopes, in original order.
/// Total: the single tag variant makes every unwrapping irrefutable.
pub fn envelopes_from_collection<T, M>(collection: Collection<T, M>) -> (r: Vec<Envelope<T, M>>)
    ensures
        r@ == envelopes_of_tags(collection.entries@),
{
    let ghost all = collection.entries@;
    let mut envelopes: Vec<Envelope<T, M>> = Vec::new();
    for tag in it: collection.entries.into_iter()
        invariant
            it.seq() == all,
            envelopes@ == envelopes_of_tags(all.take(it.index())),
    {
        let ghost old_envelopes = envelopes@;
        let Tag::Tag(envelope) = tag;
        envelopes.push(envelope);
        proof {
            assert(envelopes_of_tags(all.take(it.index() + 1)) =~= old_envelopes.push(
                spec_envelope_of(all[it.index()]),
            ));
        }
    }
    proof {
        assert(all.take(all.len() as int) =~= all);
    }
    envelopes
}

/// Unwraps an owned collection into its items, in original order,
/// discarding each envelope's metadata. Total.
pub fn items_from_collection<T, M>(collection: Collection<T, M>) -> (r: Vec<T>)
    ensures
        r@ == items_of_tags(collection.entries@),
{
    let ghost all = collection.entries@;
    let mut items: Vec<T> = Vec::new();
    for tag in it: collection.entries.into_iter()
        invariant
            it.seq() == all,
            items@ == items_of_tags(all.take(it.index())),
    {
        let ghost old_items = items@;
        let Tag::Tag(envelope) = tag;
        items.push(envelope.item);
        proof {
            assert(items_of_tags(all.take(it.index() + 1)) =~= old_items.push(
                spec_envelope_of(all[it.index()]).item,
            ));
        }
    }
    proof {
        assert(all.take(all.len() as int) =~= all);
    }
    items
}

/// Round-trip count preservation: wrapping a list of items into a
/// collection and unwrapping it again yields the same items, the same
/// count, in the same order.
pub proof fn lemma_round_trip<T, M>(items: Seq<T>)
    ensures
        items_of_tags(tags_of_items::<T, M>(items)) == items,
        tags_of_items::<T, M>(items).len() == items.len(),
{
    assert(items_of_tags(tags_of_items::<T, M>(items)) =~= items);
}

/// Tag irrefutability: every tag value is the one defined variant, wrapping
/// its envelope; no other variant exists.
pub proof fn lemma_tag_irrefutable<T, M>(tag: Tag<T, M>)
    ensures
        tag == Tag::Tag(spec_envelope_of(tag)),
{
}

} // verus!
