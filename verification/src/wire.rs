//! The wire shape of the envelope family: objects modeled as ordered lists
//! of keyed fields. The collection is an object with the plural snake-case
//! name as its sole key, holding an array of tag objects; a tag object's
//! sole key is the singular snake-case name and holds the envelope's
//! fields; the envelope is the flat union of the item's fields with the
//! metadata type's fields merged in on read and suppressed on write.

use vstd::prelude::*;

use crate::text::str_eq;

verus! {

/// The character sequences of a list of keys.
pub open spec fn key_seq(keys: Seq<String>) -> Seq<Seq<char>> {
    keys.map_values(|k: String| k@)
}

/// The fields whose key is among `keys`, in input order.
pub open spec fn item_fields_of<V>(fields: Seq<(String, V)>, keys: Seq<Seq<char>>) -> Seq<
    (String, V),
> {
    fields.filter(|f: (String, V)| keys.contains(f.0@))
}

/// The fields read into the metadata slot: those under a metadata key that
/// is not also an item key. A field whose key is both an item key and a
/// metadata key goes to the item side: keeping the two key sets disjoint is
/// the caller's responsibility.
pub open spec fn metadata_fields_of<V>(
    fields: Seq<(String, V)>,
    item_keys: Seq<Seq<char>>,
    metadata_keys: Seq<Seq<char>>,
) -> Seq<(String, V)> {
    fields.filter(
        |f: (String, V)| !item_keys.contains(f.0@) && metadata_keys.contains(f.0@),
    )
}

/// Whether `k` is among the character sequences of `keys`.
fn contains_key(keys: &Vec<String>, k: &str) -> (r: bool)
    ensures
        r == key_seq(keys@).contains(k@),
{
    let n = keys.len();
    for i in 0..n
        invariant
            n == keys.len(),
            forall|j: int| 0 <= j < i ==> key_seq(keys@)[j] != k@,
    {
        if str_eq(keys[i].as_str(), k) {
            proof {
                assert(key_seq(keys@)[i as int] == k@);
            }
            return true;
        }
    }
    false
}

/// Serializes an envelope: the emitted fields are exactly the item's own
/// fields; metadata, present or not, is suppressed on write.
pub fn envelope_write_fields<V>(
    item_fields: Vec<(String, V)>,
    metadata_fields: Option<Vec<(String, V)>>,
) -> (r: Vec<(String, V)>)
    ensures
        r@ == item_fields@,
{
    let _ = metadata_fields;
    item_fields
}

/// Deserializes an envelope from the flat field list of a wire object:
/// fields under item keys become the item's fields, fields under metadata
/// keys fill the metadata slot, and anything else is dropped. When no
/// metadata field is present the metadata slot is left unset — that is not
/// an error.
pub fn envelope_read_fields<V>(
    fields: Vec<(String, V)>,
    item_keys: &Vec<String>,
    metadata_keys: &Vec<String>,
) -> (r: (Vec<(String, V)>, Option<Vec<(String, V)>>))
    ensures
        r.0@ == item_fields_of(fields@, key_seq(item_keys@)),
        match r.1 {
            Some(m) => m@ == metadata_fields_of(
                fields@,
                key_seq(item_keys@),
                key_seq(metadata_keys@),
            ) && m@.len() > 0,
            None => metadata_fields_of(fields@, key_seq(item_keys@), key_seq(metadata_keys@)).len()
                == 0,
        },
{
    let ghost all = fields@;
    let ghost ik = key_seq(item_keys@);
    let ghost mk = key_seq(metadata_keys@);
    let mut item_out: Vec<(String, V)> = Vec::new();
    let mut metadata_out: Vec<(String, V)> = Vec::new();
    proof {
        reveal(Seq::filter);
        assert(all.take(0) =~= Seq::<(String, V)>::empty());
    }
    for field in it: fields.into_iter()
        invariant
            it.seq() == all,
            ik == key_seq(item_keys@),
            mk == key_seq(metadata_keys@),
            item_out@ == item_fields_of(all.take(it.index()), ik),
            metadata_out@ == metadata_fields_of(all.take(it.index()), ik, mk),
    {
        let ghost prefix = all.take(it.index());
        let ghost next = all.take(it.index() + 1);
        let ghost fsnap = field;
        if contains_key(item_keys, field.0.as_str()) {
            item_out.push(field);
        } else if contains_key(metadata_keys, field.0.as_str()) {
            metadata_out.push(field);
        }
        proof {
            reveal(Seq::filter);
            assert(next.drop_last() =~= prefix);
            assert(next.last() == fsnap);
            assert(item_fields_of(next, ik) == (if ik.contains(next.last().0@) {
                item_fields_of(prefix, ik).push(next.last())
            } else {
                item_fields_of(prefix, ik)
            }));
            assert(metadata_fields_of(next, ik, mk) == (if !ik.contains(next.last().0@)
                && mk.contains(next.last().0@) {
                metadata_fields_of(prefix, ik, mk).push(next.last())
            } else {
                metadata_fields_of(prefix, ik, mk)
            }));
        }
    }
    proof {
        assert(all.take(all.len() as int) =~= all);
    }
    if metadata_out.len() == 0 {
        (item_out, None)
    } else {
        (item_out, Some(metadata_out))
    }
}

/// Serializes a tag: an object whose sole key is the singular snake-case
/// name, holding the envelope value.
pub fn tag_write<V>(name_snake: &String, envelope: V) -> (r: Vec<(String, V)>)
    ensures
        r@.len() == 1,
        r@[0].0@ == name_snake@,
        r@[0].1 == envelope,
{
    let mut obj: Vec<(String, V)> = Vec::new();
    obj.push((name_snake.clone(), envelope));
    obj
}

/// Deserializes a tag: succeeds exactly when the object has one field and
/// its key is the singular snake-case name, yielding the envelope value.
pub fn tag_read<V>(obj: Vec<(String, V)>, name_snake: &String) -> (r: Option<V>)
    ensures
        obj@.len() == 1 && obj@[0].0@ == name_snake@ ==> r == Some(obj@[0].1),
        !(obj@.len() == 1 && obj@[0].0@ == name_snake@) ==> r is None,
{
    let mut obj = obj;
    if obj.len() == 1 {
        let field = obj.pop().unwrap();
        if str_eq(field.0.as_str(), name_snake.as_str()) {
            Some(field.1)
        } else {
            None
        }
    } else {
        None
    }
}

/// Serializes a collection: an object whose sole key is the plural
/// snake-case name, holding the array of tag values.
pub fn collection_write<V>(plural_snake: &String, tags: Vec<V>) -> (r: Vec<(String, Vec<V>)>)
    ensures
        r@.len() == 1,
        r@[0].0@ == plural_snake@,
        r@[0].1 == tags,
{
    tag_write(plural_snake, tags)
}

/// Deserializes a collection: succeeds exactly when the object has one
/// field and its key is the plural snake-case name, yielding the array of
/// tag values.
pub fn collection_read<V>(obj: Vec<(String, Vec<V>)>, plural_snake: &String) -> (r: Option<
    Vec<V>,
>)
    ensures
        obj@.len() == 1 && obj@[0].0@ == plural_snake@ ==> r == Some(obj@[0].1),
        !(obj@.len() == 1 && obj@[0].0@ == plural_snake@) ==> r is None,
{
    tag_read(obj, plural_snake)
}

proof fn lemma_filter_all<A>(s: Seq<A>, pred: spec_fn(A) -> bool)
    requires
        forall|i: int| 0 <= i < s.len() ==> pred(#[trigger] s[i]),
    ensures
        s.filter(pred) == s,
    decreases s.len(),
{
    reveal(Seq::filter);
    if s.len() == 0 {
        assert(s.filter(pred) =~= s);
    } else {
        lemma_filter_all(s.drop_last(), pred);
        assert(s.drop_last().filter(pred).push(s.last()) =~= s);
    }
}

proof fn lemma_filter_none<A>(s: Seq<A>, pred: spec_fn(A) -> bool)
    requires
        forall|i: int| 0 <= i < s.len() ==> !pred(#[trigger] s[i]),
    ensures
        s.filter(pred).len() == 0,
    decreases s.len(),
{
    reveal(Seq::filter);
    if s.len() > 0 {
        lemma_filter_none(s.drop_last(), pred);
    }
}

/// Metadata write-suppression: an envelope whose fields all sit under item
/// keys — which is exactly what writing an envelope emits, whether or not
/// metadata was present — reads back as the same item fields with the
/// metadata slot unset.
pub proof fn lemma_metadata_write_suppression<V>(
    item_fields: Seq<(String, V)>,
    item_keys: Seq<Seq<char>>,
    metadata_keys: Seq<Seq<char>>,
)
    requires
        forall|i: int| 0 <= i < item_fields.len() ==> item_keys.contains(
            #[trigger] item_fields[i].0@,
        ),
    ensures
        item_fields_of(item_fields, item_keys) == item_fields,
        metadata_fields_of(item_fields, item_keys, metadata_keys).len() == 0,
{
    lemma_filter_all(item_fields, |f: (String, V)| item_keys.contains(f.0@));
    lemma_filter_none(
        item_fields,
        |f: (String, V)| !item_keys.contains(f.0@) && metadata_keys.contains(f.0@),
    );
}

} // verus!
