//! Extraction of `(key, string-value)` override pairs from an ordered list
//! of declarative attribute entries.

use vstd::prelude::*;

verus! {

/// The literal value of a declarative attribute entry: a string literal, or
/// any other kind of literal.
pub enum AttributeLiteral {
    Str(String),
    Other,
}

/// One declarative attribute entry. A `NameValue` entry carries the
/// segments of its key path and its literal value; every other attribute
/// shape (a bare path, a list, a lone literal) is `Other`.
pub enum AttributeEntry {
    NameValue { path: Vec<String>, value: AttributeLiteral },
    Other,
}

/// The override pair an entry yields, if any: an entry yields a pair
/// exactly when it is a key/value entry whose value is a string literal and
/// whose key is a single plain identifier.
pub open spec fn spec_key_value(e: AttributeEntry) -> Option<(Seq<char>, Seq<char>)> {
    match e {
        AttributeEntry::NameValue { path, value } => match value {
            AttributeLiteral::Str(s) => if path@.len() == 1 {
                Some((path@[0]@, s@))
            } else {
                None
            },
            AttributeLiteral::Other => None,
        },
        AttributeEntry::Other => None,
    }
}

/// The character sequences of an extracted pair of strings.
pub open spec fn pair_view(p: (String, String)) -> (Seq<char>, Seq<char>) {
    (p.0@, p.1@)
}

/// The character sequences of a sequence of extracted pairs.
pub open spec fn pairs_view(s: Seq<(String, String)>) -> Seq<(Seq<char>, Seq<char>)> {
    s.map_values(|p: (String, String)| pair_view(p))
}

/// The override pairs extracted from an entry list, in input order: one
/// pair per entry that yields one, the rest dropped.
pub open spec fn spec_pairs(s: Seq<AttributeEntry>) -> Seq<(Seq<char>, Seq<char>)>
    decreases s.len(),
{
    if s.len() == 0 {
        Seq::empty()
    } else {
        match spec_key_value(s.last()) {
            Some(p) => spec_pairs(s.drop_last()).push(p),
            None => spec_pairs(s.drop_last()),
        }
    }
}

/// Extracts the override pair of a single entry: the key and the string
/// value, for a key/value entry whose value is a string literal and whose
/// key is a single plain identifier; `None` for every other shape.
pub fn get_key_value(entry: &AttributeEntry) -> (r: Option<(String, String)>)
    ensures
        match r {
            Some(p) => spec_key_value(*entry) == Some(pair_view(p)),
            None => spec_key_value(*entry) is None,
        },
{
    match entry {
        AttributeEntry::NameValue { path, value } => match value {
            AttributeLiteral::Str(s) => if path.len() == 1 {
                Some((path[0].clone(), s.clone()))
            } else {
                None
            },
            AttributeLiteral::Other => None,
        },
        AttributeEntry::Other => None,
    }
}

/// Extracts every override pair from an ordered entry list, preserving the
/// input order and keeping duplicates: entries that are not simple
/// string-valued key/value pairs are dropped, not errored.
pub fn get_attributes_and_values(entries: &Vec<AttributeEntry>) -> (r: Vec<(String, String)>)
    ensures
        pairs_view(r@) == spec_pairs(entries@),
{
    let mut out: Vec<(String, String)> = Vec::new();
    for i in 0..entries.len()
        invariant
            pairs_view(out@) == spec_pairs(entries@.take(i as int)),
    {
        let ghost prefix = entries@.take(i as int);
        match get_key_value(&entries[i]) {
            Some(p) => {
                let ghost old_out = out@;
                out.push(p);
                proof {
                    assert(pairs_view(old_out.push(p)) =~= pairs_view(old_out).push(pair_view(p)));
                }
            },
            None => {},
        }
        proof {
            let next = entries@.take(i + 1 as int);
            assert(next.drop_last() =~= prefix);
            assert(next.last() == entries@[i as int]);
        }
    }
    proof {
        assert(entries@.take(entries@.len() as int) =~= entries@);
    }
    out
}

} // verus!
