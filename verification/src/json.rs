//! A small JSON value tree.
//!
//! The persisted artifacts of this crate (the device-identity file and the
//! session-token file) are JSON documents.  The codec logic works on this
//! tree; reading the concrete text into the tree and rendering the tree back
//! to text is left to the embedding program.
//!
//! Numbers that are not representable as `i64` (fractions, huge integers)
//! appear as [`JsonValue::Other`]: every decoder in this crate treats such a
//! value as having the wrong type, which matches how the codec reads numbers.

use vstd::prelude::*;

verus! {

/// A JSON value.
///
/// Object members keep their textual order; lookups take the first member
/// with a matching key.
#[derive(Debug)]
pub enum JsonValue {
    /// `null`
    Null,
    /// `true` or `false`
    Bool(bool),
    /// A number representable as a signed 64-bit integer.
    Int(i64),
    /// A string.
    Str(String),
    /// An array.
    Arr(Vec<JsonValue>),
    /// An object: a list of key/value members in textual order.
    Obj(Vec<(String, JsonValue)>),
    /// Any other JSON value (a non-integer number); always of the wrong
    /// type for this crate's decoders.
    Other,
}

/// The first value bound to `key` among `entries`, if any.
pub open spec fn spec_obj_get(entries: Seq<(String, JsonValue)>, key: Seq<char>) -> Option<
    JsonValue,
>
    decreases entries.len(),
{
    if entries.len() == 0 {
        None
    } else if entries[0].0@ == key {
        Some(entries[0].1)
    } else {
        spec_obj_get(entries.drop_first(), key)
    }
}

/// A lookup finds the member at `j` when no earlier member has its key.
pub proof fn lemma_obj_get_found(entries: Seq<(String, JsonValue)>, key: Seq<char>, j: int)
    requires
        0 <= j < entries.len(),
        entries[j].0@ == key,
        forall|i: int| 0 <= i < j ==> (#[trigger] entries[i].0@) != key,
    ensures
        spec_obj_get(entries, key) == Some(entries[j].1),
    decreases j,
{
    if j > 0 {
        assert(entries.drop_first()[j - 1] == entries[j]);
        assert forall|i: int| 0 <= i < j - 1 implies (#[trigger] entries.drop_first()[i].0@)
            != key by {
            assert(entries.drop_first()[i] == entries[i + 1]);
        }
        lemma_obj_get_found(entries.drop_first(), key, j - 1);
    }
}

/// A lookup finds nothing when no member has the key.
pub proof fn lemma_obj_get_absent(entries: Seq<(String, JsonValue)>, key: Seq<char>)
    requires
        forall|i: int| 0 <= i < entries.len() ==> (#[trigger] entries[i].0@) != key,
    ensures
        spec_obj_get(entries, key) is None,
    decreases entries.len(),
{
    if entries.len() > 0 {
        assert forall|i: int| 0 <= i < entries.len() - 1 implies (#[trigger] entries.drop_first()[
        i].0@) != key by {
            assert(entries.drop_first()[i] == entries[i + 1]);
        }
        lemma_obj_get_absent(entries.drop_first(), key);
    }
}

/// Relies on `str`'s `==` from the standard library: true exactly when the
/// two strings have the same characters.
#[verifier::external_body]
pub fn str_eq(a: &str, b: &str) -> (r: bool)
    ensures
        r == (a@ == b@),
{
    a == b
}

/// Looks `key` up among the members of a JSON object, taking the first
/// member with a matching key.
pub fn obj_get<'a>(entries: &'a Vec<(String, JsonValue)>, key: &str) -> (r: Option<
    &'a JsonValue,
>)
    ensures
        match r {
            Some(v) => spec_obj_get(entries@, key@) == Some(*v),
            None => spec_obj_get(entries@, key@) is None,
        },
{
    let n = entries.len();
    let mut i: usize = 0;
    proof {
        assert(entries@.skip(0) =~= entries@);
    }
    while i < n
        invariant
            i <= n,
            n == entries@.len(),
            spec_obj_get(entries@, key@) == spec_obj_get(entries@.skip(i as int), key@),
        decreases n - i,
    {
        proof {
            assert(entries@.skip(i as int)[0] == entries@[i as int]);
        }
        if str_eq(entries[i].0.as_str(), key) {
            return Some(&entries[i].1);
        }
        proof {
            assert(entries@.skip(i as int).drop_first() =~= entries@.skip(i + 1));
        }
        i = i + 1;
    }
    proof {
        assert(entries@.skip(n as int).len() == 0);
    }
    None
}

} // verus!
