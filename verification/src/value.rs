//! The values a bus message is made of.
//!
//! A message body is a sequence of values, each tagged with its kind. Only the kinds that
//! a notification request is built from are told apart; the rest share one tag.

use vstd::prelude::*;

verus! {

/// One value of a message body, tagged with its kind.
#[derive(Debug, PartialEq, Eq)]
pub enum Value {
    /// A boolean.
    Bool(bool),
    /// A single byte.
    Byte(u8),
    /// A signed 16-bit integer.
    I16(i16),
    /// An unsigned 16-bit integer.
    U16(u16),
    /// A signed 32-bit integer.
    I32(i32),
    /// An unsigned 32-bit integer.
    U32(u32),
    /// A signed 64-bit integer.
    I64(i64),
    /// An unsigned 64-bit integer.
    U64(u64),
    /// A string.
    Str(String),
    /// An array of bytes.
    Bytes(Vec<u8>),
    /// An array of strings.
    Strings(Vec<String>),
    /// An array of any other element kind.
    Array(Vec<Value>),
    /// A dictionary from strings to variants, as the entries stood in the message.
    Dict(Vec<(String, Value)>),
    /// A structure: a fixed sequence of fields.
    Structure(Vec<Value>),
    /// A value of a kind that no notification field has, such as a double or an object path.
    Other,
}

/// The value that a dictionary gives for `key`: that of the last entry with this key,
/// since a later entry replaces an earlier one.
pub open spec fn lookup(entries: Seq<(String, Value)>, key: Seq<char>) -> Option<Value>
    decreases entries.len(),
{
    if entries.len() == 0 {
        None
    } else if entries.last().0@ == key {
        Some(entries.last().1)
    } else {
        lookup(entries.drop_last(), key)
    }
}

/// A dictionary without any entry for `key` gives no value for it.
pub proof fn lemma_lookup_absent(entries: Seq<(String, Value)>, key: Seq<char>)
    requires
        forall|i: int| 0 <= i < entries.len() ==> (#[trigger] entries[i]).0@ != key,
    ensures
        lookup(entries, key) is None,
    decreases entries.len(),
{
    if entries.len() > 0 {
        lemma_lookup_absent(entries.drop_last(), key);
    }
}

/// A dictionary with an entry for `key` gives the value of the last such entry.
pub proof fn lemma_lookup_last(entries: Seq<(String, Value)>, key: Seq<char>, at: int)
    requires
        0 <= at < entries.len(),
        entries[at].0@ == key,
        forall|i: int| at < i < entries.len() ==> (#[trigger] entries[i]).0@ != key,
    ensures
        lookup(entries, key) == Some(entries[at].1),
    decreases entries.len(),
{
    if at < entries.len() - 1 {
        lemma_lookup_last(entries.drop_last(), key, at);
    }
}

/// Takes the value for `key` out of a dictionary's entries.
pub fn take(entries: Vec<(String, Value)>, key: &str) -> (found: Option<Value>)
    ensures
        found == lookup(entries@, key@),
{
    let mut rest = entries;
    let wanted = key.to_owned();
    while rest.len() > 0
        invariant
            wanted@ == key@,
            lookup(rest@, key@) == lookup(entries@, key@),
        decreases rest.len(),
    {
        let ghost before = rest@;
        let entry = rest.pop().unwrap();
        assert(rest@ == before.drop_last());
        assert(before.last() == entry);
        if entry.0 == wanted {
            return Some(entry.1);
        }
    }
    None
}

} // verus!
