//! First-match lookup in small association tables.
//!
//! The host model keeps its scripted answers in association lists keyed by
//! address strings or by byte strings; these helpers give the lookup a
//! single mathematical definition shared by every table.

use vstd::prelude::*;

use crate::context::bytes_equal;

verus! {

/// First value whose string key reads `key`, if any.
pub open spec fn spec_assoc_str<V>(entries: Seq<(String, V)>, key: Seq<char>) -> Option<V>
    decreases entries.len(),
{
    if entries.len() == 0 {
        None
    } else if entries[0].0@ == key {
        Some(entries[0].1)
    } else {
        spec_assoc_str(entries.drop_first(), key)
    }
}

/// First value whose byte key reads `key`, if any.
pub open spec fn spec_assoc_bytes<V>(entries: Seq<(Vec<u8>, V)>, key: Seq<u8>) -> Option<V>
    decreases entries.len(),
{
    if entries.len() == 0 {
        None
    } else if entries[0].0@ == key {
        Some(entries[0].1)
    } else {
        spec_assoc_bytes(entries.drop_first(), key)
    }
}

/// Finds the first entry with the given string key.
pub fn assoc_str<'a, V>(entries: &'a Vec<(String, V)>, key: &String) -> (r: Option<&'a V>)
    ensures
        match r {
            Some(v) => spec_assoc_str(entries@, key@) == Some(*v),
            None => spec_assoc_str(entries@, key@) is None,
        },
{
    let n = entries.len();
    let mut i: usize = 0;
    proof {
        assert(entries@.skip(0) =~= entries@);
    }
    while i < n
        invariant
            0 <= i <= n,
            n == entries@.len(),
            spec_assoc_str(entries@.skip(i as int), key@) == spec_assoc_str(entries@, key@),
        decreases n - i,
    {
        proof {
            assert(entries@.skip(i as int)[0] == entries@[i as int]);
            assert(entries@.skip(i as int).drop_first() =~= entries@.skip(i as int + 1));
        }
        if entries[i].0 == *key {
            return Some(&entries[i].1);
        }
        i = i + 1;
    }
    proof {
        assert(entries@.skip(n as int) =~= Seq::<(String, V)>::empty());
    }
    None
}

/// Finds the first entry with the given byte key.
pub fn assoc_bytes<'a, V>(entries: &'a Vec<(Vec<u8>, V)>, key: &[u8]) -> (r: Option<&'a V>)
    ensures
        match r {
            Some(v) => spec_assoc_bytes(entries@, key@) == Some(*v),
            None => spec_assoc_bytes(entries@, key@) is None,
        },
{
    let n = entries.len();
    let mut i: usize = 0;
    proof {
        assert(entries@.skip(0) =~= entries@);
    }
    while i < n
        invariant
            0 <= i <= n,
            n == entries@.len(),
            spec_assoc_bytes(entries@.skip(i as int), key@) == spec_assoc_bytes(entries@, key@),
        decreases n - i,
    {
        proof {
            assert(entries@.skip(i as int)[0] == entries@[i as int]);
            assert(entries@.skip(i as int).drop_first() =~= entries@.skip(i as int + 1));
        }
        if bytes_equal(entries[i].0.as_slice(), key) {
            return Some(&entries[i].1);
        }
        i = i + 1;
    }
    proof {
        assert(entries@.skip(n as int) =~= Seq::<(Vec<u8>, V)>::empty());
    }
    None
}

} // verus!
