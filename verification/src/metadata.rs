//! Key-value metadata attached to pipeline stages: an association list in
//! which the first entry for a key is the one that counts.

use vstd::prelude::*;
use vstd::string::*;

verus! {

/// The value stored for `key` (the first entry with that key), if any.
pub open spec fn spec_lookup(entries: Seq<(String, String)>, key: Seq<char>) -> Option<Seq<char>>
    decreases entries.len(),
{
    if entries.len() == 0 {
        None
    } else if entries[0].0@ == key {
        Some(entries[0].1@)
    } else {
        spec_lookup(entries.drop_first(), key)
    }
}

/// `i` is the first position holding `key`.
pub open spec fn first_with_key(entries: Seq<(String, String)>, key: Seq<char>, i: int) -> bool {
    &&& 0 <= i < entries.len()
    &&& entries[i].0@ == key
    &&& forall|j: int| 0 <= j < i ==> (#[trigger] entries[j]).0@ != key
}

/// `key` occurs nowhere in `entries`.
pub open spec fn key_absent(entries: Seq<(String, String)>, key: Seq<char>) -> bool {
    forall|j: int| 0 <= j < entries.len() ==> (#[trigger] entries[j]).0@ != key
}

/// Looking up a key gives the value at its first position.
pub proof fn lemma_lookup_first(entries: Seq<(String, String)>, key: Seq<char>, i: int)
    requires
        first_with_key(entries, key, i),
    ensures
        spec_lookup(entries, key) == Some(entries[i].1@),
    decreases entries.len(),
{
    if i > 0 {
        let rest = entries.drop_first();
        assert(first_with_key(rest, key, i - 1)) by {
            assert forall|j: int| 0 <= j < i - 1 implies (#[trigger] rest[j]).0@ != key by {
                assert(rest[j] == entries[j + 1]);
            }
        }
        lemma_lookup_first(rest, key, i - 1);
    }
}

/// Looking up an absent key gives nothing.
pub proof fn lemma_lookup_absent(entries: Seq<(String, String)>, key: Seq<char>)
    requires
        key_absent(entries, key),
    ensures
        spec_lookup(entries, key) is None,
    decreases entries.len(),
{
    if entries.len() > 0 {
        let rest = entries.drop_first();
        assert(key_absent(rest, key)) by {
            assert forall|j: int| 0 <= j < rest.len() implies (#[trigger] rest[j]).0@ != key by {
                assert(rest[j] == entries[j + 1]);
            }
        }
        lemma_lookup_absent(rest, key);
    }
}

/// Replacing an entry whose key differs from `k` by another entry whose key
/// differs from `k` does not change the lookup of `k`.
pub proof fn lemma_lookup_update_other(
    entries: Seq<(String, String)>,
    i: int,
    e: (String, String),
    k: Seq<char>,
)
    requires
        0 <= i < entries.len(),
        entries[i].0@ != k,
        e.0@ != k,
    ensures
        spec_lookup(entries.update(i, e), k) == spec_lookup(entries, k),
    decreases entries.len(),
{
    let u = entries.update(i, e);
    if i > 0 {
        assert(u.drop_first() =~= entries.drop_first().update(i - 1, e));
        lemma_lookup_update_other(entries.drop_first(), i - 1, e, k);
    } else {
        assert(u.drop_first() =~= entries.drop_first());
    }
}

/// Appending an entry only affects keys that were absent.
pub proof fn lemma_lookup_push(entries: Seq<(String, String)>, e: (String, String), k: Seq<char>)
    ensures
        spec_lookup(entries.push(e), k) == (if spec_lookup(entries, k) is Some {
            spec_lookup(entries, k)
        } else if e.0@ == k {
            Some(e.1@)
        } else {
            None::<Seq<char>>
        }),
    decreases entries.len(),
{
    if entries.len() > 0 {
        assert(entries.push(e).drop_first() =~= entries.drop_first().push(e));
        assert(entries.push(e)[0] == entries[0]);
        lemma_lookup_push(entries.drop_first(), e, k);
    } else {
        assert(entries.push(e).drop_first() =~= Seq::<(String, String)>::empty());
        assert(entries.push(e)[0] == e);
        assert(spec_lookup(Seq::<(String, String)>::empty(), k) is None);
        assert(spec_lookup(entries, k) is None);
    }
}

/// Position of the first entry with `key`, if any.
pub fn find_key(entries: &Vec<(String, String)>, key: &String) -> (r: Option<usize>)
    ensures
        r matches Some(i) ==> first_with_key(entries@, key@, i as int),
        r is None ==> key_absent(entries@, key@),
{
    let n = entries.len();
    for i in 0..n
        invariant
            n == entries@.len(),
            forall|j: int| 0 <= j < i ==> (#[trigger] entries@[j]).0@ != key@,
    {
        if entries[i].0 == *key {
            return Some(i);
        }
    }
    None
}

/// Set `key` to `value`: the first entry with that key is replaced, or a new
/// entry is appended.
pub fn insert_entry(entries: &mut Vec<(String, String)>, key: &str, value: &str)
    ensures
        spec_lookup(final(entries)@, key@) == Some(value@),
        forall|k: Seq<char>|
            k != key@ ==> #[trigger] spec_lookup(final(entries)@, k) == spec_lookup(
                old(entries)@,
                k,
            ),
{
    let key_s = String::from_str(key);
    let value_s = String::from_str(value);
    match find_key(entries, &key_s) {
        Some(i) => {
            let ghost before = entries@;
            let ghost e = (key_s, value_s);
            entries.set(i, (key_s, value_s));
            proof {
                assert(entries@ == before.update(i as int, e));
                assert(first_with_key(entries@, key@, i as int));
                lemma_lookup_first(entries@, key@, i as int);
                assert forall|k: Seq<char>| k != key@ implies #[trigger] spec_lookup(entries@, k)
                    == spec_lookup(before, k) by {
                    lemma_lookup_update_other(before, i as int, e, k);
                }
            }
        },
        None => {
            let ghost before = entries@;
            let ghost e = (key_s, value_s);
            entries.push((key_s, value_s));
            proof {
                lemma_lookup_absent(before, key@);
                lemma_lookup_push(before, e, key@);
                assert forall|k: Seq<char>| k != key@ implies #[trigger] spec_lookup(entries@, k)
                    == spec_lookup(before, k) by {
                    lemma_lookup_push(before, e, k);
                }
            }
        },
    }
}

/// The value stored for `key`, if any.
pub fn lookup<'a>(entries: &'a Vec<(String, String)>, key: &str) -> (r: Option<&'a String>)
    ensures
        r matches Some(v) ==> spec_lookup(entries@, key@) == Some(v@),
        r is None ==> spec_lookup(entries@, key@) is None,
{
    let key_s = String::from_str(key);
    match find_key(entries, &key_s) {
        Some(i) => {
            proof {
                lemma_lookup_first(entries@, key@, i as int);
            }
            Some(&entries[i].1)
        },
        None => {
            proof {
                lemma_lookup_absent(entries@, key@);
            }
            None
        },
    }
}

} // verus!
