//! Lists of `(key, value)` entries used as maps from text keys: a key's
//! value is the one of its first entry.
use crate::text::{chars_of, views};
use vstd::prelude::*;

verus! {

broadcast use vstd::string::group_string_axioms;

/// No key occurs twice.
pub open spec fn keys_unique<V>(s: Seq<(String, V)>) -> bool {
    forall|i: int, j: int| #![trigger s[i], s[j]] 0 <= i < j < s.len() ==> s[i].0@ != s[j].0@
}

/// Position of the first entry at or after `i` whose key is `k`.
pub open spec fn key_index_from<V>(s: Seq<(String, V)>, k: Seq<char>, i: int) -> Option<int>
    decreases s.len() - i,
{
    if i < 0 || i >= s.len() {
        None
    } else if s[i].0@ == k {
        Some(i)
    } else {
        key_index_from(s, k, i + 1)
    }
}

/// Position of the first entry whose key is `k`.
pub open spec fn key_index<V>(s: Seq<(String, V)>, k: Seq<char>) -> Option<int> {
    key_index_from(s, k, 0)
}

/// The value recorded for `k`, if any.
pub open spec fn value_of<V>(s: Seq<(String, V)>, k: Seq<char>) -> Option<V> {
    match key_index(s, k) {
        Some(i) => Some(s[i].1),
        None => None,
    }
}

/// Where `s` first holds `k` at or after `i`.
pub proof fn lemma_key_index_from<V>(s: Seq<(String, V)>, k: Seq<char>, i: int)
    requires
        0 <= i,
    ensures
        match key_index_from(s, k, i) {
            Some(j) => i <= j < s.len() && s[j].0@ == k && forall|m: int|
                i <= m < j ==> s[m].0@ != k,
            None => forall|m: int| i <= m < s.len() ==> s[m].0@ != k,
        },
    decreases s.len() - i,
{
    if i < s.len() && s[i].0@ != k {
        lemma_key_index_from(s, k, i + 1);
    }
}

/// Where `s` holds `k` first.
pub proof fn lemma_key_index<V>(s: Seq<(String, V)>, k: Seq<char>)
    ensures
        match key_index(s, k) {
            Some(j) => 0 <= j < s.len() && s[j].0@ == k && forall|m: int|
                0 <= m < j ==> s[m].0@ != k,
            None => forall|m: int| 0 <= m < s.len() ==> s[m].0@ != k,
        },
{
    lemma_key_index_from(s, k, 0);
}

proof fn lemma_key_index_unique<V>(s: Seq<(String, V)>, k: Seq<char>, j: int)
    requires
        0 <= j < s.len(),
        s[j].0@ == k,
        forall|m: int| 0 <= m < j ==> s[m].0@ != k,
    ensures
        key_index(s, k) == Some(j),
{
    lemma_key_index(s, k);
    match key_index(s, k) {
        Some(i) => {
            if i < j {
            } else if i > j {
            }
        },
        None => {},
    }
}

proof fn lemma_key_index_none<V>(s: Seq<(String, V)>, k: Seq<char>)
    requires
        forall|m: int| 0 <= m < s.len() ==> s[m].0@ != k,
    ensures
        key_index(s, k) is None,
{
    lemma_key_index(s, k);
}

/// Whether two strings hold the same text.
pub fn same_text(a: &str, b: &str) -> (r: bool)
    ensures
        r == (a@ == b@),
{
    let ac = chars_of(a);
    let bc = chars_of(b);
    if ac.len() != bc.len() {
        return false;
    }
    let mut i: usize = 0;
    while i < ac.len()
        invariant
            ac@ == a@,
            bc@ == b@,
            ac.len() == bc.len(),
            i <= ac.len(),
            forall|m: int| 0 <= m < i ==> a@[m] == b@[m],
        decreases ac.len() - i,
    {
        if ac[i] != bc[i] {
            return false;
        }
        i = i + 1;
    }
    proof {
        assert(a@ =~= b@);
    }
    true
}

/// Position of the first entry for `key`.
pub fn find_key<V>(entries: &Vec<(String, V)>, key: &str) -> (r: Option<usize>)
    ensures
        r matches Some(i) ==> key_index(entries@, key@) == Some(i as int),
        r is None ==> key_index(entries@, key@) is None,
{
    proof {
        lemma_key_index(entries@, key@);
    }
    let mut i: usize = 0;
    while i < entries.len()
        invariant
            i <= entries@.len(),
            forall|m: int| 0 <= m < i ==> entries@[m].0@ != key@,
        decreases entries.len() - i,
    {
        if same_text(entries[i].0.as_str(), key) {
            proof {
                lemma_key_index_unique(entries@, key@, i as int);
            }
            return Some(i);
        }
        i = i + 1;
    }
    proof {
        lemma_key_index_none(entries@, key@);
    }
    None
}

/// The value recorded for `key`, if any.
pub fn get_value<'a, V>(entries: &'a Vec<(String, V)>, key: &str) -> (r: Option<&'a V>)
    ensures
        match value_of(entries@, key@) {
            Some(v) => r matches Some(x) && *x == v,
            None => r is None,
        },
{
    proof {
        lemma_key_index(entries@, key@);
    }
    match find_key(entries, key) {
        Some(i) => {
            proof {
                assert(key_index(entries@, key@) == Some(i as int));
                assert(value_of(entries@, key@) == Some(entries@[i as int].1));
            }
            Some(&entries[i].1)
        },
        None => None,
    }
}

proof fn lemma_same_keys_same_index<V>(s: Seq<(String, V)>, t: Seq<(String, V)>, k: Seq<char>)
    requires
        s.len() == t.len(),
        forall|m: int| 0 <= m < s.len() ==> s[m].0@ == t[m].0@,
    ensures
        key_index(s, k) == key_index(t, k),
{
    lemma_key_index(s, k);
    lemma_key_index(t, k);
    match key_index(s, k) {
        Some(j) => {
            lemma_key_index_unique(t, k, j);
        },
        None => {
            lemma_key_index_none(t, k);
        },
    }
}

/// Records `value` for `key`: the first entry for `key` is replaced, or a new
/// entry is added at the end. Every other key keeps its value.
pub fn set_value<V>(entries: &mut Vec<(String, V)>, key: String, value: V)
    ensures
        value_of(final(entries)@, key@) == Some(value),
        forall|k: Seq<char>| k != key@ ==> value_of(final(entries)@, k) == value_of(old(entries)@, k),
        forall|k: Seq<char>| #[trigger] key_index(old(entries)@, k) is Some ==> key_index(final(entries)@, k) == key_index(old(entries)@, k),
        keys_unique(old(entries)@) ==> keys_unique(final(entries)@),
{
    let ghost old_s = entries@;
    match find_key(entries, key.as_str()) {
        Some(i) => {
            proof {
                lemma_key_index(old_s, key@);
            }
            let ghost kv = key@;
            let _ = entries.remove(i);
            entries.insert(i, (key, value));
            proof {
                let s = entries@;
                assert(s =~= old_s.update(i as int, s[i as int]));
                assert forall|m: int| 0 <= m < s.len() implies s[m].0@ == old_s[m].0@ by {
                    if m == i {
                    } else {
                        assert(s[m] == old_s[m]);
                    }
                }
                lemma_key_index_unique(s, kv, i as int);
                assert(keys_unique(old_s) ==> keys_unique(s)) by {
                    if keys_unique(old_s) {
                        assert forall|a: int, b: int| 0 <= a < b < s.len() implies s[a].0@ != s[b].0@ by {
                            assert(old_s[a].0@ != old_s[b].0@);
                        }
                    }
                }
                assert forall|k: Seq<char>| k != kv implies value_of(s, k) == value_of(old_s, k) by {
                    lemma_same_keys_same_index(s, old_s, k);
                    lemma_key_index(old_s, k);
                }
                assert forall|k: Seq<char>| #[trigger] key_index(old_s, k) is Some implies key_index(
                    s,
                    k,
                ) == key_index(old_s, k) by {
                    lemma_same_keys_same_index(s, old_s, k);
                }
            }
        },
        None => {
            proof {
                lemma_key_index(old_s, key@);
            }
            let ghost kv = key@;
            entries.push((key, value));
            proof {
                let s = entries@;
                assert forall|m: int| 0 <= m < old_s.len() implies s[m] == old_s[m] by {}
                lemma_key_index_unique(s, kv, old_s.len() as int);
                assert(keys_unique(old_s) ==> keys_unique(s)) by {
                    if keys_unique(old_s) {
                        assert forall|a: int, b: int| 0 <= a < b < s.len() implies s[a].0@ != s[b].0@ by {
                            if b == old_s.len() {
                                assert(s[a] == old_s[a]);
                            } else {
                                assert(s[a] == old_s[a] && s[b] == old_s[b]);
                            }
                        }
                    }
                }
                assert forall|k: Seq<char>| k != kv implies value_of(s, k) == value_of(old_s, k) by {
                    lemma_key_index(old_s, k);
                    lemma_key_index(s, k);
                    match key_index(old_s, k) {
                        Some(j) => {
                            lemma_key_index_unique(s, k, j);
                        },
                        None => {
                            lemma_key_index_none(s, k);
                        },
                    }
                }
                assert forall|k: Seq<char>| #[trigger] key_index(old_s, k) is Some implies key_index(
                    s,
                    k,
                ) == key_index(old_s, k) by {
                    lemma_key_index(old_s, k);
                    let j = key_index(old_s, k).unwrap();
                    lemma_key_index_unique(s, k, j);
                }
            }
        },
    }
}

/// Removes and returns the value of the first entry for `key`; the other
/// keys keep their values. Used to change a value in place.
pub fn take_value<V>(entries: &mut Vec<(String, V)>, key: &str) -> (r: Option<(usize, String, V)>)
    ensures
        match key_index(old(entries)@, key@) {
            Some(i) => r matches Some((j, k, v)) && j == i && k@ == key@ && v == old(entries)@[i].1
                && final(entries)@ == old(entries)@.remove(i),
            None => r is None && final(entries)@ == old(entries)@,
        },
{
    proof {
        lemma_key_index(old(entries)@, key@);
    }
    match find_key(entries, key) {
        Some(i) => {
            let (k, v) = entries.remove(i);
            Some((i, k, v))
        },
        None => None,
    }
}

/// Puts an entry back where `take_value` took it from.
pub fn put_back<V>(entries: &mut Vec<(String, V)>, i: usize, key: String, value: V)
    requires
        i <= old(entries)@.len(),
    ensures
        final(entries)@ == old(entries)@.insert(i as int, (key, value)),
{
    entries.insert(i, (key, value));
}

/// Replacing the value of an existing entry keeps every other key's value and
/// gives the key its new value.
pub proof fn lemma_replace_value<V>(s: Seq<(String, V)>, i: int, e: (String, V))
    requires
        0 <= i < s.len(),
        key_index(s, s[i].0@) == Some(i),
        e.0@ == s[i].0@,
    ensures
        value_of(s.remove(i).insert(i, e), e.0@) == Some(e.1),
        forall|k: Seq<char>| k != e.0@ ==> value_of(s.remove(i).insert(i, e), k) == value_of(s, k),
        keys_unique(s) ==> keys_unique(s.remove(i).insert(i, e)),
{
    let t = s.remove(i).insert(i, e);
    assert(t =~= s.update(i, e));
    assert forall|m: int| 0 <= m < t.len() implies t[m].0@ == s[m].0@ by {}
    if keys_unique(s) {
        assert forall|a: int, b: int| 0 <= a < b < t.len() implies t[a].0@ != t[b].0@ by {
            assert(s[a].0@ != s[b].0@);
        }
    }
    lemma_key_index(s, e.0@);
    lemma_key_index_unique(t, e.0@, i);
    assert forall|k: Seq<char>| k != e.0@ implies value_of(t, k) == value_of(s, k) by {
        lemma_same_keys_same_index(t, s, k);
        lemma_key_index(s, k);
    }
}

} // verus!
