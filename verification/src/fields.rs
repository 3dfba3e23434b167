//! Header fields of a request: a case-preserving list of (name, value)
//! pairs with set-semantics.
//!
//! The list keeps names as given. A "set" replaces the value of the first
//! entry with the given name (or appends a new entry), so a name occurs at
//! most once in any list built through these operations, and the value a
//! reader obtains is [`lookup`]: the value of the first matching entry.

use vstd::prelude::*;

verus! {

/// A header list as the contracts see it: each pair of strings as a pair of
/// character sequences.
pub open spec fn fields_view(hs: Seq<(String, String)>) -> Seq<(Seq<char>, Seq<char>)> {
    hs.map_values(|p: (String, String)| (p.0@, p.1@))
}

/// The value of the first entry named `k`, if any.
pub open spec fn lookup(hs: Seq<(Seq<char>, Seq<char>)>, k: Seq<char>) -> Option<Seq<char>>
    decreases hs.len(),
{
    if hs.len() == 0 {
        None
    } else if hs[0].0 == k {
        Some(hs[0].1)
    } else {
        lookup(hs.drop_first(), k)
    }
}

/// The value of the last entry named `k` in an entry list, if any: when a
/// whole entry list is applied in order, a later entry for the same name
/// overwrites an earlier one.
pub open spec fn assoc_last(es: Seq<(Seq<char>, Seq<char>)>, k: Seq<char>) -> Option<Seq<char>>
    decreases es.len(),
{
    if es.len() == 0 {
        None
    } else if es.last().0 == k {
        Some(es.last().1)
    } else {
        assoc_last(es.drop_last(), k)
    }
}

/// Whether no header name occurs twice: every list built through
/// [`set_field`] or [`from_entries`] keeps this, so exactly one entry per
/// name is ever handed to the host.
pub open spec fn keys_distinct(hs: Seq<(Seq<char>, Seq<char>)>) -> bool {
    forall|i: int, j: int| 0 <= i < j < hs.len() ==> (#[trigger] hs[i]).0 != (#[trigger] hs[j]).0
}

/// Whether a character may stand in a header value: no control characters,
/// except that a horizontal tab is allowed.
pub open spec fn value_char_ok(c: char) -> bool {
    (c as u32 >= 0x20 && c as u32 != 0x7f) || c as u32 == 0x09
}

/// Whether a whole header value is acceptable to the host.
pub open spec fn value_ok(v: Seq<char>) -> bool {
    forall|i: int| 0 <= i < v.len() ==> value_char_ok(#[trigger] v[i])
}

/// Checks a header value for characters the host would reject.
pub fn check_value(v: &str) -> (r: bool)
    ensures
        r == value_ok(v@),
{
    let n: usize = v.unicode_len();
    let mut i: usize = 0;
    while i < n
        invariant
            n == v@.len(),
            i <= n,
            forall|j: int| 0 <= j < i ==> value_char_ok(#[trigger] v@[j]),
        decreases n - i,
    {
        let c = v.get_char(i);
        let u: u32 = c as u32;
        if !((u >= 0x20 && u != 0x7f) || u == 0x09) {
            return false;
        }
        i += 1;
    }
    true
}

proof fn lemma_lookup_update(hs: Seq<(Seq<char>, Seq<char>)>, i: int, k: Seq<char>, v: Seq<char>)
    requires
        0 <= i < hs.len(),
        hs[i].0 == k,
        forall|j: int| 0 <= j < i ==> (#[trigger] hs[j]).0 != k,
    ensures
        lookup(hs.update(i, (k, v)), k) == Some(v),
        forall|k2: Seq<char>| k2 != k ==> lookup(hs.update(i, (k, v)), k2) == lookup(hs, k2),
    decreases i,
{
    let hs2 = hs.update(i, (k, v));
    if i == 0 {
        assert(hs2.drop_first() =~= hs.drop_first());
        assert forall|k2: Seq<char>| k2 != k implies lookup(hs2, k2) == lookup(hs, k2) by {
            assert(lookup(hs2, k2) == lookup(hs2.drop_first(), k2));
            assert(lookup(hs, k2) == lookup(hs.drop_first(), k2));
        }
    } else {
        lemma_lookup_update(hs.drop_first(), i - 1, k, v);
        assert(hs2.drop_first() =~= hs.drop_first().update(i - 1, (k, v)));
        assert(hs2[0] == hs[0]);
        assert forall|k2: Seq<char>| k2 != k implies lookup(hs2, k2) == lookup(hs, k2) by {
            if hs[0].0 != k2 {
                assert(lookup(hs2, k2) == lookup(hs2.drop_first(), k2));
                assert(lookup(hs, k2) == lookup(hs.drop_first(), k2));
            }
        }
    }
}

proof fn lemma_lookup_push(hs: Seq<(Seq<char>, Seq<char>)>, k: Seq<char>, v: Seq<char>)
    requires
        forall|j: int| 0 <= j < hs.len() ==> (#[trigger] hs[j]).0 != k,
    ensures
        lookup(hs.push((k, v)), k) == Some(v),
        forall|k2: Seq<char>| k2 != k ==> lookup(hs.push((k, v)), k2) == lookup(hs, k2),
    decreases hs.len(),
{
    let hs2 = hs.push((k, v));
    if hs.len() == 0 {
        assert(hs2.drop_first() =~= Seq::<(Seq<char>, Seq<char>)>::empty());
        assert forall|k2: Seq<char>| k2 != k implies lookup(hs2, k2) == lookup(hs, k2) by {
            assert(lookup(hs2, k2) == lookup(hs2.drop_first(), k2));
        }
    } else {
        lemma_lookup_push(hs.drop_first(), k, v);
        assert(hs2.drop_first() =~= hs.drop_first().push((k, v)));
        assert(hs2[0] == hs[0]);
        assert forall|k2: Seq<char>| k2 != k implies lookup(hs2, k2) == lookup(hs, k2) by {
            if hs[0].0 != k2 {
                assert(lookup(hs2, k2) == lookup(hs2.drop_first(), k2));
                assert(lookup(hs, k2) == lookup(hs.drop_first(), k2));
            }
        }
    }
}

/// Sets the named header to a single value: the first entry with that name
/// is replaced, any other entry is untouched, and a missing name is
/// appended.
pub fn set_field(hs: &mut Vec<(String, String)>, k: &str, v: &str)
    ensures
        lookup(fields_view(final(hs)@), k@) == Some(v@),
        forall|k2: Seq<char>|
            k2 != k@ ==> lookup(fields_view(final(hs)@), k2) == lookup(fields_view(old(hs)@), k2),
        keys_distinct(fields_view(old(hs)@)) ==> keys_distinct(fields_view(final(hs)@)),
{
    let key = String::from_str(k);
    let value = String::from_str(v);
    let n: usize = hs.len();
    let mut i: usize = 0;
    while i < n
        invariant
            n == hs.len(),
            i <= n,
            *hs == *old(hs),
            forall|j: int| 0 <= j < i ==> (#[trigger] fields_view(hs@)[j]).0 != k@,
            key@ == k@,
            value@ == v@,
        decreases n - i,
    {
        if hs[i].0 == key {
            hs[i] = (key, value);
            proof {
                let before = fields_view(old(hs)@);
                let after = fields_view(hs@);
                assert(after =~= before.update(i as int, (k@, v@)));
                lemma_lookup_update(before, i as int, k@, v@);
                assert forall|m: int| 0 <= m < after.len() implies (#[trigger] after[m]).0
                    == before[m].0 by {}
            }
            return;
        }
        i += 1;
    }
    hs.push((key, value));
    proof {
        let before = fields_view(old(hs)@);
        let after = fields_view(hs@);
        assert(after =~= before.push((k@, v@)));
        lemma_lookup_push(before, k@, v@);
        if keys_distinct(before) {
            assert forall|i2: int, j2: int| 0 <= i2 < j2 < after.len() implies (
            #[trigger] after[i2]).0 != (#[trigger] after[j2]).0 by {
                if j2 < before.len() {
                } else {
                    assert(after[j2].0 == k@);
                    assert(after[i2] == before[i2]);
                }
            }
        }
    }
}

/// A whole entry list as the contracts see it.
pub open spec fn entries_view(es: Seq<(&str, &str)>) -> Seq<(Seq<char>, Seq<char>)> {
    es.map_values(|p: (&str, &str)| (p.0@, p.1@))
}

/// Whether every value in an entry list is acceptable to the host.
pub open spec fn entries_ok(es: Seq<(Seq<char>, Seq<char>)>) -> bool {
    forall|i: int| 0 <= i < es.len() ==> value_ok((#[trigger] es[i]).1)
}

/// Checks every value of an entry list for characters the host would
/// reject.
pub fn check_entries(entries: &[(&str, &str)]) -> (r: bool)
    ensures
        r == entries_ok(entries_view(entries@)),
{
    let n: usize = entries.len();
    let mut i: usize = 0;
    while i < n
        invariant
            n == entries@.len(),
            i <= n,
            forall|j: int| 0 <= j < i ==> value_ok((#[trigger] entries_view(entries@)[j]).1),
        decreases n - i,
    {
        if !check_value(entries[i].1) {
            assert(!value_ok(entries_view(entries@)[i as int].1));
            return false;
        }
        i += 1;
    }
    true
}

/// Builds a header list holding exactly the given entries: the result does
/// not depend on any previously held headers, and with a repeated name the
/// later entry wins.
pub fn from_entries(entries: &[(&str, &str)]) -> (r: Vec<(String, String)>)
    ensures
        forall|k: Seq<char>| lookup(fields_view(r@), k) == assoc_last(entries_view(entries@), k),
        keys_distinct(fields_view(r@)),
{
    let n: usize = entries.len();
    let mut out: Vec<(String, String)> = Vec::new();
    let mut i: usize = 0;
    while i < n
        invariant
            n == entries@.len(),
            i <= n,
            forall|k: Seq<char>|
                lookup(fields_view(out@), k) == assoc_last(
                    entries_view(entries@.take(i as int)),
                    k,
                ),
            keys_distinct(fields_view(out@)),
        decreases n - i,
    {
        let ghost prev = fields_view(out@);
        set_field(&mut out, entries[i].0, entries[i].1);
        proof {
            let full = entries_view(entries@.take(i + 1));
            assert(full =~= entries_view(entries@.take(i as int)).push(
                (entries@[i as int].0@, entries@[i as int].1@),
            ));
            assert(full.drop_last() =~= entries_view(entries@.take(i as int)));
        }
        i += 1;
    }
    proof {
        assert(entries@.take(n as int) =~= entries@);
    }
    out
}

} // verus!
