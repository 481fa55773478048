//! Unspent outputs: identifiers, and the ordered map that holds them.

use crate::encoding::{decimal_string, decimal_text, hex_encode, hex_text, same_text};
use vstd::prelude::*;

verus! {

/// The identifier of the output that the transfer numbered `nonce` leaves to
/// `owner`: the owner's key in hexadecimal, a hyphen, the number in decimal.
pub open spec fn utxo_id_text(owner: Seq<u8>, nonce: u64) -> Seq<char> {
    hex_text(owner) + seq!['-'] + decimal_text(nonce as nat)
}

/// Writes the identifier of the output numbered `nonce` of `owner`.
pub fn utxo_id(owner: &[u8; 32], nonce: u64) -> (id: String)
    ensures
        id@ == utxo_id_text(owner@, nonce),
{
    let mut id = hex_encode(owner.as_slice());
    proof {
        reveal_strlit("-");
    }
    id.append("-");
    let number = decimal_string(nonce);
    id.append(number.as_str());
    id
}

/// Whether some entry of `entries` has the key `key`.
pub open spec fn has_key(entries: Seq<(Seq<char>, u64)>, key: Seq<char>) -> bool {
    exists|i: int| 0 <= i < entries.len() && (#[trigger] entries[i]).0 == key
}

/// The place of an entry with the key `key`, where there is one.
pub open spec fn key_index(entries: Seq<(Seq<char>, u64)>, key: Seq<char>) -> int {
    choose|i: int| 0 <= i < entries.len() && (#[trigger] entries[i]).0 == key
}

/// Whether no key occurs twice in `entries`.
pub open spec fn distinct_keys(entries: Seq<(Seq<char>, u64)>) -> bool {
    forall|i: int, j: int|
        0 <= i < j < entries.len() ==> (#[trigger] entries[i]).0 != (#[trigger] entries[j]).0
}

/// The value that `entries` holds for `key`.
pub open spec fn value_of(entries: Seq<(Seq<char>, u64)>, key: Seq<char>) -> Option<u64> {
    if has_key(entries, key) {
        Some(entries[key_index(entries, key)].1)
    } else {
        None
    }
}

/// `entries` after `key` is given `value`: an entry with that key keeps its
/// place, a new key goes to the end.
pub open spec fn with_entry(entries: Seq<(Seq<char>, u64)>, key: Seq<char>, value: u64) -> Seq<
    (Seq<char>, u64),
> {
    if has_key(entries, key) {
        entries.update(key_index(entries, key), (key, value))
    } else {
        entries.push((key, value))
    }
}

/// `entries` without the entry for `key`; the others keep their order.
pub open spec fn without_key(entries: Seq<(Seq<char>, u64)>, key: Seq<char>) -> Seq<
    (Seq<char>, u64),
> {
    if has_key(entries, key) {
        entries.remove(key_index(entries, key))
    } else {
        entries
    }
}

/// `entries` after `amount` has been added under `key`: a new key goes to the
/// end with the amount as its value, and an entry that is there already
/// holds the amount on top of what it held. Where that is more than a `u64`
/// holds, nothing changes.
pub open spec fn with_credit(entries: Seq<(Seq<char>, u64)>, key: Seq<char>, amount: u64) -> Seq<
    (Seq<char>, u64),
> {
    match value_of(entries, key) {
        Some(held) => if held + amount <= u64::MAX {
            with_entry(entries, key, (held + amount) as u64)
        } else {
            entries
        },
        None => with_entry(entries, key, amount),
    }
}

/// The sum of the values of `entries`.
pub open spec fn total(entries: Seq<(Seq<char>, u64)>) -> nat
    decreases entries.len(),
{
    if entries.len() == 0 {
        0
    } else {
        total(entries.drop_last()) + entries.last().1 as nat
    }
}

/// Adding an entry at the end adds its value to the sum.
pub proof fn lemma_total_push(entries: Seq<(Seq<char>, u64)>, entry: (Seq<char>, u64))
    ensures
        total(entries.push(entry)) == total(entries) + entry.1,
{
    assert(entries.push(entry).drop_last() == entries);
}

/// The sum of the first `n` entries is at most the sum of all.
pub proof fn lemma_total_take(entries: Seq<(Seq<char>, u64)>, n: int)
    requires
        0 <= n <= entries.len(),
    ensures
        total(entries.take(n)) <= total(entries),
    decreases entries.len(),
{
    if n == entries.len() {
        assert(entries.take(n) == entries);
    } else {
        lemma_total_take(entries.drop_last(), n);
        assert(entries.drop_last().take(n) == entries.take(n));
    }
}

/// Replacing the entry at `i` replaces its value in the sum.
pub proof fn lemma_total_update(entries: Seq<(Seq<char>, u64)>, i: int, entry: (Seq<char>, u64))
    requires
        0 <= i < entries.len(),
    ensures
        total(entries.update(i, entry)) == total(entries) - entries[i].1 + entry.1,
    decreases entries.len(),
{
    if i == entries.len() - 1 {
        assert(entries.update(i, entry).drop_last() == entries.drop_last());
    } else {
        lemma_total_update(entries.drop_last(), i, entry);
        assert(entries.update(i, entry).drop_last() == entries.drop_last().update(i, entry));
    }
}

/// A credit adds its amount to the sum, whenever the new sum is one that a
/// `u64` holds.
pub proof fn lemma_credit_adds(entries: Seq<(Seq<char>, u64)>, key: Seq<char>, amount: u64)
    requires
        total(entries) + amount <= u64::MAX,
    ensures
        total(with_credit(entries, key, amount)) == total(entries) + amount,
{
    if has_key(entries, key) {
        let at = key_index(entries, key);
        lemma_total_remove(entries, at);
        lemma_total_update(entries, at, (key, (entries[at].1 + amount) as u64));
    } else {
        lemma_total_push(entries, (key, amount));
    }
}

/// The sum is the first value and the sum of the rest.
pub proof fn lemma_total_first(entries: Seq<(Seq<char>, u64)>)
    requires
        entries.len() > 0,
    ensures
        total(entries) == entries[0].1 + total(entries.drop_first()),
{
    lemma_total_remove(entries, 0);
}

/// Taking out the entry at `i` takes its value out of the sum.
pub proof fn lemma_total_remove(entries: Seq<(Seq<char>, u64)>, i: int)
    requires
        0 <= i < entries.len(),
    ensures
        total(entries.remove(i)) == total(entries) - entries[i].1,
    decreases entries.len(),
{
    if i < entries.len() - 1 {
        lemma_total_remove(entries.drop_last(), i);
        assert(entries.remove(i).drop_last() == entries.drop_last().remove(i));
    }
}

/// Taking out an entry leaves the keys distinct.
proof fn lemma_remove_keeps_distinct(entries: Seq<(Seq<char>, u64)>, i: int)
    requires
        distinct_keys(entries),
        0 <= i < entries.len(),
    ensures
        distinct_keys(entries.remove(i)),
{
    let after = entries.remove(i);
    assert forall|j: int, k: int| 0 <= j < k < after.len() implies (#[trigger] after[j]).0 != (
    #[trigger] after[k]).0 by {
        let from_j = if j < i {
            j
        } else {
            j + 1
        };
        let from_k = if k < i {
            k
        } else {
            k + 1
        };
        assert(after[j] == entries[from_j]);
        assert(after[k] == entries[from_k]);
    }
}

/// Unspent outputs by identifier, each with its value, in the order in which
/// the identifiers came in. No identifier occurs twice.
#[derive(Debug, PartialEq, Eq)]
pub struct UtxoMap {
    entries: Vec<(String, u64)>,
}

impl View for UtxoMap {
    type V = Seq<(Seq<char>, u64)>;

    closed spec fn view(&self) -> Seq<(Seq<char>, u64)> {
        entries_of(self.entries@)
    }
}

/// The stored entries as mathematical values.
spec fn entries_of(stored: Seq<(String, u64)>) -> Seq<(Seq<char>, u64)> {
    Seq::new(stored.len(), |i: int| (stored[i].0@, stored[i].1))
}

impl UtxoMap {
    #[verifier::type_invariant]
    spec fn keys_are_distinct(self) -> bool {
        distinct_keys(self@)
    }

    /// A map without entries.
    pub fn new() -> (map: Self)
        ensures
            map@ == Seq::<(Seq<char>, u64)>::empty(),
            distinct_keys(map@),
    {
        UtxoMap { entries: Vec::new() }
    }

    /// The number of entries.
    pub fn len(&self) -> (count: usize)
        ensures
            count == self@.len(),
    {
        self.entries.len()
    }

    fn find(&self, key: &str) -> (place: Option<usize>)
        ensures
            distinct_keys(self@),
            match place {
                Some(i) => has_key(self@, key@) && i == key_index(self@, key@),
                None => !has_key(self@, key@),
            },
    {
        proof {
            use_type_invariant(self);
        }
        let mut i: usize = 0;
        while i < self.entries.len()
            invariant
                i <= self.entries@.len(),
                distinct_keys(self@),
                forall|j: int| 0 <= j < i ==> (#[trigger] self@[j]).0 != key@,
            decreases self.entries@.len() - i,
        {
            if same_text(self.entries[i].0.as_str(), key) {
                assert(self@[i as int].0 == key@);
                return Some(i);
            }
            i += 1;
        }
        None
    }

    /// Whether `key` has an entry.
    pub fn contains_key(&self, key: &str) -> (found: bool)
        ensures
            found == has_key(self@, key@),
    {
        self.find(key).is_some()
    }

    /// The value held for `key`.
    pub fn get(&self, key: &str) -> (value: Option<u64>)
        ensures
            value == value_of(self@, key@),
    {
        match self.find(key) {
            Some(i) => Some(self.entries[i].1),
            None => None,
        }
    }

    /// Gives `key` the value `value` and returns the value it had before.
    pub fn insert(&mut self, key: String, value: u64) -> (previous: Option<u64>)
        ensures
            previous == value_of(old(self)@, key@),
            final(self)@ == with_entry(old(self)@, key@, value),
            distinct_keys(final(self)@),
    {
        let place = self.find(key.as_str());
        let mut entries: Vec<(String, u64)> = Vec::new();
        core::mem::swap(&mut self.entries, &mut entries);
        let ghost key_text = key@;
        let previous = match place {
            Some(i) => {
                let previous = entries[i].1;
                entries[i] = (key, value);
                assert(entries_of(entries@) == old(self)@.update(i as int, (key_text, value)));
                Some(previous)
            },
            None => {
                entries.push((key, value));
                assert(entries_of(entries@) == old(self)@.push((key_text, value)));
                None
            },
        };
        core::mem::swap(&mut self.entries, &mut entries);
        previous
    }

    /// Takes out the entry for `key` and returns the value it had.
    pub fn remove(&mut self, key: &str) -> (previous: Option<u64>)
        ensures
            previous == value_of(old(self)@, key@),
            final(self)@ == without_key(old(self)@, key@),
            distinct_keys(final(self)@),
    {
        match self.find(key) {
            Some(i) => {
                let mut entries: Vec<(String, u64)> = Vec::new();
                core::mem::swap(&mut self.entries, &mut entries);
                let entry = entries.remove(i);
                proof {
                    lemma_remove_keeps_distinct(old(self)@, i as int);
                    assert(entries_of(entries@) == old(self)@.remove(i as int));
                }
                core::mem::swap(&mut self.entries, &mut entries);
                Some(entry.1)
            },
            None => None,
        }
    }

    /// Takes out the oldest entry and returns it.
    pub fn take_first(&mut self) -> (first: Option<(String, u64)>)
        ensures
            match first {
                Some(entry) => old(self)@.len() > 0 && (entry.0@, entry.1) == old(self)@[0]
                    && final(self)@ == old(self)@.drop_first(),
                None => old(self)@.len() == 0 && final(self)@ == old(self)@,
            },
            distinct_keys(final(self)@),
    {
        proof {
            use_type_invariant(&*self);
        }
        if self.entries.len() == 0 {
            return None;
        }
        let mut entries: Vec<(String, u64)> = Vec::new();
        core::mem::swap(&mut self.entries, &mut entries);
        let entry = entries.remove(0);
        proof {
            lemma_remove_keeps_distinct(old(self)@, 0);
            assert(entries_of(entries@) == old(self)@.remove(0));
        }
        core::mem::swap(&mut self.entries, &mut entries);
        Some(entry)
    }

    /// The sum of all values, unless it is too large for a `u64`.
    pub fn checked_total(&self) -> (sum: Option<u64>)
        ensures
            match sum {
                Some(sum) => sum == total(self@),
                None => total(self@) > u64::MAX,
            },
    {
        let mut sum: u64 = 0;
        let mut i: usize = 0;
        while i < self.entries.len()
            invariant
                i <= self.entries@.len(),
                self@.len() == self.entries@.len(),
                sum == total(self@.take(i as int)),
            decreases self.entries@.len() - i,
        {
            proof {
                assert(self@.take(i + 1) == self@.take(i as int).push(self@[i as int]));
                lemma_total_push(self@.take(i as int), self@[i as int]);
                lemma_total_take(self@, i + 1);
            }
            match sum.checked_add(self.entries[i].1) {
                Some(next) => {
                    sum = next;
                },
                None => {
                    return None;
                },
            }
            i += 1;
        }
        assert(self@.take(i as int) == self@);
        Some(sum)
    }
}

impl Clone for UtxoMap {
    /// A copy with the same entries in the same order.
    fn clone(&self) -> (copy: Self)
        ensures
            copy@ == self@,
            distinct_keys(copy@),
    {
        proof {
            use_type_invariant(self);
        }
        let mut entries: Vec<(String, u64)> = Vec::new();
        let mut i: usize = 0;
        while i < self.entries.len()
            invariant
                i <= self.entries@.len(),
                entries@.len() == i,
                forall|j: int|
                    0 <= j < i ==> (#[trigger] entries@[j]).0@ == self.entries@[j].0@
                        && entries@[j].1 == self.entries@[j].1,
            decreases self.entries@.len() - i,
        {
            entries.push((self.entries[i].0.clone(), self.entries[i].1));
            i += 1;
        }
        assert(entries_of(entries@) == self@);
        UtxoMap { entries }
    }
}

} // verus!
