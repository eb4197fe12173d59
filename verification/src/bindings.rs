//! Binding tables: which value a key sequence has in which mode. A table is
//! a list of entries in which a later entry overrides an earlier one for the
//! same mode and keys. A table built by `insert_binding` alone holds no two
//! entries for the same mode and keys. Key sequences are the same where
//! their keys agree in their normal form, so that it does not matter which
//! way a terminal reports shift and upper case.

use vstd::prelude::*;
use crate::key_event::{normal_keys, KeyEvent};
use crate::mode::Mode;

verus! {

/// One entry of a binding table.
#[derive(Clone, Debug, PartialEq)]
pub struct Binding<V> {
    pub mode: Mode,
    pub keys: Vec<KeyEvent>,
    pub value: V,
}

/// Whether `entry` is for `keys` in `mode`: the modes are equal and the keys
/// agree in their normal form.
pub open spec fn is_for<V>(entry: Binding<V>, mode: Mode, keys: Seq<KeyEvent>) -> bool {
    entry.mode == mode && normal_keys(entry.keys@) == normal_keys(keys)
}

/// Whether no two entries are for the same mode and keys.
pub open spec fn distinct<V>(entries: Seq<Binding<V>>) -> bool {
    forall|i: int, j: int|
        0 <= i < j < entries.len() ==> !is_for(
            #[trigger] entries[j],
            (#[trigger] entries[i]).mode,
            entries[i].keys@,
        )
}

/// The value that a table gives to `keys` in `mode`: that of the last entry
/// for them, if there is one.
pub open spec fn lookup<V>(entries: Seq<Binding<V>>, mode: Mode, keys: Seq<KeyEvent>) -> Option<V>
    decreases entries.len(),
{
    if entries.len() == 0 {
        None
    } else if is_for(entries.last(), mode, keys) {
        Some(entries.last().value)
    } else {
        lookup(entries.drop_last(), mode, keys)
    }
}

/// Entries from `from` on that are not for `keys` in `mode` do not count in
/// the lookup of them.
pub proof fn lemma_lookup_skips<V>(
    entries: Seq<Binding<V>>,
    from: int,
    mode: Mode,
    keys: Seq<KeyEvent>,
)
    requires
        0 <= from <= entries.len(),
        forall|i: int| from <= i < entries.len() ==> !is_for(#[trigger] entries[i], mode, keys),
    ensures
        lookup(entries, mode, keys) == lookup(entries.take(from), mode, keys),
    decreases entries.len(),
{
    if from == entries.len() {
        assert(entries.take(from) =~= entries);
    } else {
        assert(entries.drop_last().take(from) =~= entries.take(from));
        lemma_lookup_skips(entries.drop_last(), from, mode, keys);
    }
}

/// Key sequences that agree in their normal form are given the same value.
pub proof fn lemma_lookup_same_keys<V>(
    entries: Seq<Binding<V>>,
    mode: Mode,
    keys: Seq<KeyEvent>,
    others: Seq<KeyEvent>,
)
    requires
        normal_keys(keys) == normal_keys(others),
    ensures
        lookup(entries, mode, keys) == lookup(entries, mode, others),
    decreases entries.len(),
{
    if entries.len() > 0 {
        lemma_lookup_same_keys(entries.drop_last(), mode, keys, others);
    }
}

/// A table gives no value exactly where none of its entries is for the mode
/// and keys.
pub proof fn lemma_lookup_none<V>(entries: Seq<Binding<V>>, mode: Mode, keys: Seq<KeyEvent>)
    ensures
        lookup(entries, mode, keys) is None <==> forall|i: int|
            0 <= i < entries.len() ==> !is_for(#[trigger] entries[i], mode, keys),
    decreases entries.len(),
{
    if entries.len() > 0 {
        let rest = entries.drop_last();
        lemma_lookup_none(rest, mode, keys);
        if forall|i: int| 0 <= i < rest.len() ==> !is_for(#[trigger] rest[i], mode, keys) {
            assert forall|i: int| 0 <= i < entries.len() - 1 implies !is_for(
                #[trigger] entries[i],
                mode,
                keys,
            ) by {
                assert(rest[i] == entries[i]);
            }
        }
        if forall|i: int| 0 <= i < entries.len() ==> !is_for(#[trigger] entries[i], mode, keys) {
            assert forall|i: int| 0 <= i < rest.len() implies !is_for(
                #[trigger] rest[i],
                mode,
                keys,
            ) by {
                assert(rest[i] == entries[i]);
            }
        }
    }
}

/// Putting `entry` in the place of the last entry for its mode and keys
/// changes the value for them and no other.
pub proof fn lemma_lookup_replace<V>(
    entries: Seq<Binding<V>>,
    at: int,
    entry: Binding<V>,
    mode: Mode,
    keys: Seq<KeyEvent>,
)
    requires
        0 <= at < entries.len(),
        is_for(entries[at], entry.mode, entry.keys@),
        forall|i: int|
            at < i < entries.len() ==> !is_for(#[trigger] entries[i], entry.mode, entry.keys@),
    ensures
        lookup(entries.update(at, entry), mode, keys) == if is_for(entry, mode, keys) {
            Some(entry.value)
        } else {
            lookup(entries, mode, keys)
        },
    decreases entries.len(),
{
    let changed = entries.update(at, entry);
    if at == entries.len() - 1 {
        assert(changed.drop_last() =~= entries.drop_last());
    } else {
        assert(changed.last() == entries.last());
        assert(changed.drop_last() =~= entries.drop_last().update(at, entry));
        lemma_lookup_replace(entries.drop_last(), at, entry, mode, keys);
    }
}

/// The place of the last entry for `keys` in `mode`, if there is one.
pub fn find_binding<V>(entries: &Vec<Binding<V>>, mode: Mode, keys: &Vec<KeyEvent>) -> (place:
    Option<usize>)
    ensures
        match place {
            Some(at) => {
                &&& at < entries@.len()
                &&& is_for(entries@[at as int], mode, keys@)
                &&& forall|i: int|
                    at < i < entries@.len() ==> !is_for(#[trigger] entries@[i], mode, keys@)
                &&& lookup(entries@, mode, keys@) == Some(entries@[at as int].value)
            },
            None => lookup(entries@, mode, keys@) is None,
        },
{
    let mut i: usize = entries.len();
    while i > 0
        invariant
            i <= entries@.len(),
            forall|j: int| i <= j < entries@.len() ==> !is_for(#[trigger] entries@[j], mode, keys@),
        decreases i,
    {
        i -= 1;
        if entries[i].mode == mode && same_keys(&entries[i].keys, keys) {
            proof {
                lemma_lookup_skips(entries@, i + 1, mode, keys@);
            }
            return Some(i);
        }
    }
    proof {
        lemma_lookup_none(entries@, mode, keys@);
    }
    None
}

/// Gives `keys` in `mode` the value `value`: the last entry for them gets
/// the value, or a new entry is added where there is none. No other binding
/// changes, and a table without two entries for the same mode and keys
/// stays one.
pub fn insert_binding<V>(entries: &mut Vec<Binding<V>>, mode: Mode, keys: Vec<KeyEvent>, value: V)
    ensures
        forall|m: Mode, k: Seq<KeyEvent>| #[trigger]
            lookup(final(entries)@, m, k) == if m == mode && normal_keys(k) == normal_keys(keys@) {
                Some(value)
            } else {
                lookup(old(entries)@, m, k)
            },
        final(entries)@.len() == if lookup(old(entries)@, mode, keys@) is Some {
            old(entries)@.len()
        } else {
            old(entries)@.len() + 1
        },
        distinct(old(entries)@) ==> distinct(final(entries)@),
{
    let place = find_binding(entries, mode, &keys);
    let entry = Binding { mode, keys, value };
    match place {
        Some(at) => {
            entries.set(at, entry);
            proof {
                assert forall|m: Mode, k: Seq<KeyEvent>| #[trigger]
                    lookup(entries@, m, k) == if m == mode && normal_keys(k) == normal_keys(
                        keys@,
                    ) {
                        Some(value)
                    } else {
                        lookup(old(entries)@, m, k)
                    } by {
                    lemma_lookup_replace(old(entries)@, at as int, entry, m, k);
                }
                if distinct(old(entries)@) {
                    assert forall|i: int, j: int| 0 <= i < j < entries@.len() implies !is_for(
                        #[trigger] entries@[j],
                        (#[trigger] entries@[i]).mode,
                        entries@[i].keys@,
                    ) by {
                        assert(!is_for(
                            old(entries)@[j],
                            old(entries)@[i].mode,
                            old(entries)@[i].keys@,
                        ));
                    }
                }
            }
        },
        None => {
            entries.push(entry);
            proof {
                assert(entries@.drop_last() =~= old(entries)@);
                lemma_lookup_none(old(entries)@, mode, keys@);
                if distinct(old(entries)@) {
                    assert forall|i: int, j: int| 0 <= i < j < entries@.len() implies !is_for(
                        #[trigger] entries@[j],
                        (#[trigger] entries@[i]).mode,
                        entries@[i].keys@,
                    ) by {
                        if j < old(entries)@.len() {
                            assert(!is_for(
                                old(entries)@[j],
                                old(entries)@[i].mode,
                                old(entries)@[i].keys@,
                            ));
                        } else {
                            assert(!is_for(old(entries)@[i], mode, keys@));
                        }
                    }
                }
            }
        },
    }
}

/// A copy of a key sequence.
pub fn copy_keys(keys: &Vec<KeyEvent>) -> (copy: Vec<KeyEvent>)
    ensures
        copy@ == keys@,
{
    let mut copy: Vec<KeyEvent> = Vec::new();
    let mut i: usize = 0;
    while i < keys.len()
        invariant
            i <= keys@.len(),
            copy@ == keys@.take(i as int),
        decreases keys@.len() - i,
    {
        copy.push(keys[i]);
        i += 1;
    }
    copy
}

/// Whether two key sequences are the same: they hold, in the same order,
/// keys that agree in their normal form.
pub fn same_keys(left: &Vec<KeyEvent>, right: &Vec<KeyEvent>) -> (same: bool)
    ensures
        same == (normal_keys(left@) == normal_keys(right@)),
{
    if left.len() != right.len() {
        proof {
            assert(normal_keys(left@).len() != normal_keys(right@).len());
        }
        return false;
    }
    let mut i: usize = 0;
    while i < left.len()
        invariant
            left@.len() == right@.len(),
            i <= left@.len(),
            forall|j: int| 0 <= j < i ==> left@[j].case_normalized() == right@[j].case_normalized(),
        decreases left@.len() - i,
    {
        if !(left[i].normalize_case() == right[i].normalize_case()) {
            proof {
                assert(normal_keys(left@)[i as int] != normal_keys(right@)[i as int]);
            }
            return false;
        }
        i += 1;
    }
    proof {
        assert(normal_keys(left@) =~= normal_keys(right@));
    }
    true
}

} // verus!
