//! Editing the list of instrument banks.
//!
//! The order of the list is the order of priority, so every edit says
//! exactly where each bank ends up. An edit that names a position outside
//! the list changes nothing.

use vstd::prelude::*;

verus! {

/// The list with the entries at `a` and `b` exchanged.
pub open spec fn exchanged<T>(list: Seq<T>, a: int, b: int) -> Seq<T>
    recommends
        0 <= a < list.len(),
        0 <= b < list.len(),
{
    list.update(a, list[b]).update(b, list[a])
}

/// The list after the bank at `index` has moved one place up.
pub open spec fn moved_up<T>(list: Seq<T>, index: int) -> Seq<T> {
    if 0 < index < list.len() {
        exchanged(list, index - 1, index)
    } else {
        list
    }
}

/// The list after the bank at `index` has moved one place down.
pub open spec fn moved_down<T>(list: Seq<T>, index: int) -> Seq<T> {
    if 0 <= index && index + 1 < list.len() {
        exchanged(list, index, index + 1)
    } else {
        list
    }
}

/// The list without the bank at `index`.
pub open spec fn without<T>(list: Seq<T>, index: int) -> Seq<T> {
    if 0 <= index < list.len() {
        list.remove(index)
    } else {
        list
    }
}

/// Adds a bank at the end of the list, where its priority is lowest.
pub fn add_bank(list: &mut Vec<String>, path: String) -> (changed: bool)
    ensures
        changed,
        final(list)@ == old(list)@.push(path),
{
    list.push(path);
    true
}

/// Empties the list. Tells whether there was anything in it.
pub fn clear_banks(list: &mut Vec<String>) -> (changed: bool)
    ensures
        changed == (old(list)@.len() > 0),
        final(list)@.len() == 0,
{
    if list.is_empty() {
        false
    } else {
        list.clear();
        true
    }
}

/// Moves the bank at `index` one place up. The first bank, and a position
/// outside the list, stay where they are.
pub fn move_bank_up(list: &mut Vec<String>, index: usize) -> (changed: bool)
    ensures
        changed == (0 < index < old(list)@.len()),
        final(list)@ == moved_up(old(list)@, index as int),
{
    if 0 < index && index < list.len() {
        let bank = list.remove(index);
        list.insert(index - 1, bank);
        assert(list@ =~= moved_up(old(list)@, index as int));
        true
    } else {
        false
    }
}

/// Moves the bank at `index` one place down. The last bank, and a
/// position outside the list, stay where they are.
pub fn move_bank_down(list: &mut Vec<String>, index: usize) -> (changed: bool)
    ensures
        changed == (index + 1 < old(list)@.len()),
        final(list)@ == moved_down(old(list)@, index as int),
{
    if index < list.len() && index + 1 < list.len() {
        let bank = list.remove(index);
        list.insert(index + 1, bank);
        assert(list@ =~= moved_down(old(list)@, index as int));
        true
    } else {
        false
    }
}

/// Takes the bank at `index` out of the list. The banks behind it move up
/// by one place and keep their order.
pub fn remove_bank(list: &mut Vec<String>, index: usize) -> (changed: bool)
    ensures
        changed == (index < old(list)@.len()),
        final(list)@ == without(old(list)@, index as int),
{
    if index < list.len() {
        let _ = list.remove(index);
        true
    } else {
        false
    }
}

/// Moving a bank changes the place of two banks and of no other, and
/// loses none: the list holds the same banks before and after.
pub proof fn lemma_move_keeps_banks<T>(list: Seq<T>, index: int)
    ensures
        moved_up(list, index).len() == list.len(),
        moved_down(list, index).len() == list.len(),
        moved_up(list, index).to_multiset() == list.to_multiset(),
        moved_down(list, index).to_multiset() == list.to_multiset(),
        forall|k: int|
            0 <= k < list.len() && k != index && k != index - 1 ==> #[trigger] moved_up(
                list,
                index,
            )[k] == list[k],
        forall|k: int|
            0 <= k < list.len() && k != index && k != index + 1 ==> #[trigger] moved_down(
                list,
                index,
            )[k] == list[k],
{
    if 0 < index < list.len() {
        lemma_exchange_keeps_entries(list, index - 1, index);
    }
    if 0 <= index && index + 1 < list.len() {
        lemma_exchange_keeps_entries(list, index, index + 1);
    }
}

/// Exchanging two entries of a list keeps what the list holds.
pub proof fn lemma_exchange_keeps_entries<T>(list: Seq<T>, a: int, b: int)
    requires
        0 <= a < list.len(),
        0 <= b < list.len(),
    ensures
        exchanged(list, a, b).to_multiset() == list.to_multiset(),
{
    let mid = list.update(a, list[b]);
    vstd::seq_lib::to_multiset_update(list, a, list[b]);
    vstd::seq_lib::to_multiset_update(mid, b, list[a]);
    list.to_multiset_ensures();
    assert(list.contains(list[a]));
    assert(list.contains(list[b]));
    assert(exchanged(list, a, b).to_multiset() =~= list.to_multiset());
}

/// Moving a bank up and then down again, or down and then up again, puts
/// the list back as it was.
pub proof fn lemma_move_back<T>(list: Seq<T>, index: int)
    ensures
        0 < index < list.len() ==> moved_down(moved_up(list, index), index - 1) == list,
        0 <= index && index + 1 < list.len() ==> moved_up(moved_down(list, index), index + 1)
            == list,
{
    if 0 < index < list.len() {
        assert(moved_down(moved_up(list, index), index - 1) =~= list);
    }
    if 0 <= index && index + 1 < list.len() {
        assert(moved_up(moved_down(list, index), index + 1) =~= list);
    }
}

/// Removing a bank keeps the order of all the others.
pub proof fn lemma_remove_keeps_order<T>(list: Seq<T>, index: int)
    requires
        0 <= index < list.len(),
    ensures
        without(list, index).len() == list.len() - 1,
        forall|k: int| 0 <= k < index ==> #[trigger] without(list, index)[k] == list[k],
        forall|k: int|
            index <= k < list.len() - 1 ==> #[trigger] without(list, index)[k] == list[k + 1],
{
}

} // verus!
