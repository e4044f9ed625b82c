//! Lists of addresses and meter ids, and tables with a default for missing entries.

use vstd::prelude::*;

use crate::table::{Key, Table};
use crate::types::OwnershipTransfer;
use crate::values::{Address, Text};

verus! {

/// `list` without any occurrence of `item`, in the same order.
pub open spec fn without<T>(list: Seq<T>, item: T) -> Seq<T>
    decreases list.len(),
{
    if list.len() == 0 {
        list
    } else if list.last() == item {
        without(list.drop_last(), item)
    } else {
        without(list.drop_last(), item).push(list.last())
    }
}

/// The last `n` items of `list`, or all of them if there are fewer.
pub open spec fn latest<T>(list: Seq<T>, n: int) -> Seq<T> {
    if list.len() > n {
        list.skip(list.len() - n)
    } else {
        list
    }
}

/// The list under `key`, empty if there is none.
pub open spec fn list_at<K, T>(lists: Map<K, Seq<T>>, key: K) -> Seq<T> {
    if lists.contains_key(key) {
        lists[key]
    } else {
        Seq::empty()
    }
}

/// The amount under `key`, zero if there is none.
pub open spec fn amount_at<K>(amounts: Map<K, i128>, key: K) -> i128 {
    if amounts.contains_key(key) {
        amounts[key]
    } else {
        0
    }
}

/// Removing an item leaves exactly the other ones.
pub proof fn lemma_without_contains<T>(list: Seq<T>, item: T)
    ensures
        forall|x: T| #[trigger] without(list, item).contains(x) <==> list.contains(x) && x != item,
        without(list, item).len() <= list.len(),
    decreases list.len(),
{
    if list.len() > 0 {
        let rest = list.drop_last();
        lemma_without_contains(rest, item);
        let shorter = without(rest, item);
        assert forall|x: T| #[trigger] without(list, item).contains(x) <==> list.contains(x) && x
            != item by {
            assert(list.contains(x) <==> rest.contains(x) || x == list.last()) by {
                if list.contains(x) {
                    let i = choose|i: int| 0 <= i < list.len() && list[i] == x;
                    if i < rest.len() {
                        assert(rest[i] == x);
                    }
                }
                if rest.contains(x) {
                    let i = choose|i: int| 0 <= i < rest.len() && rest[i] == x;
                    assert(list[i] == x);
                }
                assert(list[list.len() - 1] == list.last());
            }
            if list.last() != item {
                let longer = shorter.push(list.last());
                assert(longer.contains(x) <==> shorter.contains(x) || x == list.last()) by {
                    if longer.contains(x) {
                        let i = choose|i: int| 0 <= i < longer.len() && longer[i] == x;
                        if i < shorter.len() {
                            assert(shorter[i] == x);
                        }
                    }
                    if shorter.contains(x) {
                        let i = choose|i: int| 0 <= i < shorter.len() && shorter[i] == x;
                        assert(longer[i] == x);
                    }
                    assert(longer[longer.len() - 1] == list.last());
                }
            }
        }
    }
}

/// Removing an item that is not there changes nothing.
pub proof fn lemma_without_absent<T>(list: Seq<T>, item: T)
    requires
        !list.contains(item),
    ensures
        without(list, item) == list,
    decreases list.len(),
{
    if list.len() > 0 {
        let rest = list.drop_last();
        assert(!rest.contains(item)) by {
            if rest.contains(item) {
                let i = choose|i: int| 0 <= i < rest.len() && rest[i] == item;
                assert(list[i] == item);
            }
        }
        lemma_without_absent(rest, item);
        assert(list[list.len() - 1] != item);
        assert(rest.push(list.last()) =~= list);
    }
}

/// Removing an item keeps the other ones distinct, and shortens a list of distinct items by one
/// exactly if the item was there.
pub proof fn lemma_without_distinct<T>(list: Seq<T>, item: T)
    requires
        list.no_duplicates(),
    ensures
        without(list, item).no_duplicates(),
        list.contains(item) ==> without(list, item).len() == list.len() - 1,
        !list.contains(item) ==> without(list, item).len() == list.len(),
    decreases list.len(),
{
    if list.len() > 0 {
        let rest = list.drop_last();
        lemma_without_distinct(rest, item);
        lemma_without_contains(rest, item);
        let shorter = without(rest, item);
        assert(!rest.contains(list.last())) by {
            if rest.contains(list.last()) {
                let i = choose|i: int| 0 <= i < rest.len() && rest[i] == list.last();
                assert(list[i] == list[list.len() - 1]);
            }
        }
        assert(list[list.len() - 1] == list.last());
        if list.contains(item) && list.last() != item {
            let i = choose|i: int| 0 <= i < list.len() && list[i] == item;
            assert(rest[i] == item);
        }
        if rest.contains(item) {
            let i = choose|i: int| 0 <= i < rest.len() && rest[i] == item;
            assert(list[i] == item);
        }
        if list.last() != item {
            let longer = shorter.push(list.last());
            assert(!shorter.contains(list.last()));
            assert(longer.no_duplicates()) by {
                assert forall|i: int, j: int|
                    0 <= i < longer.len() && 0 <= j < longer.len() && i != j implies longer[i]
                    != longer[j] by {
                    if i < shorter.len() {
                        assert(shorter.contains(shorter[i]));
                    }
                    if j < shorter.len() {
                        assert(shorter.contains(shorter[j]));
                    }
                }
            }
        }
    }
}

/// One more step of removing an item from the front part of a list.
proof fn lemma_without_step<T>(list: Seq<T>, item: T, i: int)
    requires
        0 <= i < list.len(),
    ensures
        without(list.take(i + 1), item) == if list[i] == item {
            without(list.take(i), item)
        } else {
            without(list.take(i), item).push(list[i])
        },
{
    assert(list.take(i + 1).drop_last() =~= list.take(i));
    assert(list.take(i + 1).last() == list[i]);
}

/// A list of addresses is its own deep value.
pub broadcast proof fn lemma_addresses_deep(list: Vec<Address>)
    ensures
        #[trigger] list.deep_view() == list@,
{
    assert(list.deep_view() =~= list@);
}

/// A list of transfers of ownership is its own deep value.
pub broadcast proof fn lemma_history_deep(list: Vec<OwnershipTransfer>)
    ensures
        #[trigger] list.deep_view() == list@,
{
    assert(list.deep_view() =~= list@);
}

/// Whether `list` holds `item`.
pub fn holds(list: &Vec<Address>, item: Address) -> (r: bool)
    ensures
        r == list@.contains(item),
{
    let mut i: usize = 0;
    while i < list.len()
        invariant
            i <= list@.len(),
            forall|j: int| 0 <= j < i ==> list@[j] != item,
        decreases list@.len() - i,
    {
        if list[i] == item {
            assert(list@[i as int] == item);
            return true;
        }
        i = i + 1;
    }
    false
}

/// `list` without `item`.
pub fn remove_address(list: &Vec<Address>, item: Address) -> (r: Vec<Address>)
    ensures
        r@ == without(list@, item),
{
    let mut kept: Vec<Address> = Vec::new();
    let mut i: usize = 0;
    while i < list.len()
        invariant
            i <= list@.len(),
            kept@ == without(list@.take(i as int), item),
        decreases list@.len() - i,
    {
        proof {
            lemma_without_step(list@, item, i as int);
        }
        if list[i] != item {
            kept.push(list[i]);
        }
        i = i + 1;
    }
    assert(list@.take(list@.len() as int) =~= list@);
    kept
}

/// `list` without `item`.
pub fn remove_text(list: &Vec<Text>, item: &Text) -> (r: Vec<Text>)
    ensures
        r.deep_view() == without(list.deep_view(), item@),
{
    let ghost all = list.deep_view();
    let mut kept: Vec<Text> = Vec::new();
    let mut i: usize = 0;
    assert(kept.deep_view() =~= without(all.take(0), item@));
    while i < list.len()
        invariant
            i <= list@.len(),
            all == list.deep_view(),
            kept.deep_view() == without(all.take(i as int), item@),
        decreases list@.len() - i,
    {
        proof {
            lemma_without_step(all, item@, i as int);
        }
        if !list[i].equals(item) {
            let ghost before = kept.deep_view();
            kept.push(list[i].clone());
            assert(kept.deep_view() =~= before.push(all[i as int]));
        }
        i = i + 1;
    }
    assert(all.take(all.len() as int) =~= all);
    kept
}

/// A copy of a list of addresses.
pub fn copy_addresses(list: &Vec<Address>) -> (r: Vec<Address>)
    ensures
        r@ == list@,
{
    let mut copy: Vec<Address> = Vec::new();
    let mut i: usize = 0;
    while i < list.len()
        invariant
            i <= list@.len(),
            copy@ == list@.take(i as int),
        decreases list@.len() - i,
    {
        copy.push(list[i]);
        i = i + 1;
    }
    assert(list@.take(list@.len() as int) =~= list@);
    copy
}

/// A copy of a list of byte strings.
pub fn copy_texts(list: &Vec<Text>) -> (r: Vec<Text>)
    ensures
        r.deep_view() == list.deep_view(),
{
    let mut copy: Vec<Text> = Vec::new();
    let mut i: usize = 0;
    while i < list.len()
        invariant
            i <= list@.len(),
            copy@.len() == i,
            forall|j: int| 0 <= j < i ==> (#[trigger] copy@[j])@ == list@[j]@,
        decreases list@.len() - i,
    {
        copy.push(list[i].clone());
        i = i + 1;
    }
    assert(copy.deep_view() =~= list.deep_view());
    copy
}

/// Appends a byte string.
pub fn push_text(list: &mut Vec<Text>, item: Text)
    ensures
        final(list).deep_view() == old(list).deep_view().push(item@),
{
    list.push(item);
    assert(list.deep_view() =~= old(list).deep_view().push(item@));
}

/// Appends a transfer, keeping only the `n` latest ones.
pub fn push_latest(list: &Vec<OwnershipTransfer>, item: OwnershipTransfer, n: usize) -> (r: Vec<
    OwnershipTransfer,
>)
    requires
        n > 0,
    ensures
        r@ == latest(list@.push(item), n as int),
{
    let mut kept: Vec<OwnershipTransfer> = Vec::new();
    let mut i: usize = 0;
    if list.len() >= n {
        i = list.len() - n + 1;
    }
    let ghost skipped = i as int;
    while i < list.len()
        invariant
            0 <= skipped <= i <= list@.len(),
            kept@ == list@.subrange(skipped, i as int),
        decreases list@.len() - i,
    {
        kept.push(list[i]);
        i = i + 1;
        assert(kept@ =~= list@.subrange(skipped, i as int));
    }
    kept.push(item);
    assert(kept@ =~= latest(list@.push(item), n as int));
    kept
}

/// The amount under `key`, zero if there is none.
pub fn read_amount<K: Key>(amounts: &Table<K, i128>, key: &K) -> (r: i128)
    ensures
        r == amount_at(amounts@, key.deep_view()),
{
    match amounts.get(key) {
        Some(amount) => *amount,
        None => 0,
    }
}

/// A copy of the ids under `key`, empty if there are none.
pub fn read_texts(lists: &Table<Address, Vec<Text>>, key: &Address) -> (r: Vec<Text>)
    ensures
        r.deep_view() == list_at(lists@, *key),
{
    match lists.get(key) {
        Some(list) => copy_texts(list),
        None => {
            let empty: Vec<Text> = Vec::new();
            assert(empty.deep_view() =~= Seq::empty());
            empty
        },
    }
}

/// A copy of the addresses under `key`, empty if there are none.
pub fn read_addresses(lists: &Table<Text, Vec<Address>>, key: &Text) -> (r: Vec<Address>)
    ensures
        r@ == list_at(lists@, key@),
{
    broadcast use lemma_addresses_deep;

    match lists.get(key) {
        Some(list) => copy_addresses(list),
        None => Vec::new(),
    }
}

} // verus!
