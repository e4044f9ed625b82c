//! What the small steps that every operation is made of give back.

use vstd::prelude::*;

use crate::lists::{
    amount_at, latest, lemma_without_absent, lemma_without_contains, list_at, without,
};
use crate::state::refusal;
use crate::table::{has_key, keys_distinct, listed};
use crate::types::{CallError, ContractError};
use crate::values::{chars, clamp, drained, Address, AddressKind};

verus! {

/// An amount that fits is kept as it is; one that does not is cut to the nearest end of the range.
pub proof fn law_amounts_are_cut_to_their_range(x: int)
    ensures
        i128::MIN <= x <= i128::MAX ==> clamp(x) == x,
        x > i128::MAX ==> clamp(x) == i128::MAX,
        x < i128::MIN ==> clamp(x) == i128::MIN,
{
}

/// Taking from a balance leaves the difference, and nothing where more was taken than there was.
pub proof fn law_taking_leaves_the_difference(balance: i128, amount: i128)
    ensures
        balance <= amount ==> drained(balance, amount) == 0,
        amount < balance && balance - amount <= i128::MAX ==> drained(balance, amount) + amount
            == balance,
        balance - amount > i128::MAX ==> drained(balance, amount) == i128::MAX,
{
}

/// What was never recorded is zero, what was recorded is read back, and recording one amount
/// leaves the others alone.
pub proof fn law_amounts_are_read_back<K>(amounts: Map<K, i128>, key: K, amount: i128, other: K)
    ensures
        !amounts.contains_key(key) ==> amount_at(amounts, key) == 0,
        amounts.contains_key(key) ==> amount_at(amounts, key) == amounts[key],
        amount_at(amounts.insert(key, amount), key) == amount,
        other != key ==> amount_at(amounts.insert(key, amount), other) == amount_at(amounts, other),
        amount_at(amounts.remove(key), key) == 0,
{
}

/// A list that was never recorded is empty, and a recorded one is read back.
pub proof fn law_lists_are_read_back<K, T>(lists: Map<K, Seq<T>>, key: K, list: Seq<T>, other: K)
    ensures
        !lists.contains_key(key) ==> list_at(lists, key).len() == 0,
        lists.contains_key(key) ==> list_at(lists, key) == lists[key],
        list_at(lists.insert(key, list), key) == list,
        other != key ==> list_at(lists.insert(key, list), other) == list_at(lists, other),
{
}

/// Taking an item out of two lists that follow each other takes it out of each; a list of one is
/// kept unless it is that item. So the others stay, all of them, in their order.
pub proof fn law_taking_out_keeps_the_others<T>(first: Seq<T>, second: Seq<T>, item: T, other: T)
    ensures
        without(first + second, item) == without(first, item) + without(second, item),
        without(Seq::<T>::empty(), item) == Seq::<T>::empty(),
        without(seq![item], item) == Seq::<T>::empty(),
        other != item ==> without(seq![other], item) == seq![other],
        !first.contains(item) ==> without(first, item) == first,
        !without(first, item).contains(item),
    decreases second.len(),
{
    reveal_with_fuel(without, 2);
    lemma_without_contains(first, item);
    if !first.contains(item) {
        lemma_without_absent(first, item);
    }
    assert(seq![item].drop_last() =~= Seq::<T>::empty());
    assert(seq![other].drop_last() =~= Seq::<T>::empty());
    if second.len() == 0 {
        assert(first + second =~= first);
        assert(without(second, item) =~= Seq::<T>::empty());
    } else {
        law_taking_out_keeps_the_others(first, second.drop_last(), item, other);
        assert((first + second).drop_last() =~= first + second.drop_last());
        assert((first + second).last() == second.last());
        assert(without(first + second, item) =~= without(first, item) + without(second, item));
    }
}

/// The latest items are the end of the list: as many as asked for, or the whole list.
pub proof fn law_latest_are_the_end<T>(list: Seq<T>, n: int, i: int)
    requires
        n >= 0,
    ensures
        list.len() <= n ==> latest(list, n) == list,
        list.len() >= n ==> latest(list, n).len() == n,
        0 <= i < latest(list, n).len() ==> latest(list, n)[latest(list, n).len() - 1 - i]
            == list[list.len() - 1 - i],
{
}

/// The characters of two texts add up; an empty text has none, and a byte begins a character
/// unless its two highest bits are `10`.
pub proof fn law_characters_add_up(first: Seq<u8>, second: Seq<u8>, b: u8)
    ensures
        chars(first + second) == chars(first) + chars(second),
        chars(Seq::<u8>::empty()) == 0,
        b / 64 == 2 ==> chars(seq![b]) == 0,
        b / 64 != 2 ==> chars(seq![b]) == 1,
    decreases second.len(),
{
    reveal_with_fuel(chars, 2);
    assert(seq![b].drop_last() =~= Seq::<u8>::empty());
    if second.len() == 0 {
        assert(first + second =~= first);
    } else {
        law_characters_add_up(first, second.drop_last(), b);
        assert((first + second).drop_last() =~= first + second.drop_last());
        assert((first + second).last() == second.last());
    }
}

/// Addresses are listed accounts first, and then by their 256-bit keys as numbers.
pub proof fn law_addresses_are_ordered_by_key(a: Address, b: Address)
    ensures
        a.kind == AddressKind::Account && b.kind == AddressKind::Contract ==> a.before(b)
            && !b.before(a),
        a.kind == b.kind ==> (a.before(b) <==> a.hi * 0x1_0000_0000_0000_0000_0000_0000_0000_0000int
            + a.lo < b.hi * 0x1_0000_0000_0000_0000_0000_0000_0000_0000int + b.lo),
{
    let base: int = 0x1_0000_0000_0000_0000_0000_0000_0000_0000int;
    if a.hi < b.hi {
        assert(a.hi * base + base <= b.hi * base) by (nonlinear_arith)
            requires
                a.hi + 1 <= b.hi,
                base > 0,
        ;
    } else if b.hi < a.hi {
        assert(b.hi * base + base <= a.hi * base) by (nonlinear_arith)
            requires
                b.hi + 1 <= a.hi,
                base > 0,
        ;
    }
}

/// The map that distinct pairs list holds exactly those pairs.
pub proof fn law_tables_hold_their_pairs<A, B>(pairs: Seq<(A, B)>, i: int, key: A)
    requires
        forall|m: int, n: int|
            #![trigger pairs[m], pairs[n]]
            0 <= m < n < pairs.len() ==> pairs[m].0 != pairs[n].0,
        0 <= i < pairs.len(),
    ensures
        keys_distinct(pairs),
        listed(pairs).contains_key(pairs[i].0),
        listed(pairs)[pairs[i].0] == pairs[i].1,
        listed(pairs).contains_key(key) <==> exists|j: int|
            0 <= j < pairs.len() && (#[trigger] pairs[j]).0 == key,
{
    assert(pairs[i].0 == pairs[i].0);
    assert(has_key(pairs, pairs[i].0));
    let j = choose|j: int| 0 <= j < pairs.len() && (#[trigger] pairs[j]).0 == pairs[i].0;
    assert(j == i);
}

/// No two of distinct pairs have the same key.
pub proof fn law_distinct_pairs_have_distinct_keys<A, B>(pairs: Seq<(A, B)>, i: int, j: int)
    requires
        keys_distinct(pairs),
        0 <= i < pairs.len(),
        0 <= j < pairs.len(),
        i != j,
    ensures
        pairs[i].0 != pairs[j].0,
{
}

/// A refusal names its reason.
pub proof fn law_refusals_name_their_reason(e: ContractError)
    ensures
        refusal(e) is Some,
        refusal(e)->0 == CallError::Contract(e),
{
}

} // verus!
