//! The alphabetical order of texts, and sorting by it.

use vstd::prelude::*;
use vstd::seq_lib::to_multiset_insert;
use crate::text::{chars_of, texts};

verus! {

/// Whether `first` comes before `second` or equals it, character by
/// character; a text comes before every text that it starts.
pub open spec fn in_order(first: Seq<char>, second: Seq<char>) -> bool
    decreases first.len(),
{
    if first.len() == 0 {
        true
    } else if second.len() == 0 {
        false
    } else if first.first() != second.first() {
        first.first() < second.first()
    } else {
        in_order(first.drop_first(), second.drop_first())
    }
}

/// Whether each text of `list` is in order with every later one.
pub open spec fn is_sorted(list: Seq<Seq<char>>) -> bool {
    forall|i: int, j: int| 0 <= i < j < list.len() ==> in_order(list[i], list[j])
}

/// Of two texts, one is in order with the other.
pub proof fn order_is_total(first: Seq<char>, second: Seq<char>)
    ensures
        in_order(first, second) || in_order(second, first),
    decreases first.len(),
{
    if first.len() > 0 && second.len() > 0 && first.first() == second.first() {
        order_is_total(first.drop_first(), second.drop_first());
    }
}

/// What is in order with something that is in order with a third text is in
/// order with the third.
pub proof fn order_is_transitive(first: Seq<char>, second: Seq<char>, third: Seq<char>)
    requires
        in_order(first, second),
        in_order(second, third),
    ensures
        in_order(first, third),
    decreases first.len(),
{
    if first.len() > 0 && second.len() > 0 && third.len() > 0 {
        if first.first() == second.first() && second.first() == third.first() {
            order_is_transitive(first.drop_first(), second.drop_first(), third.drop_first());
        }
    }
}

/// Two texts that are in order both ways are the same text.
pub proof fn order_is_antisymmetric(first: Seq<char>, second: Seq<char>)
    requires
        in_order(first, second),
        in_order(second, first),
    ensures
        first == second,
    decreases first.len(),
{
    if first.len() > 0 && second.len() > 0 {
        order_is_antisymmetric(first.drop_first(), second.drop_first());
        assert(first =~= seq![first.first()] + first.drop_first());
        assert(second =~= seq![second.first()] + second.drop_first());
    } else {
        assert(first =~= second);
    }
}

/// Whether `first` comes before `second` or equals it.
pub fn chars_in_order(first: &Vec<char>, second: &Vec<char>) -> (yes: bool)
    ensures
        yes == in_order(first@, second@),
{
    let mut k: usize = 0;
    assert(first@.skip(0) =~= first@);
    assert(second@.skip(0) =~= second@);
    while k < first.len() && k < second.len()
        invariant
            k <= first@.len(),
            k <= second@.len(),
            in_order(first@, second@) == in_order(first@.skip(k as int), second@.skip(k as int)),
        decreases first@.len() - k,
    {
        proof {
            let a = first@.skip(k as int);
            let b = second@.skip(k as int);
            assert(a.first() == first@[k as int]);
            assert(b.first() == second@[k as int]);
            assert(a.drop_first() =~= first@.skip(k + 1));
            assert(b.drop_first() =~= second@.skip(k + 1));
        }
        if first[k] != second[k] {
            return first[k] < second[k];
        }
        k += 1;
    }
    k == first.len()
}

/// The texts of `items` in alphabetical order: every text as often as it
/// occurs in `items`, each in order with every later one.
pub fn sort_texts(items: &Vec<String>) -> (sorted: Vec<String>)
    ensures
        is_sorted(texts(sorted@)),
        texts(sorted@).to_multiset() == texts(items@).to_multiset(),
{
    let mut sorted: Vec<String> = Vec::new();
    let mut k: usize = 0;
    assert(texts(items@).take(0) =~= texts(sorted@));
    while k < items.len()
        invariant
            k <= items@.len(),
            sorted@.len() == k,
            is_sorted(texts(sorted@)),
            texts(sorted@).to_multiset() == texts(items@).take(k as int).to_multiset(),
        decreases items@.len() - k,
    {
        let item = chars_of(items[k].as_str());
        let mut at: usize = 0;
        let mut placed = false;
        while at < sorted.len() && !placed
            invariant
                at <= sorted@.len(),
                item@ == items@[k as int]@,
                forall|i: int| 0 <= i < at ==> in_order((#[trigger] sorted@[i])@, item@),
                placed ==> at < sorted@.len() && in_order(item@, sorted@[at as int]@),
            decreases sorted@.len() - at, if placed { 0int } else { 1int },
        {
            let here = chars_of(sorted[at].as_str());
            if chars_in_order(&here, &item) {
                at += 1;
            } else {
                proof {
                    order_is_total(here@, item@);
                }
                placed = true;
            }
        }
        let ghost before = texts(sorted@);
        sorted.insert(at, items[k].clone());
        proof {
            let now = texts(sorted@);
            assert(now =~= before.insert(at as int, item@));
            to_multiset_insert(before, at as int, item@);
            let seen = texts(items@).take(k as int);
            assert(texts(items@).take(k + 1) =~= seen.push(item@));
            vstd::seq_lib::to_multiset_build(seen, item@);
            assert forall|i: int, j: int| 0 <= i < j < now.len() implies in_order(now[i], now[j]) by {
                if j < at {
                    assert(now[i] == before[i] && now[j] == before[j]);
                } else if j == at {
                    assert(now[i] == before[i]);
                    assert(in_order(sorted@[i]@, item@)) by {
                        assert(now[i] == sorted@[i]@);
                    }
                } else if i < at {
                    assert(now[i] == before[i] && now[j] == before[j - 1]);
                } else if i == at {
                    assert(now[j] == before[j - 1]);
                    assert(placed);
                    assert(in_order(item@, before[at as int]));
                    if j - 1 > at {
                        assert(in_order(before[at as int], before[j - 1]));
                        order_is_transitive(item@, before[at as int], before[j - 1]);
                    }
                } else {
                    assert(now[i] == before[i - 1] && now[j] == before[j - 1]);
                }
            }
        }
        k += 1;
    }
    assert(texts(items@).take(k as int) =~= texts(items@));
    sorted
}

} // verus!
