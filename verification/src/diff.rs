//! Structural comparison of two API snapshots.

use vstd::prelude::*;
use crate::api::{item_models, ApiItem, ItemModel, PublicApi};
use crate::text::{join2, texts};

verus! {

/// An item whose name is present on both sides with different signatures.
#[derive(Debug, PartialEq, Eq)]
pub struct ChangedItem {
    /// How the item used to look.
    pub before: ApiItem,
    /// How the item looks now.
    pub after: ApiItem,
}

/// What a [`ChangedItem`] stands for.
pub struct ChangedModel {
    pub before: ItemModel,
    pub after: ItemModel,
}

impl View for ChangedItem {
    type V = ChangedModel;

    open spec fn view(&self) -> ChangedModel {
        ChangedModel { before: self.before@, after: self.after@ }
    }
}

/// The models of a sequence of changes, position by position.
pub open spec fn changed_models(changes: Seq<ChangedItem>) -> Seq<ChangedModel> {
    Seq::new(changes.len(), |i: int| changes[i]@)
}

/// Whether some item of `items` carries `name`.
pub open spec fn name_occurs(items: Set<ItemModel>, name: Seq<char>) -> bool {
    exists|m: ItemModel| #[trigger] items.contains(m) && m.name == name
}

/// Items of `old` that are gone from `new` and whose name `new` did not give a
/// different signature.
pub open spec fn removed_items(old: Set<ItemModel>, new: Set<ItemModel>) -> Set<ItemModel> {
    Set::new(
        |m: ItemModel|
            old.contains(m) && !new.contains(m) && !name_occurs(new.difference(old), m.name),
    )
}

/// Items of `new` that `old` lacks and whose name `old` did not hold under a
/// different signature.
pub open spec fn added_items(old: Set<ItemModel>, new: Set<ItemModel>) -> Set<ItemModel> {
    Set::new(
        |m: ItemModel|
            new.contains(m) && !old.contains(m) && !name_occurs(old.difference(new), m.name),
    )
}

/// Pairs of an item only in `old` and an item only in `new` that share a name.
pub open spec fn changed_items(old: Set<ItemModel>, new: Set<ItemModel>) -> Set<ChangedModel> {
    Set::new(
        |c: ChangedModel|
            old.contains(c.before) && !new.contains(c.before) && new.contains(c.after)
                && !old.contains(c.after) && c.before.name == c.after.name,
    )
}

/// The outcome of comparing two snapshots, as three sets.
pub struct DiffModel {
    pub removed: Set<ItemModel>,
    pub changed: Set<ChangedModel>,
    pub added: Set<ItemModel>,
}

/// The difference between snapshot `old` and snapshot `new`.
pub open spec fn diff_of(old: Set<ItemModel>, new: Set<ItemModel>) -> DiffModel {
    DiffModel {
        removed: removed_items(old, new),
        changed: changed_items(old, new),
        added: added_items(old, new),
    }
}

/// The result of comparing two snapshots. No entry occurs twice in a list.
#[derive(Debug, PartialEq, Eq)]
pub struct ApiDiff {
    /// Items that are gone.
    pub removed: Vec<ApiItem>,
    /// Items whose signature was edited.
    pub changed: Vec<ChangedItem>,
    /// Items that are new.
    pub added: Vec<ApiItem>,
}

impl View for ApiDiff {
    type V = DiffModel;

    open spec fn view(&self) -> DiffModel {
        DiffModel {
            removed: item_models(self.removed@).to_set(),
            changed: changed_models(self.changed@).to_set(),
            added: item_models(self.added@).to_set(),
        }
    }
}

impl ApiDiff {
    /// Whether each list names every entry once.
    pub open spec fn distinct(&self) -> bool {
        &&& item_models(self.removed@).no_duplicates()
        &&& changed_models(self.changed@).no_duplicates()
        &&& item_models(self.added@).no_duplicates()
    }

    /// Whether nothing was removed, changed or added.
    pub fn is_empty(&self) -> (empty: bool)
        ensures
            empty == (self.removed@.len() == 0 && self.changed@.len() == 0 && self.added@.len()
                == 0),
    {
        self.removed.len() == 0 && self.changed.len() == 0 && self.added.len() == 0
    }

    /// Whether something was removed or changed; additions alone do not break.
    pub fn is_breaking(&self) -> (breaking: bool)
        ensures
            breaking == breaks(self@),
    {
        let breaking = self.removed.len() != 0 || self.changed.len() != 0;
        proof {
            if self.removed@.len() != 0 {
                assert(item_models(self.removed@)[0] == self.removed@[0]@);
                assert(self@.removed.contains(self.removed@[0]@));
            } else {
                assert(self@.removed =~= Set::<ItemModel>::empty());
            }
            if self.changed@.len() != 0 {
                assert(changed_models(self.changed@)[0] == self.changed@[0]@);
                assert(self@.changed.contains(self.changed@[0]@));
            } else {
                assert(self@.changed =~= Set::<ChangedModel>::empty());
            }
        }
        breaking
    }
}

/// A difference breaks compatibility when it removes or changes an item.
pub open spec fn breaks(d: DiffModel) -> bool {
    d.removed != Set::<ItemModel>::empty() || d.changed != Set::<ChangedModel>::empty()
}

/// The items of `items` whose flag is set, in their order.
fn keep_flagged(items: &Vec<ApiItem>, flags: &Vec<bool>) -> (kept: Vec<ApiItem>)
    requires
        flags@.len() == items@.len(),
    ensures
        forall|m: ItemModel|
            #![trigger item_models(kept@).contains(m)]
            item_models(kept@).contains(m) <==> exists|j: int|
                0 <= j < items@.len() && flags@[j] && (#[trigger] items@[j])@ == m,
        item_models(items@).no_duplicates() ==> item_models(kept@).no_duplicates(),
{
    let mut kept: Vec<ApiItem> = Vec::new();
    let ghost mut origin: Seq<int> = Seq::empty();
    let mut k: usize = 0;
    while k < items.len()
        invariant
            k <= items@.len(),
            flags@.len() == items@.len(),
            origin.len() == kept@.len(),
            forall|p: int|
                0 <= p < origin.len() ==> 0 <= #[trigger] origin[p] < k && flags@[origin[p]]
                    && kept@[p]@ == items@[origin[p]]@,
            forall|p: int, q: int| 0 <= p < q < origin.len() ==> origin[p] < origin[q],
            forall|j: int|
                0 <= j < k && flags@[j] ==> exists|p: int|
                    0 <= p < origin.len() && #[trigger] origin[p] == j,
        decreases items@.len() - k,
    {
        if flags[k] {
            let ghost origin_before = origin;
            kept.push(items[k].duplicate());
            proof {
                origin = origin.push(k as int);
                assert forall|j: int| 0 <= j < k + 1 && flags@[j] implies exists|p: int|
                    0 <= p < origin.len() && #[trigger] origin[p] == j by {
                    if j < k {
                        let p = choose|p: int|
                            0 <= p < origin_before.len() && #[trigger] origin_before[p] == j;
                        assert(origin[p] == j);
                    } else {
                        assert(origin[origin.len() - 1] == j);
                    }
                }
            }
        }
        k += 1;
    }
    proof {
        assert forall|m: ItemModel| item_models(kept@).contains(m) implies exists|j: int|
            0 <= j < items@.len() && flags@[j] && (#[trigger] items@[j])@ == m by {
            let p = choose|p: int| 0 <= p < item_models(kept@).len() && item_models(kept@)[p] == m;
            assert(items@[origin[p]]@ == m);
        }
        assert forall|m: ItemModel|
            (exists|j: int| 0 <= j < items@.len() && flags@[j] && (#[trigger] items@[j])@ == m)
            implies item_models(kept@).contains(m) by {
            let j = choose|j: int| 0 <= j < items@.len() && flags@[j] && (#[trigger] items@[j])@ == m;
            let p = choose|p: int| 0 <= p < origin.len() && #[trigger] origin[p] == j;
            assert(item_models(kept@)[p] == m);
        }
        if item_models(items@).no_duplicates() {
            assert forall|p: int, q: int|
                0 <= p < item_models(kept@).len() && 0 <= q < item_models(kept@).len() && p
                    != q implies item_models(kept@)[p] != item_models(kept@)[q] by {
                assert(origin[p] != origin[q]);
                assert(item_models(items@)[origin[p]] == kept@[p]@);
                assert(item_models(items@)[origin[q]] == kept@[q]@);
            }
        }
    }
    kept
}

/// The items of `items` that `other` lacks.
fn only_in(items: &Vec<ApiItem>, other: &PublicApi) -> (rest: Vec<ApiItem>)
    ensures
        forall|m: ItemModel|
            #![trigger item_models(rest@).contains(m)]
            #![trigger item_models(items@).contains(m)]
            item_models(rest@).contains(m) <==> item_models(items@).contains(m)
                && !other@.contains(m),
        item_models(items@).no_duplicates() ==> item_models(rest@).no_duplicates(),
{
    let mut flags: Vec<bool> = Vec::new();
    let mut k: usize = 0;
    while k < items.len()
        invariant
            k <= items@.len(),
            flags@.len() == k,
            forall|j: int| 0 <= j < k ==> flags@[j] == !other@.contains(#[trigger] items@[j]@),
        decreases items@.len() - k,
    {
        flags.push(!other.contains(&items[k]));
        k += 1;
    }
    let rest = keep_flagged(items, &flags);
    proof {
        assert forall|m: ItemModel|
            item_models(rest@).contains(m) <==> item_models(items@).contains(m)
                && !other@.contains(m) by {
            if item_models(rest@).contains(m) {
                let j = choose|j: int|
                    0 <= j < items@.len() && flags@[j] && (#[trigger] items@[j])@ == m;
                assert(item_models(items@)[j] == m);
            }
            if item_models(items@).contains(m) && !other@.contains(m) {
                let j = choose|j: int|
                    0 <= j < item_models(items@).len() && item_models(items@)[j] == m;
                assert(flags@[j] && items@[j]@ == m);
            }
        }
    }
    rest
}

/// The items of `items` whose name no item of `others` carries.
fn without_names_of(items: &Vec<ApiItem>, others: &Vec<ApiItem>) -> (rest: Vec<ApiItem>)
    ensures
        forall|m: ItemModel|
            #![trigger item_models(rest@).contains(m)]
            #![trigger item_models(items@).contains(m)]
            item_models(rest@).contains(m) <==> item_models(items@).contains(m)
                && !name_occurs(item_models(others@).to_set(), m.name),
        item_models(items@).no_duplicates() ==> item_models(rest@).no_duplicates(),
{
    let mut flags: Vec<bool> = Vec::new();
    let mut k: usize = 0;
    while k < items.len()
        invariant
            k <= items@.len(),
            flags@.len() == k,
            forall|j: int|
                0 <= j < k ==> flags@[j] == !name_occurs(
                    item_models(others@).to_set(),
                    (#[trigger] items@[j])@.name,
                ),
        decreases items@.len() - k,
    {
        let taken = crate::api::has_name(others, &items[k]);
        proof {
            let name = items@[k as int]@.name;
            if taken {
                let j = choose|j: int|
                    0 <= j < others@.len() && (#[trigger] others@[j])@.name == name;
                assert(item_models(others@)[j] == others@[j]@);
                assert(item_models(others@).to_set().contains(others@[j]@));
            } else {
                if name_occurs(item_models(others@).to_set(), name) {
                    let m = choose|m: ItemModel|
                        #[trigger] item_models(others@).to_set().contains(m) && m.name == name;
                    let j = choose|j: int|
                        0 <= j < item_models(others@).len() && item_models(others@)[j] == m;
                    assert(others@[j]@.name == name);
                }
            }
        }
        flags.push(!taken);
        k += 1;
    }
    let rest = keep_flagged(items, &flags);
    proof {
        assert forall|m: ItemModel|
            item_models(rest@).contains(m) <==> item_models(items@).contains(m) && !name_occurs(
                item_models(others@).to_set(),
                m.name,
            ) by {
            if item_models(rest@).contains(m) {
                let j = choose|j: int|
                    0 <= j < items@.len() && flags@[j] && (#[trigger] items@[j])@ == m;
                assert(item_models(items@)[j] == m);
            }
            if item_models(items@).contains(m) && !name_occurs(
                item_models(others@).to_set(),
                m.name,
            ) {
                let j = choose|j: int|
                    0 <= j < item_models(items@).len() && item_models(items@)[j] == m;
                assert(flags@[j] && items@[j]@ == m);
            }
        }
    }
    rest
}

/// Every pair of an item of `gone` and an item of `come` that share a name.
fn pairs_by_name(gone: &Vec<ApiItem>, come: &Vec<ApiItem>) -> (pairs: Vec<ChangedItem>)
    ensures
        forall|c: ChangedModel|
            #![trigger changed_models(pairs@).contains(c)]
            changed_models(pairs@).contains(c) <==> item_models(gone@).contains(c.before)
                && item_models(come@).contains(c.after) && c.before.name == c.after.name,
        item_models(gone@).no_duplicates() && item_models(come@).no_duplicates()
            ==> changed_models(pairs@).no_duplicates(),
{
    let mut pairs: Vec<ChangedItem> = Vec::new();
    let ghost mut left: Seq<int> = Seq::empty();
    let ghost mut right: Seq<int> = Seq::empty();
    let mut i: usize = 0;
    while i < gone.len()
        invariant
            i <= gone@.len(),
            left.len() == pairs@.len(),
            right.len() == pairs@.len(),
            forall|p: int|
                0 <= p < pairs@.len() ==> 0 <= #[trigger] left[p] < i && 0 <= right[p]
                    < come@.len() && pairs@[p]@.before == gone@[left[p]]@ && pairs@[p]@.after
                    == come@[right[p]]@ && gone@[left[p]]@.name == come@[right[p]]@.name,
            forall|p: int, q: int|
                0 <= p < q < pairs@.len() ==> left[p] < left[q] || (left[p] == left[q]
                    && right[p] < right[q]),
            forall|a: int, b: int|
                0 <= a < i && 0 <= b < come@.len() && gone@[a]@.name == come@[b]@.name
                    ==> exists|p: int|
                    0 <= p < pairs@.len() && #[trigger] left[p] == a && right[p] == b,
        decreases gone@.len() - i,
    {
        let mut j: usize = 0;
        while j < come.len()
            invariant
                i < gone@.len(),
                j <= come@.len(),
                left.len() == pairs@.len(),
                right.len() == pairs@.len(),
                forall|p: int|
                    0 <= p < pairs@.len() ==> 0 <= #[trigger] left[p] <= i && 0 <= right[p]
                        < come@.len() && (left[p] == i ==> right[p] < j) && pairs@[p]@.before
                        == gone@[left[p]]@ && pairs@[p]@.after == come@[right[p]]@
                        && gone@[left[p]]@.name == come@[right[p]]@.name,
                forall|p: int, q: int|
                    0 <= p < q < pairs@.len() ==> left[p] < left[q] || (left[p] == left[q]
                        && right[p] < right[q]),
                forall|a: int, b: int|
                    0 <= a < i && 0 <= b < come@.len() && gone@[a]@.name == come@[b]@.name
                        ==> exists|p: int|
                        0 <= p < pairs@.len() && #[trigger] left[p] == a && right[p] == b,
                forall|b: int|
                    0 <= b < j && gone@[i as int]@.name == come@[b]@.name ==> exists|p: int|
                        0 <= p < pairs@.len() && #[trigger] left[p] == i && right[p] == b,
            decreases come@.len() - j,
        {
            if gone[i].same_name(&come[j]) {
                let ghost left_before = left;
                let ghost right_before = right;
                pairs.push(ChangedItem { before: gone[i].duplicate(), after: come[j].duplicate() });
                proof {
                    left = left.push(i as int);
                    right = right.push(j as int);
                    let last = pairs@.len() - 1;
                    assert forall|a: int, b: int|
                        0 <= a < i && 0 <= b < come@.len() && gone@[a]@.name == come@[b]@.name
                        implies exists|p: int|
                        0 <= p < pairs@.len() && #[trigger] left[p] == a && right[p] == b by {
                        let p = choose|p: int|
                            0 <= p < left_before.len() && #[trigger] left_before[p] == a
                                && right_before[p] == b;
                        assert(left[p] == a && right[p] == b);
                    }
                    assert forall|b: int|
                        0 <= b < j + 1 && gone@[i as int]@.name == come@[b]@.name
                        implies exists|p: int|
                        0 <= p < pairs@.len() && #[trigger] left[p] == i && right[p] == b by {
                        if b < j {
                            let p = choose|p: int|
                                0 <= p < left_before.len() && #[trigger] left_before[p] == i
                                    && right_before[p] == b;
                            assert(left[p] == i && right[p] == b);
                        } else {
                            assert(left[last] == i && right[last] == b);
                        }
                    }
                }
            }
            j += 1;
        }
        i += 1;
    }
    proof {
        assert forall|c: ChangedModel| changed_models(pairs@).contains(c) implies item_models(
            gone@,
        ).contains(c.before) && item_models(come@).contains(c.after) && c.before.name
            == c.after.name by {
            let p = choose|p: int|
                0 <= p < changed_models(pairs@).len() && changed_models(pairs@)[p] == c;
            assert(pairs@[p]@ == c);
            assert(item_models(gone@)[left[p]] == c.before);
            assert(item_models(come@)[right[p]] == c.after);
        }
        assert forall|c: ChangedModel|
            item_models(gone@).contains(c.before) && item_models(come@).contains(c.after)
                && c.before.name == c.after.name implies changed_models(pairs@).contains(c) by {
            let a = choose|a: int|
                0 <= a < item_models(gone@).len() && item_models(gone@)[a] == c.before;
            let b = choose|b: int|
                0 <= b < item_models(come@).len() && item_models(come@)[b] == c.after;
            assert(gone@[a]@.name == come@[b]@.name);
            let p = choose|p: int| 0 <= p < pairs@.len() && #[trigger] left[p] == a && right[p] == b;
            assert(changed_models(pairs@)[p] == c);
        }
        if item_models(gone@).no_duplicates() && item_models(come@).no_duplicates() {
            assert forall|p: int, q: int|
                0 <= p < changed_models(pairs@).len() && 0 <= q < changed_models(pairs@).len()
                    && p != q implies changed_models(pairs@)[p] != changed_models(pairs@)[q] by {
                assert(left[p] != left[q] || right[p] != right[q]);
                assert(item_models(gone@)[left[p]] == pairs@[p]@.before);
                assert(item_models(gone@)[left[q]] == pairs@[q]@.before);
                assert(item_models(come@)[right[p]] == pairs@[p]@.after);
                assert(item_models(come@)[right[q]] == pairs@[q]@.after);
            }
        }
    }
    pairs
}

/// Compares two snapshots.
///
/// An item of `old` that `new` lacks is *removed*, an item of `new` that `old`
/// lacks is *added*, unless the other side holds the same name under another
/// signature: then the two form one *changed* entry and count neither as
/// removed nor as added. An item that both sides hold with the same signature
/// is in none of the three lists.
pub fn diff(old: &PublicApi, new: &PublicApi) -> (d: ApiDiff)
    ensures
        d@ == diff_of(old@, new@),
        d.distinct(),
{
    let old_items = old.items();
    let new_items = new.items();
    let gone = only_in(old_items, new);
    let come = only_in(new_items, old);
    let removed = without_names_of(&gone, &come);
    let added = without_names_of(&come, &gone);
    let changed = pairs_by_name(&gone, &come);
    proof {
        assert forall|m: ItemModel| old@.contains(m) <==> item_models(old_items@).contains(m) by {
            assert(item_models(old_items@).to_set().contains(m) <==> item_models(
                old_items@,
            ).contains(m));
        }
        assert forall|m: ItemModel| new@.contains(m) <==> item_models(new_items@).contains(m) by {
            assert(item_models(new_items@).to_set().contains(m) <==> item_models(
                new_items@,
            ).contains(m));
        }
        assert forall|m: ItemModel|
            item_models(gone@).to_set().contains(m) <==> old@.difference(new@).contains(m) by {
            assert(item_models(gone@).to_set().contains(m) <==> item_models(gone@).contains(m));
            assert(item_models(gone@).contains(m) <==> item_models(old_items@).contains(m)
                && !new@.contains(m));
        }
        assert forall|m: ItemModel|
            item_models(come@).to_set().contains(m) <==> new@.difference(old@).contains(m) by {
            assert(item_models(come@).to_set().contains(m) <==> item_models(come@).contains(m));
            assert(item_models(come@).contains(m) <==> item_models(new_items@).contains(m)
                && !old@.contains(m));
        }
        assert(item_models(gone@).to_set() =~= old@.difference(new@));
        assert(item_models(come@).to_set() =~= new@.difference(old@));
        assert(item_models(removed@).to_set() =~= removed_items(old@, new@));
        assert(item_models(added@).to_set() =~= added_items(old@, new@));
        assert(changed_models(changed@).to_set() =~= changed_items(old@, new@));
    }
    ApiDiff { removed, changed, added }
}

/// One line per removed item: the signature behind a dash.
pub open spec fn removed_lines(removed: Seq<ItemModel>) -> Seq<Seq<char>> {
    Seq::new(removed.len(), |i: int| "    - "@ + removed[i].signature)
}

/// Two lines per changed pair: the earlier signature, then the later one.
pub open spec fn changed_lines(changed: Seq<ChangedModel>) -> Seq<Seq<char>> {
    Seq::new(
        2 * changed.len(),
        |i: int|
            if i % 2 == 0 {
                "    - old: "@ + changed[i / 2].before.signature
            } else {
                "      new: "@ + changed[i / 2].after.signature
            },
    )
}

/// Appends one line per removed item to `lines`.
pub fn push_removed_lines(lines: &mut Vec<String>, removed: &Vec<ApiItem>)
    ensures
        texts(final(lines)@) == texts(old(lines)@) + removed_lines(item_models(removed@)),
{
    let ghost start = texts(lines@);
    let mut k: usize = 0;
    while k < removed.len()
        invariant
            k <= removed@.len(),
            texts(lines@) == start + removed_lines(item_models(removed@.take(k as int))),
        decreases removed@.len() - k,
    {
        let ghost shown = removed_lines(item_models(removed@.take(k as int)));
        let ghost before = lines@;
        let line = join2("    - ", removed[k].signature.as_str());
        lines.push(line);
        proof {
            let grown = removed_lines(item_models(removed@.take(k + 1)));
            assert(texts(lines@) =~= texts(before).push(line@));
            assert(grown =~= shown.push(line@));
            assert(texts(lines@) =~= start + grown);
        }
        k += 1;
    }
    assert(removed@.take(k as int) =~= removed@);
}

/// Appends two lines per changed pair to `lines`.
pub fn push_changed_lines(lines: &mut Vec<String>, changed: &Vec<ChangedItem>)
    ensures
        texts(final(lines)@) == texts(old(lines)@) + changed_lines(changed_models(changed@)),
{
    let ghost start = texts(lines@);
    let mut k: usize = 0;
    while k < changed.len()
        invariant
            k <= changed@.len(),
            texts(lines@) == start + changed_lines(changed_models(changed@.take(k as int))),
        decreases changed@.len() - k,
    {
        let ghost shown = changed_lines(changed_models(changed@.take(k as int)));
        let ghost before = lines@;
        let first = join2("    - old: ", changed[k].before.signature.as_str());
        let second = join2("      new: ", changed[k].after.signature.as_str());
        lines.push(first);
        lines.push(second);
        proof {
            let grown = changed_lines(changed_models(changed@.take(k + 1)));
            assert(texts(lines@) =~= texts(before).push(first@).push(second@));
            assert(grown.len() == shown.len() + 2);
            assert forall|i: int| 0 <= i < grown.len() implies grown[i] == shown.push(
                first@,
            ).push(second@)[i] by {
                if i < shown.len() {
                    assert(i / 2 < k);
                    assert(changed@.take(k + 1)[i / 2] == changed@.take(k as int)[i / 2]);
                } else {
                    assert(i / 2 == k);
                }
            }
            assert(grown =~= shown.push(first@).push(second@));
            assert(texts(lines@) =~= start + grown);
        }
        k += 1;
    }
    assert(changed@.take(k as int) =~= changed@);
}

/// Comparing a snapshot with itself finds nothing.
pub proof fn diff_identity(a: Set<ItemModel>)
    ensures
        diff_of(a, a).removed == Set::<ItemModel>::empty(),
        diff_of(a, a).changed == Set::<ChangedModel>::empty(),
        diff_of(a, a).added == Set::<ItemModel>::empty(),
        !breaks(diff_of(a, a)),
{
    assert(removed_items(a, a) =~= Set::<ItemModel>::empty());
    assert(changed_items(a, a) =~= Set::<ChangedModel>::empty());
    assert(added_items(a, a) =~= Set::<ItemModel>::empty());
}

/// What one direction reports as added, the other direction reports as
/// removed, and every change appears mirrored.
pub proof fn diff_antisymmetry(a: Set<ItemModel>, b: Set<ItemModel>)
    ensures
        diff_of(a, b).added == diff_of(b, a).removed,
        diff_of(a, b).removed == diff_of(b, a).added,
        forall|c: ChangedModel|
            diff_of(a, b).changed.contains(c) <==> diff_of(b, a).changed.contains(
                ChangedModel { before: c.after, after: c.before },
            ),
{
    assert(added_items(a, b) =~= removed_items(b, a));
    assert(removed_items(a, b) =~= added_items(b, a));
}

/// Whether no name is held by both snapshots under different signatures.
pub open spec fn no_edited_name(a: Set<ItemModel>, b: Set<ItemModel>) -> bool {
    forall|x: ItemModel, y: ItemModel|
        #![trigger a.contains(x), b.contains(y)]
        a.contains(x) && b.contains(y) && x.name == y.name ==> x.signature == y.signature
}

/// Where no name was edited, the added items of one direction are the plain
/// set difference, they are the removed items of the other direction, and
/// nothing is changed.
pub proof fn diff_of_pure_additions_and_removals(a: Set<ItemModel>, b: Set<ItemModel>)
    requires
        no_edited_name(a, b),
    ensures
        diff_of(a, b).added == b.difference(a),
        diff_of(a, b).removed == a.difference(b),
        diff_of(a, b).changed == Set::<ChangedModel>::empty(),
        diff_of(a, b).added == diff_of(b, a).removed,
{
    assert forall|m: ItemModel| b.contains(m) && !a.contains(m) implies !name_occurs(
        a.difference(b),
        m.name,
    ) by {
        if name_occurs(a.difference(b), m.name) {
            let x = choose|x: ItemModel| #[trigger] a.difference(b).contains(x) && x.name == m.name;
            assert(a.contains(x) && b.contains(m));
            assert(x == m);
        }
    }
    assert forall|m: ItemModel| a.contains(m) && !b.contains(m) implies !name_occurs(
        b.difference(a),
        m.name,
    ) by {
        if name_occurs(b.difference(a), m.name) {
            let y = choose|y: ItemModel| #[trigger] b.difference(a).contains(y) && y.name == m.name;
            assert(a.contains(m) && b.contains(y));
            assert(y == m);
        }
    }
    assert(added_items(a, b) =~= b.difference(a));
    assert(removed_items(a, b) =~= a.difference(b));
    assert forall|c: ChangedModel| !changed_items(a, b).contains(c) by {
        if changed_items(a, b).contains(c) {
            assert(a.contains(c.before) && b.contains(c.after));
            assert(c.before == c.after);
        }
    }
    assert(changed_items(a, b) =~= Set::<ChangedModel>::empty());
    diff_antisymmetry(a, b);
}

/// Every item that one side lacks is accounted for exactly once: an item only
/// in `old` is removed or the `before` of a change, never both, and an item
/// only in `new` is added or the `after` of a change, never both.
pub proof fn diff_accounts_for_every_difference(old: Set<ItemModel>, new: Set<ItemModel>, m: ItemModel)
    ensures
        old.contains(m) && !new.contains(m) <==> (diff_of(old, new).removed.contains(m) || exists|
            c: ChangedModel,
        | #[trigger] diff_of(old, new).changed.contains(c) && c.before == m),
        !(diff_of(old, new).removed.contains(m) && exists|c: ChangedModel| #[trigger]
            diff_of(old, new).changed.contains(c) && c.before == m),
        new.contains(m) && !old.contains(m) <==> (diff_of(old, new).added.contains(m) || exists|
            c: ChangedModel,
        | #[trigger] diff_of(old, new).changed.contains(c) && c.after == m),
        !(diff_of(old, new).added.contains(m) && exists|c: ChangedModel| #[trigger]
            diff_of(old, new).changed.contains(c) && c.after == m),
        old.contains(m) && new.contains(m) ==> !diff_of(old, new).removed.contains(m) && !diff_of(
            old,
            new,
        ).added.contains(m),
{
    if old.contains(m) && !new.contains(m) && !removed_items(old, new).contains(m) {
        let y = choose|y: ItemModel| #[trigger] new.difference(old).contains(y) && y.name == m.name;
        let c = ChangedModel { before: m, after: y };
        assert(diff_of(old, new).changed.contains(c) && c.before == m);
    }
    if removed_items(old, new).contains(m) {
        assert forall|c: ChangedModel| #[trigger]
            diff_of(old, new).changed.contains(c) implies c.before != m by {
            if c.before == m {
                assert(new.difference(old).contains(c.after));
            }
        }
    }
    if new.contains(m) && !old.contains(m) && !added_items(old, new).contains(m) {
        let x = choose|x: ItemModel| #[trigger] old.difference(new).contains(x) && x.name == m.name;
        let c = ChangedModel { before: x, after: m };
        assert(diff_of(old, new).changed.contains(c) && c.after == m);
    }
    if added_items(old, new).contains(m) {
        assert forall|c: ChangedModel| #[trigger]
            diff_of(old, new).changed.contains(c) implies c.after != m by {
            if c.after == m {
                assert(old.difference(new).contains(c.before));
            }
        }
    }
}

} // verus!
