use rbmt::api::{ApiItem, PublicApi};
use rbmt::diff::{diff, ApiDiff, ChangedItem};

fn api(items: &[(&str, &str)]) -> PublicApi {
    PublicApi::from_items(items.iter().map(|(name, sig)| ApiItem::new(name, sig)).collect())
}

fn sorted(mut items: Vec<ApiItem>) -> Vec<(String, String)> {
    let mut pairs: Vec<(String, String)> =
        items.drain(..).map(|item| (item.name, item.signature)).collect();
    pairs.sort();
    pairs
}

#[test]
fn snapshot_is_a_set() {
    let a = api(&[("foo", "fn foo()"), ("bar", "fn bar()"), ("foo", "fn foo()")]);
    let b = api(&[("bar", "fn bar()"), ("foo", "fn foo()")]);
    assert_eq!(a.len(), 2);
    assert!(a.equals(&b));
    assert!(b.equals(&a));
    assert!(a.contains(&ApiItem::new("foo", "fn foo()")));
    assert!(!a.contains(&ApiItem::new("foo", "fn foo() -> u8")));
    assert!(!a.equals(&api(&[("foo", "fn foo()")])));
    assert!(api(&[("foo", "fn foo()")]).is_subset_of(&a));
    assert!(!a.is_subset_of(&api(&[("foo", "fn foo()")])));
    assert!(api(&[]).is_empty());
    assert!(!a.is_empty());
}

#[test]
fn items_are_kept_once() {
    let a = api(&[("foo", "fn foo()"), ("foo", "fn foo()"), ("foo", "fn foo(x: u8)")]);
    assert!(PublicApi::new().is_empty());
    assert_eq!(a.len(), 2);
    assert_eq!(a.items().len(), 2);
    assert!(a.contains_name(&ApiItem::new("foo", "anything")));
    assert!(!a.contains_name(&ApiItem::new("bar", "fn foo()")));
    assert!(a.clone().equals(&a));
}

#[test]
fn diff_of_a_snapshot_with_itself_is_empty() {
    let a = api(&[("foo", "fn foo()"), ("Baz", "struct Baz"), ("Baz::x", "Baz::x: u8")]);
    let d = diff(&a, &a);
    assert_eq!(d, ApiDiff { removed: vec![], changed: vec![], added: vec![] });
    assert!(d.is_empty());
    assert!(!d.is_breaking());
    let empty = api(&[]);
    assert!(diff(&empty, &empty).is_empty());
}

#[test]
fn diff_ignores_order_and_repetition() {
    let a = api(&[("foo", "fn foo()"), ("bar", "fn bar()")]);
    let b = api(&[("bar", "fn bar()"), ("foo", "fn foo()"), ("bar", "fn bar()")]);
    assert!(diff(&a, &b).is_empty());
}

#[test]
fn diff_tells_removed_from_added() {
    let old = api(&[("foo", "fn foo()"), ("gone", "fn gone()")]);
    let new = api(&[("foo", "fn foo()"), ("fresh", "fn fresh()")]);
    let d = diff(&old, &new);
    assert_eq!(d.removed, vec![ApiItem::new("gone", "fn gone()")]);
    assert_eq!(d.added, vec![ApiItem::new("fresh", "fn fresh()")]);
    assert!(d.changed.is_empty());
    assert!(d.is_breaking());
    assert!(!d.is_empty());
}

#[test]
fn edited_signature_is_one_change() {
    let old = api(&[("foo", "fn foo() -> i32"), ("keep", "fn keep()")]);
    let new = api(&[("foo", "fn foo() -> u32"), ("keep", "fn keep()")]);
    let d = diff(&old, &new);
    assert!(d.removed.is_empty());
    assert!(d.added.is_empty());
    assert_eq!(
        d.changed,
        vec![ChangedItem {
            before: ApiItem::new("foo", "fn foo() -> i32"),
            after: ApiItem::new("foo", "fn foo() -> u32"),
        }]
    );
    assert!(d.is_breaking());
}

#[test]
fn same_signature_under_another_name_is_removed_and_added() {
    let old = api(&[("a::f", "fn f()")]);
    let new = api(&[("b::f", "fn f()")]);
    let d = diff(&old, &new);
    assert_eq!(d.removed, vec![ApiItem::new("a::f", "fn f()")]);
    assert_eq!(d.added, vec![ApiItem::new("b::f", "fn f()")]);
    assert!(d.changed.is_empty());
}

#[test]
fn additions_alone_do_not_break() {
    let old = api(&[("foo", "fn foo()")]);
    let new = api(&[("foo", "fn foo()"), ("bar", "fn bar()")]);
    let d = diff(&old, &new);
    assert_eq!(d.added, vec![ApiItem::new("bar", "fn bar()")]);
    assert!(!d.is_breaking());
    assert!(!d.is_empty());
}

#[test]
fn added_one_way_is_removed_the_other_way() {
    let a = api(&[("foo", "fn foo()"), ("x", "fn x()"), ("y", "struct y")]);
    let b = api(&[("foo", "fn foo()"), ("z", "fn z()")]);
    let ab = diff(&a, &b);
    let ba = diff(&b, &a);
    assert_eq!(sorted(ab.added), sorted(ba.removed));
    assert_eq!(sorted(ab.removed), sorted(ba.added));
    assert!(ab.changed.is_empty());
    assert!(ba.changed.is_empty());
}

#[test]
fn changes_are_mirrored_the_other_way() {
    let a = api(&[("foo", "fn foo() -> i32"), ("only_a", "fn only_a()")]);
    let b = api(&[("foo", "fn foo() -> u32")]);
    let ab = diff(&a, &b);
    let ba = diff(&b, &a);
    assert_eq!(ab.changed.len(), 1);
    assert_eq!(ba.changed.len(), 1);
    assert_eq!(ab.changed[0].before, ba.changed[0].after);
    assert_eq!(ab.changed[0].after, ba.changed[0].before);
    assert_eq!(ab.removed, vec![ApiItem::new("only_a", "fn only_a()")]);
    assert_eq!(sorted(ab.added), sorted(ba.removed));
    assert_eq!(sorted(ab.removed), sorted(ba.added));
}

#[test]
fn a_name_held_twice_pairs_with_every_edit() {
    let old = api(&[("T::from", "fn from(u8) -> T"), ("T::from", "fn from(u16) -> T")]);
    let new = api(&[("T::from", "fn from(u8) -> T"), ("T::from", "fn from(u32) -> T")]);
    let d = diff(&old, &new);
    assert!(d.removed.is_empty());
    assert!(d.added.is_empty());
    assert_eq!(
        d.changed,
        vec![ChangedItem {
            before: ApiItem::new("T::from", "fn from(u16) -> T"),
            after: ApiItem::new("T::from", "fn from(u32) -> T"),
        }]
    );
}
