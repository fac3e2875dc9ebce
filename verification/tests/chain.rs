use rokoko::component::{Component, Empty, With};

fn three_entry_chain() -> With<i64, With<i64, With<i64, Empty>>> {
    With {
        tag: 1,
        data: 10,
        next: With { tag: 2, data: 20, next: With { tag: 3, data: 30, next: Empty } },
    }
}

#[test]
fn chain_lookup_finds_each_inserted_tag() {
    let chain = three_entry_chain();
    assert_eq!(chain.get(1), Some(&10));
    assert_eq!(chain.get(2), Some(&20));
    assert_eq!(chain.get(3), Some(&30));
}

#[test]
fn chain_lookup_of_never_inserted_tag_misses() {
    let chain = three_entry_chain();
    assert_eq!(chain.get(4), None);
    let empty = Empty;
    let r: Option<&i64> = empty.get(1);
    assert_eq!(r, None);
}

#[test]
fn chain_lookup_after_mutation_observes_new_value() {
    let mut chain = three_entry_chain();
    match chain.get_mut(2) {
        Some(v) => *v = 99,
        None => panic!("tag 2 must be found"),
    }
    assert_eq!(chain.get(2), Some(&99));
    assert_eq!(chain.get(1), Some(&10));
    assert_eq!(chain.get(3), Some(&30));
}

#[test]
fn chain_mutation_of_absent_tag_changes_nothing() {
    let mut chain = three_entry_chain();
    assert!(chain.get_mut(7).is_none());
    assert_eq!(chain.get(1), Some(&10));
    assert_eq!(chain.get(2), Some(&20));
    assert_eq!(chain.get(3), Some(&30));
}

#[test]
fn chain_first_match_from_head_wins() {
    let chain = With {
        tag: 5,
        data: 200,
        next: With { tag: 5, data: 100, next: Empty },
    };
    assert_eq!(chain.get(5), Some(&200));
}

#[test]
fn chain_holds_heterogeneous_value_types_by_generic_instantiation() {
    let chain = With { tag: 8, data: String::from("hello"), next: Empty };
    assert_eq!(chain.get(8).map(|s| s.as_str()), Some("hello"));
}
