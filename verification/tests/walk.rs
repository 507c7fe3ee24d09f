use move_to_ts::walk::{IterableValue, Walk};

fn entry(val: &str, next: Option<u64>) -> IterableValue<u64, String> {
    IterableValue { val: val.to_string(), next }
}

/// Follows the chain that `table` holds from `head`, and counts the lookups.
fn fetch_all(head: Option<u64>, table: &[(u64, &str, Option<u64>)]) -> (Vec<(u64, String)>, usize) {
    let mut lookups = 0usize;
    let mut walk: Walk<u64, String> = Walk::begin(head);
    while !walk.is_over() {
        let key = *walk.pending().unwrap();
        let (_, val, next) = table.iter().find(|(k, _, _)| *k == key).unwrap();
        lookups += 1;
        walk = walk.advance(entry(val, *next));
    }
    (walk.finish(), lookups)
}

#[test]
fn a_table_without_head_is_walked_without_a_lookup() {
    let walk: Walk<u64, String> = Walk::begin(None);
    assert!(walk.is_over());
    assert!(walk.pending().is_none());
    assert_eq!(walk.finish(), Vec::new());
    let (found, lookups) = fetch_all(None, &[(1, "never", None)]);
    assert_eq!(found, Vec::new());
    assert_eq!(lookups, 0);
}

#[test]
fn a_table_of_one_entry_takes_one_lookup() {
    let walk: Walk<u64, String> = Walk::begin(Some(7));
    assert!(!walk.is_over());
    assert_eq!(walk.pending(), Some(&7));
    let walk = walk.advance(entry("seven", None));
    assert!(walk.is_over());
    assert_eq!(walk.pending(), None);
    assert_eq!(walk.finish(), vec![(7, "seven".to_string())]);
}

#[test]
fn entries_come_in_the_order_of_the_chain() {
    let table = [
        (1, "one", Some(2)),
        (5, "five", Some(3)),
        (3, "three", Some(1)),
        (2, "two", None),
    ];
    let (found, lookups) = fetch_all(Some(5), &table);
    assert_eq!(
        found,
        vec![
            (5, "five".to_string()),
            (3, "three".to_string()),
            (1, "one".to_string()),
            (2, "two".to_string()),
        ]
    );
    assert_eq!(lookups, 4);
}

#[test]
fn the_walk_asks_for_each_key_in_turn() {
    let mut walk: Walk<u64, String> = Walk::begin(Some(10));
    let chain = [(10, "a", Some(20)), (20, "b", Some(30)), (30, "c", None)];
    for (n, (key, val, next)) in chain.iter().enumerate() {
        assert!(!walk.is_over());
        assert_eq!(walk.pending(), Some(key));
        assert_eq!(walk.found.len(), n);
        walk = walk.advance(entry(val, *next));
    }
    assert!(walk.is_over());
    assert_eq!(walk.found.len(), 3);
}

#[test]
fn a_walk_that_is_over_takes_in_nothing() {
    let walk: Walk<u64, String> = Walk::begin(Some(1));
    let walk = walk.advance(entry("one", None));
    let walk = walk.advance(entry("stray", Some(9)));
    assert!(walk.is_over());
    assert_eq!(walk.finish(), vec![(1, "one".to_string())]);
    let empty: Walk<u64, String> = Walk::begin(None);
    let empty = empty.advance(entry("stray", Some(9)));
    assert!(empty.is_over());
    assert_eq!(empty.finish(), Vec::new());
}

#[test]
fn a_chain_that_runs_in_a_circle_never_ends_the_walk() {
    let mut walk: Walk<u64, String> = Walk::begin(Some(1));
    for round in 0..50usize {
        assert!(!walk.is_over());
        let key = *walk.pending().unwrap();
        assert_eq!(key, if round % 2 == 0 { 1 } else { 2 });
        let next = if key == 1 { 2 } else { 1 };
        walk = walk.advance(entry("again", Some(next)));
    }
    assert!(!walk.is_over());
    assert_eq!(walk.found.len(), 50);
}
