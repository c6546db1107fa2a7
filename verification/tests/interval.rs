use icann_rdap::storage::mem::interval::{IntervalMap, Span};

fn span(lo: u128, hi: u128) -> Span {
    Span { lo, hi }
}

#[test]
fn empty_index_finds_nothing() {
    let index: IntervalMap<u8> = IntervalMap::new();
    assert_eq!(index.len(), 0);
    assert!(index.find(0).is_none());
    assert!(index.get(span(0, 0)).is_none());
}

#[test]
fn find_tests_both_ends() {
    let mut index: IntervalMap<&str> = IntervalMap::new();
    assert!(index.insert(span(10, 20), "a"));
    assert!(index.insert(span(30, 30), "b"));
    assert!(index.insert(span(0, 5), "c"));
    assert_eq!(index.len(), 3);
    assert_eq!(index.find(10), Some((span(10, 20), &"a")));
    assert_eq!(index.find(20), Some((span(10, 20), &"a")));
    assert_eq!(index.find(15), Some((span(10, 20), &"a")));
    assert_eq!(index.find(30), Some((span(30, 30), &"b")));
    assert_eq!(index.find(0), Some((span(0, 5), &"c")));
    assert_eq!(index.find(5), Some((span(0, 5), &"c")));
    assert!(index.find(6).is_none());
    assert!(index.find(9).is_none());
    assert!(index.find(21).is_none());
    assert!(index.find(29).is_none());
    assert!(index.find(31).is_none());
    assert!(index.find(u128::MAX).is_none());
}

#[test]
fn get_wants_the_exact_interval() {
    let mut index: IntervalMap<u8> = IntervalMap::new();
    assert!(index.insert(span(10, 20), 1));
    assert_eq!(index.get(span(10, 20)), Some(&1));
    assert!(index.get(span(10, 19)).is_none());
    assert!(index.get(span(11, 20)).is_none());
    assert!(index.get(span(0, 30)).is_none());
}

#[test]
fn insert_refuses_overlap_and_replaces_equal() {
    let mut index: IntervalMap<u8> = IntervalMap::new();
    assert!(index.insert(span(10, 20), 1));
    assert!(!index.insert(span(20, 25), 2));
    assert!(!index.insert(span(5, 10), 2));
    assert!(!index.insert(span(12, 13), 2));
    assert!(!index.insert(span(0, 100), 2));
    assert!(!index.insert(span(7, 6), 2));
    assert_eq!(index.len(), 1);
    assert_eq!(index.find(20), Some((span(10, 20), &1)));
    assert!(index.insert(span(10, 20), 3));
    assert_eq!(index.len(), 1);
    assert_eq!(index.get(span(10, 20)), Some(&3));
    assert!(index.insert(span(21, 25), 4));
    assert!(index.insert(span(0, 9), 5));
    assert_eq!(index.len(), 3);
    assert!(index.admits(span(26, 26)));
    assert!(index.admits(span(0, 9)));
    assert!(!index.admits(span(9, 10)));
}

#[test]
fn merge_is_all_or_nothing() {
    let mut index: IntervalMap<u8> = IntervalMap::new();
    assert!(index.insert(span(10, 20), 1));
    assert!(index.insert(span(40, 50), 2));

    let mut clash: IntervalMap<u8> = IntervalMap::new();
    assert!(clash.insert(span(0, 5), 7));
    assert!(clash.insert(span(45, 60), 8));
    assert!(!index.accepts(&clash));
    assert!(!index.merge(clash));
    assert_eq!(index.len(), 2);
    assert!(index.find(3).is_none());

    let mut more: IntervalMap<u8> = IntervalMap::new();
    assert!(more.insert(span(0, 5), 7));
    assert!(more.insert(span(10, 20), 9));
    assert!(more.insert(span(21, 39), 10));
    assert!(index.accepts(&more));
    assert!(index.merge(more));
    assert_eq!(index.len(), 4);
    assert_eq!(index.find(3), Some((span(0, 5), &7)));
    assert_eq!(index.find(10), Some((span(10, 20), &9)));
    assert_eq!(index.find(30), Some((span(21, 39), &10)));
    assert_eq!(index.find(45), Some((span(40, 50), &2)));
}

#[test]
fn many_inserts_stay_searchable() {
    let mut index: IntervalMap<u128> = IntervalMap::new();
    for i in (0..200u128).rev() {
        assert!(index.insert(span(i * 10, i * 10 + 4), i));
    }
    assert_eq!(index.len(), 200);
    for i in 0..200u128 {
        assert_eq!(index.find(i * 10 + 2), Some((span(i * 10, i * 10 + 4), &i)));
        assert!(index.find(i * 10 + 5).is_none());
    }
}
