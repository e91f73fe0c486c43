use arcade_engine::query::{matching_ids, QueryIter};

fn collect_ids<A, B>(a: &Vec<Option<A>>, b: &Vec<Option<B>>) -> Vec<u32> {
    let mut it = QueryIter::new(a, b);
    let mut ids = Vec::new();
    while let Some((id, _, _)) = it.next() {
        ids.push(id.0);
    }
    ids
}

#[test]
fn yields_only_pairs_in_index_order() {
    let a = vec![Some(10), None, Some(30), Some(40)];
    let b = vec![Some(1), Some(2), None, Some(4)];
    let ids: Vec<u32> = collect_ids(&a, &b);

    assert_eq!(ids, vec![0, 3]);
}

#[test]
fn stops_at_shorter_storage_len() {
    let a = vec![Some(1), Some(2), Some(3)];
    let b = vec![Some(10)];
    let ids: Vec<u32> = collect_ids(&a, &b);

    assert_eq!(ids, vec![0]);
}

#[test]
fn query_hands_out_both_values() {
    let a = vec![None, Some("x"), Some("y")];
    let b = vec![Some(7), Some(8), Some(9)];
    let mut it = QueryIter::new(&a, &b);

    let (id, left, right) = it.next().unwrap();
    assert_eq!((id.0, *left, *right), (1, "x", 8));
    let (id, left, right) = it.next().unwrap();
    assert_eq!((id.0, *left, *right), (2, "y", 9));
    assert!(it.next().is_none());
    assert!(it.next().is_none());
}

#[test]
fn query_over_empty_storages_yields_nothing() {
    let a: Vec<Option<i32>> = Vec::new();
    let b = vec![Some(1)];
    assert!(collect_ids(&a, &b).is_empty());
    assert!(matching_ids(&a, &b).is_empty());
}

#[test]
fn matching_ids_lists_common_slots_ascending() {
    let a = vec![Some(1), Some(2), None, Some(4), Some(5), Some(6)];
    let b = vec![None, Some('b'), Some('c'), Some('d'), None];
    let ids: Vec<u32> = matching_ids(&a, &b).iter().map(|id| id.0).collect();
    assert_eq!(ids, vec![1, 3]);
}
