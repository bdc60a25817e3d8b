use storyos_adapter_postgres::tree_order::{
    check_volume_storage_update, reordered_sibling_ranks, sorted_storage_keys, volume_storage_assignment, volume_storage_order,
};

fn ids(names: &[&str]) -> Vec<String> {
    names.iter().map(|n| n.to_string()).collect()
}

#[test]
fn moving_last_sibling_to_front_rewrites_all_ranks() {
    let siblings = ids(&["a", "b", "c", "d", "e"]);
    let ranks = reordered_sibling_ranks(&siblings, 5, 1).unwrap();
    assert_eq!(
        ranks,
        vec![("e".to_owned(), 1), ("a".to_owned(), 2), ("b".to_owned(), 3), ("c".to_owned(), 4), ("d".to_owned(), 5)]
    );
}

#[test]
fn moving_first_of_seven_to_last() {
    let siblings = ids(&["c1", "c2", "c3", "c4", "c5", "c6", "c7"]);
    let ranks = reordered_sibling_ranks(&siblings, 1, 7).unwrap();
    let order: Vec<&str> = ranks.iter().map(|(id, _)| id.as_str()).collect();
    assert_eq!(order, vec!["c2", "c3", "c4", "c5", "c6", "c7", "c1"]);
    assert_eq!(ranks.iter().map(|(_, r)| *r).collect::<Vec<_>>(), vec![1, 2, 3, 4, 5, 6, 7]);
}

#[test]
fn unchanged_order_rewrites_nothing() {
    let siblings = ids(&["a", "b"]);
    assert_eq!(reordered_sibling_ranks(&siblings, 2, 2), None);
}

#[test]
fn moving_back_restores_the_order() {
    let siblings = ids(&["a", "b", "c", "d"]);
    let moved: Vec<String> = reordered_sibling_ranks(&siblings, 1, 3).unwrap().into_iter().map(|(id, _)| id).collect();
    let back: Vec<String> = reordered_sibling_ranks(&moved, 3, 1).unwrap().into_iter().map(|(id, _)| id).collect();
    assert_eq!(back, siblings);
}

#[test]
fn storage_keys_sort_ascending() {
    assert_eq!(sorted_storage_keys(&vec![30, -2, 7, 7, 1]), vec![-2, 1, 7, 7, 30]);
    assert_eq!(sorted_storage_keys(&Vec::new()), Vec::<i64>::new());
}

#[test]
fn volume_storage_keys_follow_the_new_order() {
    let assigned = volume_storage_assignment(&ids(&["v3", "v1", "v2"]), &vec![20, 5, 40]);
    assert_eq!(assigned, vec![("v3".to_owned(), 5), ("v1".to_owned(), 20), ("v2".to_owned(), 40)]);
}

#[test]
fn volume_storage_order_refuses_ids_that_are_not_live_volumes() {
    let ordered = ids(&["v2", "v1", "gone"]);
    assert_eq!(volume_storage_order(&ordered, &vec![10, 30]), Err("live Volume set changed under FOR UPDATE".to_owned()));
    let ordered = ids(&["v3", "v1"]);
    assert_eq!(
        volume_storage_order(&ordered, &vec![30, 10]),
        Ok(vec![("v3".to_owned(), 10), ("v1".to_owned(), 30)])
    );
    assert_eq!(check_volume_storage_update(2, 2), Ok(()));
    assert_eq!(check_volume_storage_update(1, 2), Err("live Volume set changed under FOR UPDATE".to_owned()));
}
