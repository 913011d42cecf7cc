use sentinel_rs::menu::{consumer_pids, menu_needs_rebuild};

fn consumers(pids: &[u32]) -> Vec<(u32, String, u64)> {
    pids.iter().map(|p| (*p, format!("p{}", p), 1000 - *p as u64)).collect()
}

#[test]
fn pids_in_order() {
    assert_eq!(consumer_pids(&consumers(&[300, 200, 400])), vec![300, 200, 400]);
    assert_eq!(consumer_pids(&Vec::new()), Vec::<u32>::new());
}

#[test]
fn same_pids_need_no_rebuild() {
    assert!(!menu_needs_rebuild(&vec![300, 200], &consumers(&[300, 200])));
    assert!(!menu_needs_rebuild(&vec![], &consumers(&[])));
}

#[test]
fn changed_pids_need_rebuild() {
    assert!(menu_needs_rebuild(&vec![300, 200], &consumers(&[200, 300])));
    assert!(menu_needs_rebuild(&vec![300], &consumers(&[300, 200])));
    assert!(menu_needs_rebuild(&vec![300, 200], &consumers(&[300, 201])));
}
