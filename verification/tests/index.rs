use media_catalog::lookup::DuplicateIndex;

fn members(index: &DuplicateIndex) -> Vec<(String, Vec<usize>)> {
    index.buckets().iter().map(|b| (b.hash.clone(), b.members.clone())).collect()
}

#[test]
fn new_index_is_empty() {
    let index = DuplicateIndex::new();
    assert!(index.is_empty());
    assert_eq!(index.len(), 0);
    assert_eq!(index.get("abc"), None);
    assert!(index.buckets().is_empty());
}

#[test]
fn insert_groups_by_digest_in_order_of_arrival() {
    let mut index = DuplicateIndex::new();
    index.insert("bb", 0);
    index.insert("aa", 1);
    index.insert("bb", 2);
    index.insert("cc", 3);
    index.insert("aa", 4);
    index.insert("bb", 7);
    assert_eq!(index.len(), 3);
    assert!(!index.is_empty());
    assert_eq!(
        members(&index),
        vec![
            ("bb".to_string(), vec![0, 2, 7]),
            ("aa".to_string(), vec![1, 4]),
            ("cc".to_string(), vec![3]),
        ]
    );
    assert_eq!(index.get("bb"), Some(&vec![0, 2, 7]));
    assert_eq!(index.get("aa"), Some(&vec![1, 4]));
    assert_eq!(index.get("cc"), Some(&vec![3]));
    assert_eq!(index.get("dd"), None);
    assert_eq!(index.get(""), None);
}

#[test]
fn insert_without_digest_changes_nothing() {
    let mut index = DuplicateIndex::new();
    index.insert("", 0);
    assert!(index.is_empty());
    index.insert("aa", 1);
    index.insert("", 2);
    assert_eq!(members(&index), vec![("aa".to_string(), vec![1])]);
    assert_eq!(index.get(""), None);
}

#[test]
fn digests_are_compared_whole() {
    let mut index = DuplicateIndex::new();
    index.insert("a", 0);
    index.insert("aa", 1);
    index.insert("A", 2);
    assert_eq!(index.len(), 3);
    assert_eq!(index.get("a"), Some(&vec![0]));
    assert_eq!(index.get("aa"), Some(&vec![1]));
    assert_eq!(index.get("A"), Some(&vec![2]));
}
