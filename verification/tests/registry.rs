use graphics::Registry;

#[test]
fn new_registry_is_empty() {
    let registry: Registry<Vec<u8>> = Registry::New();
    assert_eq!(registry.Len(), 0);
    assert_eq!(registry.Get(&String::from("V")), None);
    assert!(!registry.Contains(&String::from("V")));
}

#[test]
fn submit_registers_under_label() {
    let mut registry: Registry<Vec<u8>> = Registry::New();
    registry.Submit(String::from("V"), vec![1, 2, 3]);
    assert_eq!(registry.Len(), 1);
    assert!(registry.Contains(&String::from("V")));
    assert_eq!(registry.Get(&String::from("V")), Some(&vec![1, 2, 3]));
    assert_eq!(registry.Get(&String::from("W")), None);
}

#[test]
fn submit_twice_keeps_one_entry_with_second_content() {
    let mut registry: Registry<Vec<u8>> = Registry::New();
    registry.Submit(String::from("V"), vec![1, 2, 3]);
    registry.Submit(String::from("V"), vec![4, 5, 6]);
    assert_eq!(registry.Len(), 1);
    assert_eq!(registry.Get(&String::from("V")), Some(&vec![4, 5, 6]));
}

#[test]
fn distinct_labels_keep_distinct_entries() {
    let mut registry: Registry<u32> = Registry::New();
    registry.Submit(String::from("A"), 1);
    registry.Submit(String::from("B"), 2);
    registry.Submit(String::from("C"), 3);
    registry.Submit(String::from("B"), 20);
    assert_eq!(registry.Len(), 3);
    assert_eq!(registry.Get(&String::from("A")), Some(&1));
    assert_eq!(registry.Get(&String::from("B")), Some(&20));
    assert_eq!(registry.Get(&String::from("C")), Some(&3));
}

#[test]
fn empty_label_is_a_label_like_any_other() {
    let mut registry: Registry<u32> = Registry::New();
    registry.Submit(String::new(), 7);
    assert_eq!(registry.Len(), 1);
    assert_eq!(registry.Get(&String::new()), Some(&7));
    assert_eq!(registry.Get(&String::from("x")), None);
}
