use frame_texture::registry::TextureRegistry;

#[test]
fn new_registry_is_empty() {
    let reg: TextureRegistry<String> = TextureRegistry::new();
    assert_eq!(reg.len(), 0);
    assert!(!reg.contains(1));
    assert!(reg.get(1).is_none());
}

#[test]
fn insert_then_lookup() {
    let mut reg = TextureRegistry::new();
    assert_eq!(reg.insert(7, "seven".to_string()), None);
    assert!(reg.contains(7));
    assert_eq!(reg.get(7), Some(&"seven".to_string()));
    assert_eq!(reg.len(), 1);
}

#[test]
fn recreating_an_identifier_replaces_the_entry() {
    let mut reg = TextureRegistry::new();
    reg.insert(7, 1u32);
    assert_eq!(reg.insert(7, 2u32), Some(1));
    assert_eq!(reg.get(7), Some(&2));
    assert_eq!(reg.len(), 1);
}

#[test]
fn remove_takes_the_handle_out() {
    let mut reg = TextureRegistry::new();
    reg.insert(3, 30u32);
    reg.insert(4, 40u32);
    assert_eq!(reg.remove(3), Some(30));
    assert_eq!(reg.remove(3), None);
    assert!(!reg.contains(3));
    assert!(reg.contains(4));
    assert_eq!(reg.len(), 1);
}

#[test]
fn n_distinct_creations_register_n_identifiers() {
    let ids: Vec<i64> = vec![7, -2, 100, 0, i64::MAX, i64::MIN];
    let mut reg = TextureRegistry::new();
    for (k, id) in ids.iter().enumerate() {
        reg.insert(*id, k);
    }
    assert_eq!(reg.len(), ids.len());
    for (k, id) in ids.iter().enumerate() {
        assert_eq!(reg.get(*id), Some(&k));
    }
}
