use generic_global_variables::Table;
use generic_global_variables::TypeKey;

#[test]
fn type_keys_identify_types() {
    assert!(TypeKey::of::<u8>() == TypeKey::of::<u8>());
    assert!(TypeKey::of::<u8>() != TypeKey::of::<u16>());
    assert!(TypeKey::of::<String>() == TypeKey::of::<String>());
    assert!(TypeKey::of::<String>() != TypeKey::of::<Vec<u8>>());
}

#[test]
fn type_key_is_stable_across_calls() {
    let first = TypeKey::of::<Vec<u32>>();
    let second = TypeKey::of::<Vec<u32>>();
    assert!(first == second);
    let copied = first;
    assert!(copied == second);
}

#[test]
fn empty_table_finds_nothing() {
    let t = Table::new();
    assert!(t.find(&TypeKey::of::<u8>()).is_none());
    assert!(t.find(&TypeKey::of::<String>()).is_none());
    assert!(t.find(&TypeKey::of::<Vec<u64>>()).is_none());
}
