use tauri_plugin_deno::FunctionRegistry;

#[test]
fn empty_registry_has_nothing() {
    let r: FunctionRegistry<u32> = FunctionRegistry::new();
    assert!(!r.contains(&"double".to_string()));
    assert_eq!(r.get(&"double".to_string()), None);
}

#[test]
fn registered_names_are_found() {
    let mut r = FunctionRegistry::new();
    r.insert("double".to_string(), 1u32);
    r.insert("triple".to_string(), 2u32);
    assert!(r.contains(&"double".to_string()));
    assert_eq!(r.get(&"double".to_string()), Some(&1));
    assert_eq!(r.get(&"triple".to_string()), Some(&2));
    assert_eq!(r.get(&"quadruple".to_string()), None);
}

#[test]
fn registering_again_replaces_the_handle() {
    let mut r = FunctionRegistry::new();
    r.insert("double".to_string(), 1u32);
    r.insert("triple".to_string(), 2u32);
    r.insert("double".to_string(), 7u32);
    assert_eq!(r.get(&"double".to_string()), Some(&7));
    assert_eq!(r.get(&"triple".to_string()), Some(&2));
}
