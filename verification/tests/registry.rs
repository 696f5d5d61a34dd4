use trusttrove::registry::MockRegistry;

#[test]
fn unregistered_address_is_not_verified() {
    let registry = MockRegistry::new();
    assert!(!registry.is_verified(&"GISSUER".to_string()));
}

#[test]
fn registered_address_is_verified() {
    let mut registry = MockRegistry::new();
    registry.register("GISSUER".to_string());
    registry.register("GBUYER".to_string());
    assert!(registry.is_verified(&"GISSUER".to_string()));
    assert!(registry.is_verified(&"GBUYER".to_string()));
    assert!(!registry.is_verified(&"GLP".to_string()));
}

#[test]
fn registering_twice_keeps_address_verified() {
    let mut registry = MockRegistry::new();
    registry.register("GISSUER".to_string());
    registry.register("GISSUER".to_string());
    assert!(registry.is_verified(&"GISSUER".to_string()));
    assert!(!registry.is_verified(&"GBUYER".to_string()));
}
