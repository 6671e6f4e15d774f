use razer::connections::{closed, open, Endpoint, Registry};

fn endpoint(token: usize, connection_id: u32) -> Endpoint {
    Endpoint { token, connection_id }
}

#[test]
fn new_registry_is_empty() {
    let registry = Registry::new();
    assert_eq!(registry.len(), 0);
    assert!(registry.snapshot().is_empty());
    assert!(registry.is_closed(0));
    assert!(!registry.is_open(0));
}

#[test]
fn registered_connection_is_open() {
    let mut registry = Registry::new();
    registry.register(endpoint(1, 7));
    assert!(registry.is_open(1));
    assert!(!registry.is_closed(1));
    assert_eq!(registry.resolve(1), Some(endpoint(1, 7)));
    assert_eq!(registry.len(), 1);
}

#[test]
fn open_is_never_closed() {
    let mut registry = Registry::new();
    registry.register(endpoint(1, 10));
    registry.register(endpoint(3, 11));
    registry.deregister(3);
    for token in 0..6 {
        assert_eq!(registry.is_open(token), !registry.is_closed(token));
        let ctx = endpoint(token, 0);
        assert_eq!(open(&registry, &ctx), !closed(&registry, &ctx));
        assert_eq!(open(&registry, &ctx), registry.is_open(token));
    }
}

#[test]
fn liveness_goes_by_the_token() {
    let mut registry = Registry::new();
    registry.register(endpoint(4, 9));
    assert!(open(&registry, &endpoint(4, 9)));
    assert!(open(&registry, &endpoint(4, 1)));
    assert!(closed(&registry, &endpoint(5, 9)));
}

#[test]
fn register_then_deregister_leaves_no_trace() {
    let mut registry = Registry::new();
    registry.register(endpoint(2, 20));
    let before = registry.snapshot();
    registry.register(endpoint(1, 10));
    registry.deregister(1);
    assert!(registry.is_closed(1));
    assert_eq!(registry.resolve(1), None);
    assert_eq!(registry.len(), 1);
    assert_eq!(registry.snapshot(), before);
    assert_eq!(registry.resolve(2), Some(endpoint(2, 20)));
}

#[test]
fn registering_again_overwrites() {
    let mut registry = Registry::new();
    registry.register(endpoint(1, 10));
    registry.register(endpoint(1, 11));
    assert_eq!(registry.len(), 1);
    assert_eq!(registry.resolve(1), Some(endpoint(1, 11)));
}

#[test]
fn deregistering_a_stranger_changes_nothing() {
    let mut registry = Registry::new();
    registry.register(endpoint(1, 10));
    registry.deregister(2);
    assert_eq!(registry.len(), 1);
    assert!(registry.is_open(1));
}

#[test]
fn snapshot_holds_every_connection_once() {
    let mut registry = Registry::new();
    registry.register(endpoint(1, 10));
    registry.register(endpoint(2, 20));
    registry.register(endpoint(3, 30));
    let mut targets = registry.snapshot();
    targets.sort_by_key(|target| target.token);
    assert_eq!(targets, vec![endpoint(1, 10), endpoint(2, 20), endpoint(3, 30)]);
}

#[test]
fn snapshot_is_a_copy() {
    let mut registry = Registry::new();
    registry.register(endpoint(1, 10));
    let targets = registry.snapshot();
    registry.register(endpoint(2, 20));
    registry.deregister(1);
    assert_eq!(targets, vec![endpoint(1, 10)]);
}
