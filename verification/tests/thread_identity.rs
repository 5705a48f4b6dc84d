use papi_bindings::thread_registry::ThreadRegistry;

#[test]
fn identities_are_assigned_in_allocation_order() {
    let mut r = ThreadRegistry::new();
    assert_eq!(r.identity(100), 0);
    assert_eq!(r.identity(200), 1);
    assert_eq!(r.identity(300), 2);
    assert_eq!(r.count(), 3);
}

#[test]
fn identity_is_stable_once_assigned() {
    let mut r = ThreadRegistry::new();
    assert_eq!(r.identity(10), 0);
    assert_eq!(r.identity(20), 1);
    assert_eq!(r.identity(10), 0);
    assert_eq!(r.identity(30), 2);
    assert_eq!(r.identity(20), 1);
    assert_eq!(r.identity(10), 0);
    assert_eq!(r.count(), 3);
}

#[test]
fn identities_have_no_duplicates() {
    // Any interleaving of first requests by distinct threads yields
    // pairwise distinct identities covering 0..n.
    let keys: [u64; 8] = [9, 4, 7, 1, 8, 2, 6, 3];
    let mut r = ThreadRegistry::new();
    let mut ids: Vec<u64> = Vec::new();
    for k in keys {
        ids.push(r.identity(k));
    }
    for i in 0..ids.len() {
        assert!(ids[i] < keys.len() as u64);
        for j in 0..i {
            assert_ne!(ids[i], ids[j]);
        }
    }
}

#[test]
fn repeated_requests_do_not_grow_the_registry() {
    let mut r = ThreadRegistry::new();
    for _ in 0..5 {
        assert_eq!(r.identity(42), 0);
    }
    assert_eq!(r.count(), 1);
}
