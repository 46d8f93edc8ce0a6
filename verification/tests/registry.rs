use cosmwasm_std::Storage;
use permit_registry::state::RevokedPermits;
use permit_registry::storage::new_store;

#[test]
fn fresh_permit_not_revoked() {
    let store = new_store();
    assert!(!RevokedPermits::is_permit_revoked(
        &store, "revoked:", "alice", "p1"
    ));
}

#[test]
fn revoke_sets_fact() {
    let mut store = new_store();
    RevokedPermits::revoke_permit(&mut store, "revoked:", "alice", "p1");
    assert!(RevokedPermits::is_permit_revoked(
        &store, "revoked:", "alice", "p1"
    ));
}

#[test]
fn revoke_idempotent() {
    let mut store = new_store();
    RevokedPermits::revoke_permit(&mut store, "revoked:", "alice", "p1");
    RevokedPermits::revoke_permit(&mut store, "revoked:", "alice", "p1");
    assert!(RevokedPermits::is_permit_revoked(
        &store, "revoked:", "alice", "p1"
    ));
}

#[test]
fn revoked_permit_isolated() {
    let mut store = new_store();
    RevokedPermits::revoke_permit(&mut store, "revoked:", "alice", "p1");
    assert!(RevokedPermits::is_permit_revoked(
        &store, "revoked:", "alice", "p1"
    ));
    assert!(!RevokedPermits::is_permit_revoked(
        &store, "revoked:", "alice", "p2"
    ));
    assert!(!RevokedPermits::is_permit_revoked(
        &store, "revoked:", "bob", "p1"
    ));
}

#[test]
fn namespace_separation() {
    let mut store = new_store();
    RevokedPermits::revoke_permit(&mut store, "A", "alice", "p1");
    assert!(RevokedPermits::is_permit_revoked(&store, "A", "alice", "p1"));
    assert!(!RevokedPermits::is_permit_revoked(&store, "B", "alice", "p1"));
}

#[test]
fn concrete_revocation_scenario() {
    let mut store = new_store();
    // A record the registry does not own and must leave untouched.
    store.set(b"unrelated", b"payload");

    assert!(!RevokedPermits::is_permit_revoked(
        &store,
        "revoked:",
        "secret1abc",
        "query-permit"
    ));
    RevokedPermits::revoke_permit(&mut store, "revoked:", "secret1abc", "query-permit");
    assert!(RevokedPermits::is_permit_revoked(
        &store,
        "revoked:",
        "secret1abc",
        "query-permit"
    ));
    RevokedPermits::revoke_permit(&mut store, "revoked:", "secret1abc", "query-permit");
    assert!(RevokedPermits::is_permit_revoked(
        &store,
        "revoked:",
        "secret1abc",
        "query-permit"
    ));

    // The unrelated record is exactly as it was, and the only key the
    // registry wrote is the separator-free concatenation of the three
    // components, holding a non-empty sentinel.
    assert_eq!(store.get(b"unrelated"), Some(b"payload".to_vec()));
    let sentinel = store
        .get(b"revoked:secret1abcquery-permit")
        .expect("the revocation record sits under the concatenated key");
    assert!(!sentinel.is_empty());
}

#[test]
fn key_is_exact_concatenation() {
    let mut store = new_store();
    RevokedPermits::revoke_permit(&mut store, "pre", "ab", "cd");
    assert!(store.get(b"preabcd").is_some());
    // With no separator between the components, a boundary shift between
    // account and permit name aliases to the same key: the documented
    // collision caveat of the key derivation.
    assert!(RevokedPermits::is_permit_revoked(&store, "pre", "a", "bcd"));
}

#[test]
fn key_string_concatenates_components() {
    let key = permit_registry::state::permit_key_string("revoked:", "alice", "p1");
    assert_eq!(key, "revoked:alicep1".to_string());
}
