use proxy_pool::lifecycle::{
    activate_record, open_connection, step, ConnectionEvent, LifecycleAction, LifecycleState,
};
use proxy_pool::pool::LruConnectionPool;

#[test]
fn happy_path_walks_accept_to_released() {
    let (s1, a1) = step(LifecycleState::Accepted, ConnectionEvent::HandshakeStarted);
    assert_eq!(s1, LifecycleState::HandshakeInProgress);
    assert_eq!(a1, LifecycleAction::BeginHandshake);
    let (s2, a2) = step(s1, ConnectionEvent::HandshakeSucceeded);
    assert_eq!(s2, LifecycleState::Active);
    assert_eq!(a2, LifecycleAction::RegisterConnection);
    let (s3, a3) = step(s2, ConnectionEvent::ServeFinished);
    assert_eq!(s3, LifecycleState::Released);
    assert_eq!(a3, LifecycleAction::ReleaseConnection);
}

#[test]
fn handshake_failure_closes_without_registering() {
    let (s1, _) = step(LifecycleState::Accepted, ConnectionEvent::HandshakeStarted);
    let (s2, a2) = step(s1, ConnectionEvent::HandshakeFailed);
    assert_eq!(s2, LifecycleState::Failed);
    assert_eq!(a2, LifecycleAction::CloseStream);
}

#[test]
fn serving_io_error_fails_and_releases() {
    let (s, a) = step(LifecycleState::Active, ConnectionEvent::IoFailed);
    assert_eq!(s, LifecycleState::Failed);
    assert_eq!(a, LifecycleAction::ReleaseConnection);
}

#[test]
fn cancellation_always_reaches_a_terminal_state() {
    for start in [
        LifecycleState::Accepted,
        LifecycleState::HandshakeInProgress,
        LifecycleState::Active,
    ] {
        let (s, a) = step(start, ConnectionEvent::Cancelled);
        assert_eq!(s, LifecycleState::Failed);
        if start == LifecycleState::Active {
            assert_eq!(a, LifecycleAction::ReleaseConnection);
        } else {
            assert_eq!(a, LifecycleAction::CloseStream);
        }
    }
}

#[test]
fn terminal_states_absorb_every_event() {
    let terminals = [LifecycleState::Released, LifecycleState::Evicted, LifecycleState::Failed];
    let events = [
        ConnectionEvent::HandshakeStarted,
        ConnectionEvent::HandshakeSucceeded,
        ConnectionEvent::HandshakeFailed,
        ConnectionEvent::ServeFinished,
        ConnectionEvent::IoFailed,
        ConnectionEvent::EvictionNotified,
        ConnectionEvent::Cancelled,
    ];
    for s in terminals {
        for e in events {
            let (next, action) = step(s, e);
            assert_eq!(next, s);
            assert_eq!(action, LifecycleAction::DoNothing);
        }
    }
}

#[test]
fn open_connection_stamps_record() {
    let rec = open_connection(42);
    assert_eq!(rec.created_at, 42);
    assert_eq!(rec.last_used, 42);
    assert_eq!(rec.state, LifecycleState::Accepted);
    let other = open_connection(42);
    // identifiers are drawn at random; two draws colliding would mean the
    // generator is not drawing at all
    assert_ne!(rec.id, other.id);
}

#[test]
fn activate_record_keeps_identity_and_refreshes_use() {
    let rec = open_connection(42);
    let active = activate_record(rec, 50);
    assert_eq!(active.id, rec.id);
    assert_eq!(active.created_at, 42);
    assert_eq!(active.last_used, 50);
    assert_eq!(active.state, LifecycleState::Active);
}

#[test]
fn failed_handshake_leaves_other_connections_unaffected() {
    // One accepted stream fails its handshake; an independent stream still
    // completes its handshake, registers, serves and releases.
    let mut pool = LruConnectionPool::new(2);

    let first = open_connection(1);
    let (s, _) = step(first.state, ConnectionEvent::HandshakeStarted);
    let (s, a) = step(s, ConnectionEvent::HandshakeFailed);
    assert_eq!(s, LifecycleState::Failed);
    assert_eq!(a, LifecycleAction::CloseStream);
    // no registration ever happened for the failed connection
    assert_eq!(pool.len(), 0);

    let second = open_connection(2);
    let (s2, _) = step(second.state, ConnectionEvent::HandshakeStarted);
    let (s2, a2) = step(s2, ConnectionEvent::HandshakeSucceeded);
    assert_eq!(a2, LifecycleAction::RegisterConnection);
    let active = activate_record(second, 3);
    assert!(pool.insert(active).is_none());
    assert_eq!(pool.len(), 1);
    let (s2, a2) = step(s2, ConnectionEvent::ServeFinished);
    assert_eq!(s2, LifecycleState::Released);
    assert_eq!(a2, LifecycleAction::ReleaseConnection);
    assert_eq!(pool.remove(active.id).unwrap().id, active.id);
    assert_eq!(pool.len(), 0);
}

#[test]
fn eviction_mid_serve_transitions_to_evicted() {
    // A connection evicted while serving moves to Evicted, owes only a
    // stream closure, and no later pool operation finds its identifier.
    let mut pool = LruConnectionPool::new(1);
    let first = activate_record(open_connection(1), 1);
    assert!(pool.insert(first).is_none());

    let second = activate_record(open_connection(2), 2);
    let evicted = pool.insert(second).unwrap();
    assert_eq!(evicted.id, first.id);

    let (s, a) = step(LifecycleState::Active, ConnectionEvent::EvictionNotified);
    assert_eq!(s, LifecycleState::Evicted);
    assert_eq!(a, LifecycleAction::CloseStream);

    assert!(pool.get(first.id, 9).is_none());
    assert!(pool.remove(first.id).is_none());
    assert_eq!(pool.order_ids(), vec![second.id]);
}
