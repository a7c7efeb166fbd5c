//! Per-connection lifecycle: the state machine that every accepted stream
//! walks from acceptance to a terminal state, and the actions its
//! transitions demand of the surrounding I/O layer.
//!
//! The machine itself is pure: it maps a state and an observed event to the
//! next state and the one action owed for the transition.  The I/O layer
//! performs the action (handshake, pool registration, pool release, stream
//! closure) and feeds the outcome back as the next event.

use vstd::prelude::*;

use crate::pool::ConnectionRecord;

verus! {

/// The lifecycle phases of one connection.  `Released`, `Evicted` and
/// `Failed` are terminal.
#[derive(Clone, Copy, PartialEq, Eq, Structural, Debug)]
pub enum LifecycleState {
    /// A raw stream was obtained; nothing has happened on it yet.
    Accepted,
    /// The cryptographic handshake is under way.
    HandshakeInProgress,
    /// The handshake succeeded; the connection is registered and serving.
    Active,
    /// Serving finished normally and the record was released from the pool.
    Released,
    /// The pool evicted the record to make room for a newer connection.
    Evicted,
    /// The handshake or serving failed, or the task was cancelled.
    Failed,
}

/// What one lifecycle task can observe happening to its connection.
#[derive(Clone, Copy, PartialEq, Eq, Structural, Debug)]
pub enum ConnectionEvent {
    /// The handshake is being started on the raw stream.
    HandshakeStarted,
    /// The handshake produced an encrypted stream.
    HandshakeSucceeded,
    /// The handshake failed: protocol mismatch, bad certificate, or an I/O
    /// error during negotiation.
    HandshakeFailed,
    /// The serving loop completed without protocol error.
    ServeFinished,
    /// An I/O or dispatcher error occurred while serving.
    IoFailed,
    /// The pool evicted this connection on another connection's insert.
    EvictionNotified,
    /// The task was cancelled, or a timeout fired.
    Cancelled,
}

/// The one action a transition obliges the I/O layer to perform before it
/// reports the next event.
#[derive(Clone, Copy, PartialEq, Eq, Structural, Debug)]
pub enum LifecycleAction {
    /// Nothing to do; also the answer to an event that the current state
    /// cannot observe.
    DoNothing,
    /// Perform the handshake on the raw stream.
    BeginHandshake,
    /// Insert the connection's record into the pool at the MRU position.
    RegisterConnection,
    /// Remove the record from the pool, then close the stream.
    ReleaseConnection,
    /// Close the stream; the pool holds no record for it (the handshake
    /// never registered one, or eviction already removed it).
    CloseStream,
}

/// True for the states no event may leave.
pub open spec fn is_terminal(s: LifecycleState) -> bool {
    s == LifecycleState::Released || s == LifecycleState::Evicted || s == LifecycleState::Failed
}

/// The full transition table.  Pairs not listed leave the state unchanged
/// and demand nothing; in particular the three terminal states absorb
/// every event.
pub open spec fn spec_step(s: LifecycleState, e: ConnectionEvent) -> (
    LifecycleState,
    LifecycleAction,
) {
    match (s, e) {
        (LifecycleState::Accepted, ConnectionEvent::HandshakeStarted) => (
            LifecycleState::HandshakeInProgress,
            LifecycleAction::BeginHandshake,
        ),
        (LifecycleState::Accepted, ConnectionEvent::Cancelled) => (
            LifecycleState::Failed,
            LifecycleAction::CloseStream,
        ),
        (LifecycleState::HandshakeInProgress, ConnectionEvent::HandshakeSucceeded) => (
            LifecycleState::Active,
            LifecycleAction::RegisterConnection,
        ),
        (LifecycleState::HandshakeInProgress, ConnectionEvent::HandshakeFailed) => (
            LifecycleState::Failed,
            LifecycleAction::CloseStream,
        ),
        (LifecycleState::HandshakeInProgress, ConnectionEvent::Cancelled) => (
            LifecycleState::Failed,
            LifecycleAction::CloseStream,
        ),
        (LifecycleState::Active, ConnectionEvent::ServeFinished) => (
            LifecycleState::Released,
            LifecycleAction::ReleaseConnection,
        ),
        (LifecycleState::Active, ConnectionEvent::IoFailed) => (
            LifecycleState::Failed,
            LifecycleAction::ReleaseConnection,
        ),
        (LifecycleState::Active, ConnectionEvent::EvictionNotified) => (
            LifecycleState::Evicted,
            LifecycleAction::CloseStream,
        ),
        (LifecycleState::Active, ConnectionEvent::Cancelled) => (
            LifecycleState::Failed,
            LifecycleAction::ReleaseConnection,
        ),
        _ => (s, LifecycleAction::DoNothing),
    }
}

/// Advance one connection's lifecycle by one observed event.
pub fn step(state: LifecycleState, event: ConnectionEvent) -> (r: (
    LifecycleState,
    LifecycleAction,
))
    ensures
        r == spec_step(state, event),
{
    match (state, event) {
        (LifecycleState::Accepted, ConnectionEvent::HandshakeStarted) => (
            LifecycleState::HandshakeInProgress,
            LifecycleAction::BeginHandshake,
        ),
        (LifecycleState::Accepted, ConnectionEvent::Cancelled) => (
            LifecycleState::Failed,
            LifecycleAction::CloseStream,
        ),
        (LifecycleState::HandshakeInProgress, ConnectionEvent::HandshakeSucceeded) => (
            LifecycleState::Active,
            LifecycleAction::RegisterConnection,
        ),
        (LifecycleState::HandshakeInProgress, ConnectionEvent::HandshakeFailed) => (
            LifecycleState::Failed,
            LifecycleAction::CloseStream,
        ),
        (LifecycleState::HandshakeInProgress, ConnectionEvent::Cancelled) => (
            LifecycleState::Failed,
            LifecycleAction::CloseStream,
        ),
        (LifecycleState::Active, ConnectionEvent::ServeFinished) => (
            LifecycleState::Released,
            LifecycleAction::ReleaseConnection,
        ),
        (LifecycleState::Active, ConnectionEvent::IoFailed) => (
            LifecycleState::Failed,
            LifecycleAction::ReleaseConnection,
        ),
        (LifecycleState::Active, ConnectionEvent::EvictionNotified) => (
            LifecycleState::Evicted,
            LifecycleAction::CloseStream,
        ),
        (LifecycleState::Active, ConnectionEvent::Cancelled) => (
            LifecycleState::Failed,
            LifecycleAction::ReleaseConnection,
        ),
        _ => (state, LifecycleAction::DoNothing),
    }
}

/// Law: a terminal state absorbs every event: nothing leaves `Released`,
/// `Evicted` or `Failed`, and no further action is ever demanded, so a
/// finished connection can never be registered or released twice.
pub proof fn lemma_terminal_states_absorb(s: LifecycleState, e: ConnectionEvent)
    requires
        is_terminal(s),
    ensures
        spec_step(s, e) == (s, LifecycleAction::DoNothing),
{
}

/// Law: pool registration is demanded exactly on a successful handshake,
/// so a failed handshake — or any other transition — never registers a
/// record.
pub proof fn lemma_registration_needs_handshake(s: LifecycleState, e: ConnectionEvent)
    ensures
        spec_step(s, e).1 == LifecycleAction::RegisterConnection <==> (s
            == LifecycleState::HandshakeInProgress && e == ConnectionEvent::HandshakeSucceeded),
{
}

/// Law: the pool is asked to release a record only out of `Active`, the
/// one state in which the record is registered; and an evicted connection
/// only closes its stream, since the pool already dropped its record on
/// the insert that evicted it.
pub proof fn lemma_release_discipline(s: LifecycleState, e: ConnectionEvent)
    ensures
        spec_step(s, e).1 == LifecycleAction::ReleaseConnection ==> s == LifecycleState::Active,
        spec_step(s, e).0 == LifecycleState::Evicted && s != LifecycleState::Evicted ==> (s
            == LifecycleState::Active && spec_step(s, e).1 == LifecycleAction::CloseStream),
{
}

/// Relies on uuid::Uuid::new_v4: draws a fresh random version-4 identifier.
/// The value is random, so nothing is promised of it.
#[verifier::external_body]
fn fresh_connection_id() -> (id: u128) {
    uuid::Uuid::new_v4().as_u128()
}

/// Open the lifecycle of a freshly accepted stream: assign an identifier
/// and stamp the record with the acceptance time.  The record starts in
/// the `Accepted` state; it is registered into the pool only after the
/// handshake succeeds.
pub fn open_connection(now: u64) -> (rec: ConnectionRecord)
    ensures
        rec.created_at == now,
        rec.last_used == now,
        rec.state == LifecycleState::Accepted,
{
    let id = fresh_connection_id();
    ConnectionRecord { id, created_at: now, last_used: now, state: LifecycleState::Accepted }
}

/// The record as the pool registers it when the handshake succeeds: same
/// identifier and creation time, last-used time refreshed, state `Active`.
pub fn activate_record(rec: ConnectionRecord, now: u64) -> (r: ConnectionRecord)
    ensures
        r.id == rec.id,
        r.created_at == rec.created_at,
        r.last_used == now,
        r.state == LifecycleState::Active,
{
    ConnectionRecord { id: rec.id, created_at: rec.created_at, last_used: now, state: LifecycleState::Active }
}

} // verus!
