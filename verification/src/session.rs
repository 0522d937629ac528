//! The per-connection state machine: each accepted connection moves from
//! `Accepted` through an optional TLS handshake and an outbound dial to the
//! relay, and ends `Closed`. The machine decides; the surrounding runtime
//! performs the commanded action (handshake, dial, relay, release) and hands
//! the outcome back as the next event.
use vstd::prelude::*;

verus! {

/// Where one accepted connection stands.
#[derive(Debug, PartialEq, Eq, Structural, Clone, Copy)]
pub enum ConnState {
    /// The inbound stream was just accepted.
    Accepted,
    /// The server side of the TLS handshake is in flight.
    TlsHandshaking,
    /// The outbound dial to the fixed upstream is in flight.
    Connected,
    /// Bytes are being copied in both directions.
    Relaying,
    /// Terminal: both streams are released.
    Closed,
}

/// What the runtime reports back about the action it performed.
#[derive(Debug, PartialEq, Eq, Structural, Clone, Copy)]
pub enum ConnEvent {
    HandshakeOk,
    HandshakeFailed,
    DialOk,
    DialFailed,
    RelayFinished,
}

/// What the runtime is to do next for this connection.
#[derive(Debug, PartialEq, Eq, Structural, Clone, Copy)]
pub enum ConnAction {
    /// Run the server side of the TLS handshake on the inbound stream.
    Handshake,
    /// Dial the fixed upstream address.
    Dial,
    /// Run the bidirectional relay between the two streams.
    Relay,
    /// Release both stream halves; the connection is over.
    Close,
    /// Nothing: the event did not belong to the current state.
    Ignore,
}

/// The state and action a fresh connection starts with: a TLS listener first
/// runs the handshake, a plaintext one dials the upstream at once.
pub open spec fn spec_conn_start(tls: bool) -> (ConnState, ConnAction) {
    if tls {
        (ConnState::TlsHandshaking, ConnAction::Handshake)
    } else {
        (ConnState::Connected, ConnAction::Dial)
    }
}

/// One transition of the per-connection machine. Failure of the handshake or
/// of the dial closes this connection and commands nothing but the release of
/// its own resources; an event that does not belong to the state is ignored.
pub open spec fn spec_conn_step(s: ConnState, e: ConnEvent) -> (ConnState, ConnAction) {
    match (s, e) {
        (ConnState::TlsHandshaking, ConnEvent::HandshakeOk) => (ConnState::Connected, ConnAction::Dial),
        (ConnState::TlsHandshaking, ConnEvent::HandshakeFailed) => (ConnState::Closed, ConnAction::Close),
        (ConnState::Connected, ConnEvent::DialOk) => (ConnState::Relaying, ConnAction::Relay),
        (ConnState::Connected, ConnEvent::DialFailed) => (ConnState::Closed, ConnAction::Close),
        (ConnState::Relaying, ConnEvent::RelayFinished) => (ConnState::Closed, ConnAction::Close),
        _ => (s, ConnAction::Ignore),
    }
}

/// Entry point of the machine, as the accept loop calls it.
pub fn conn_start(tls: bool) -> (r: (ConnState, ConnAction))
    ensures
        r == spec_conn_start(tls),
{
    if tls {
        (ConnState::TlsHandshaking, ConnAction::Handshake)
    } else {
        (ConnState::Connected, ConnAction::Dial)
    }
}

/// One transition, as the connection's task calls it after each completed
/// action.
pub fn conn_step(s: ConnState, e: ConnEvent) -> (r: (ConnState, ConnAction))
    ensures
        r == spec_conn_step(s, e),
{
    match (s, e) {
        (ConnState::TlsHandshaking, ConnEvent::HandshakeOk) => (ConnState::Connected, ConnAction::Dial),
        (ConnState::TlsHandshaking, ConnEvent::HandshakeFailed) => (ConnState::Closed, ConnAction::Close),
        (ConnState::Connected, ConnEvent::DialOk) => (ConnState::Relaying, ConnAction::Relay),
        (ConnState::Connected, ConnEvent::DialFailed) => (ConnState::Closed, ConnAction::Close),
        (ConnState::Relaying, ConnEvent::RelayFinished) => (ConnState::Closed, ConnAction::Close),
        _ => (s, ConnAction::Ignore),
    }
}

/// TLS gate: while the handshake is in flight, only its success ever commands
/// the outbound dial; a failed handshake closes the connection at once, so a
/// plaintext probe that cannot complete the handshake never reaches the
/// upstream. A closed connection stays closed and commands nothing further.
pub proof fn lemma_tls_gate(e: ConnEvent)
    ensures
        spec_conn_step(ConnState::TlsHandshaking, e).1 == ConnAction::Dial ==> e == ConnEvent::HandshakeOk,
        spec_conn_step(ConnState::TlsHandshaking, ConnEvent::HandshakeFailed) == (ConnState::Closed, ConnAction::Close),
        spec_conn_step(ConnState::Closed, e).0 == ConnState::Closed,
        spec_conn_step(ConnState::Closed, e).1 != ConnAction::Dial,
        spec_conn_step(ConnState::Closed, e).1 != ConnAction::Relay,
{
}

/// The whole server as the machine sees it: the set of bound listener ports,
/// fixed after startup, and the state of every connection accepted so far.
pub struct ServerModel {
    pub ports: Seq<u16>,
    pub conns: Seq<ConnState>,
}

/// Accepting a connection adds one machine in its starting state and touches
/// nothing else.
pub open spec fn spec_server_accept(s: ServerModel, tls: bool) -> ServerModel {
    ServerModel { ports: s.ports, conns: s.conns.push(spec_conn_start(tls).0) }
}

/// An event for connection `i` steps that connection's machine alone.
pub open spec fn spec_server_conn_event(s: ServerModel, i: int, e: ConnEvent) -> ServerModel {
    ServerModel { ports: s.ports, conns: s.conns.update(i, spec_conn_step(s.conns[i], e).0) }
}

/// Failure containment: an event on one connection — a failed upstream dial
/// included — leaves every listener bound and every other connection exactly
/// as it was, and the server still accepts new connections afterwards.
pub proof fn lemma_failure_containment(s: ServerModel, i: int, e: ConnEvent, tls: bool)
    requires
        0 <= i < s.conns.len(),
    ensures
        ({
            let stepped = spec_server_conn_event(s, i, e);
            &&& stepped.ports == s.ports
            &&& stepped.conns.len() == s.conns.len()
            &&& forall|j: int| 0 <= j < s.conns.len() && j != i ==> stepped.conns[j] == s.conns[j]
            &&& spec_server_accept(stepped, tls).ports == s.ports
            &&& spec_server_accept(stepped, tls).conns.len() == s.conns.len() + 1
            &&& spec_server_accept(stepped, tls).conns.last() == spec_conn_start(tls).0
        }),
{
}

} // verus!
