use vstd::prelude::*;

use crate::driver::{next_state, run_state, DriverState, Event};
use crate::errors::ClientError;

verus! {

/// How establishing a session failed, as the transport reports it. The
/// transport initiates and completes the session in one operation; these
/// cases tell which of the two failed.
#[derive(Debug, Clone, Copy, PartialEq, Eq, Structural)]
pub enum ConnectFailure {
    /// The session URL was not valid.
    InvalidUrl,
    /// Resolving the server name failed.
    DnsLookup,
    /// The server name resolved to no address.
    DnsNotFound,
    /// The connection failed during the handshake.
    Connection,
    /// The server rejected the session request.
    SessionRejected,
    /// A request header used a reserved name.
    ReservedHeader,
    /// The local endpoint can no longer create connections.
    EndpointStopping,
    /// No connection identifier was left for a new connection.
    CidsExhausted,
    /// The server name was malformed.
    InvalidServerName,
    /// The remote address was malformed.
    InvalidRemoteAddress,
}

/// The attempt was refused on the local side before the session request
/// was sent.
pub open spec fn refused_locally(f: ConnectFailure) -> bool {
    !(f is Connection || f is SessionRejected)
}

/// The event for session initiation, given how the connect operation ended
/// (`None` when it succeeded).
pub open spec fn initiation_event_of(r: Option<ConnectFailure>) -> Event {
    match r {
        Some(f) => if refused_locally(f) {
            Event::Failed
        } else {
            Event::Succeeded
        },
        None => Event::Succeeded,
    }
}

/// The event for the wait on the session, given how the connect operation
/// ended (`None` when it succeeded).
pub open spec fn session_event_of(r: Option<ConnectFailure>) -> Event {
    if r is Some {
        Event::Failed
    } else {
        Event::Succeeded
    }
}

impl ConnectFailure {
    /// Whether the attempt was refused locally before the session request
    /// was sent.
    pub fn is_refused_locally(&self) -> (r: bool)
        ensures
            r == refused_locally(*self),
    {
        match self {
            ConnectFailure::Connection => false,
            ConnectFailure::SessionRejected => false,
            _ => true,
        }
    }
}

/// The event to hand the driver for session initiation.
pub fn initiation_event(r: Option<ConnectFailure>) -> (ev: Event)
    ensures
        ev == initiation_event_of(r),
{
    match r {
        Some(f) => if f.is_refused_locally() {
            Event::Failed
        } else {
            Event::Succeeded
        },
        None => Event::Succeeded,
    }
}

/// The event to hand the driver for the wait on the session.
pub fn session_event(r: Option<ConnectFailure>) -> (ev: Event)
    ensures
        ev == session_event_of(r),
{
    match r {
        Some(_) => Event::Failed,
        None => Event::Succeeded,
    }
}

/// After a successful bind, a connect operation that ends with `r` leaves
/// the run with `LocallyClosed` when it was refused locally before the
/// session request was sent, with `TimeOut` when the handshake failed or the
/// server rejected the session, and with an established session
/// when it succeeded.
pub proof fn law_connect_outcome(r: Option<ConnectFailure>)
    ensures
        ({
            let events = seq![Event::Succeeded, initiation_event_of(r), session_event_of(r)];
            match r {
                Some(f) => if refused_locally(f) {
                    run_state(events) == DriverState::Failed(ClientError::LocallyClosed)
                } else {
                    run_state(events) == DriverState::Failed(ClientError::TimeOut)
                },
                None => run_state(events) == DriverState::SessionEstablished,
            }
        }),
{
    let events = seq![Event::Succeeded, initiation_event_of(r), session_event_of(r)];
    assert(events.drop_last() =~= seq![Event::Succeeded, initiation_event_of(r)]);
    assert(events.drop_last().drop_last() =~= seq![Event::Succeeded]);
    assert(events.drop_last().drop_last().drop_last() =~= Seq::<Event>::empty());
    let one = seq![Event::Succeeded];
    assert(one.drop_last() =~= Seq::<Event>::empty());
    assert(run_state(Seq::<Event>::empty()) == DriverState::Unbound);
    assert(one.last() == Event::Succeeded);
    assert(run_state(one) == DriverState::Bound);
    assert(events.drop_last().drop_last() == one);
    assert(run_state(events.drop_last()) == next_state(
        DriverState::Bound,
        initiation_event_of(r),
    ));
}

} // verus!
