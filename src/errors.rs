use vstd::prelude::*;

verus! {

/// The four ways a run can fail. Each failure point of the session lifecycle
/// maps to exactly one of them.
#[derive(Debug, Clone, Copy, PartialEq, Eq, Structural)]
pub enum ClientError {
    /// Session establishment, the payload write or the finish step failed.
    TimeOut,
    /// The session attempt was rejected locally before any handshake.
    LocallyClosed,
    /// The local transport context could not be constructed.
    QuicError,
    /// The request for a bidirectional stream failed.
    StreamOpeningError,
}

/// The text reported for each kind: the name of the matching connection
/// error, or the quoted description of a failed stream opening.
pub open spec fn message_of(e: ClientError) -> Seq<char> {
    match e {
        ClientError::TimeOut => "TimedOut"@,
        ClientError::LocallyClosed => "LocallyClosed"@,
        ClientError::QuicError => "QuicError"@,
        ClientError::StreamOpeningError => "\"Failed to open stream\""@,
    }
}

impl ClientError {
    /// A descriptive message for this kind of failure.
    pub fn message(&self) -> (r: String)
        ensures
            r@ == message_of(*self),
    {
        match self {
            ClientError::TimeOut => "TimedOut".to_owned(),
            ClientError::LocallyClosed => "LocallyClosed".to_owned(),
            ClientError::QuicError => "QuicError".to_owned(),
            ClientError::StreamOpeningError => "\"Failed to open stream\"".to_owned(),
        }
    }
}

} // verus!
