use ping_pong_client::connecting::{initiation_event, session_event};
use ping_pong_client::{
    ClientError, ClientSettings, ConnectFailure, DriverState, Event, SessionDriver, Step,
};

const ALL_STEPS: [Step; 6] = [
    Step::Bind,
    Step::Initiate,
    Step::AwaitSession,
    Step::OpenStream,
    Step::Write,
    Step::Finish,
];

fn run(events: &[Event]) -> SessionDriver {
    let mut d = SessionDriver::new(ClientSettings::loopback());
    for ev in events {
        d.advance(*ev);
    }
    d
}

fn run_with_connect(connect: Option<ConnectFailure>, rest: &[Event]) -> SessionDriver {
    let mut d = SessionDriver::new(ClientSettings::loopback());
    d.advance(Event::Succeeded);
    d.advance(initiation_event(connect));
    if d.next_step() == Some(Step::AwaitSession) {
        d.advance(session_event(connect));
    }
    for ev in rest {
        d.advance(*ev);
    }
    d
}

#[test]
fn fresh_driver_waits_to_bind() {
    let d = SessionDriver::new(ClientSettings::loopback());
    assert_eq!(d.state(), DriverState::Unbound);
    assert_eq!(d.next_step(), Some(Step::Bind));
    assert_eq!(d.outcome(), None);
    assert!(d.attempted().is_empty());
}

#[test]
fn happy_path_completes() {
    let d = run(&[Event::Succeeded; 6]);
    assert_eq!(d.outcome(), Some(Ok(())));
    assert_eq!(d.state(), DriverState::Done);
    assert_eq!(d.attempted(), &ALL_STEPS.to_vec());
    assert_eq!(d.next_step(), None);
}

#[test]
fn happy_path_through_connect() {
    let d = run_with_connect(None, &[Event::Succeeded; 3]);
    assert_eq!(d.outcome(), Some(Ok(())));
    assert_eq!(d.attempted(), &ALL_STEPS.to_vec());
}

#[test]
fn steps_advance_in_order() {
    let mut d = SessionDriver::new(ClientSettings::loopback());
    for (i, step) in ALL_STEPS.iter().enumerate() {
        assert_eq!(d.next_step(), Some(*step));
        assert_eq!(d.attempted().len(), i);
        d.advance(Event::Succeeded);
    }
    assert_eq!(d.next_step(), None);
}

#[test]
fn context_failure_is_quic_error() {
    let d = run(&[Event::Succeeded, Event::ContextFailed, Event::Succeeded, Event::Succeeded]);
    assert_eq!(d.outcome(), Some(Err(ClientError::QuicError)));
    assert_eq!(d.attempted(), &vec![Step::Bind, Step::Initiate]);
}

#[test]
fn initiation_failure_is_locally_closed() {
    let d = run(&[Event::Succeeded, Event::Failed, Event::Succeeded]);
    assert_eq!(d.outcome(), Some(Err(ClientError::LocallyClosed)));
    assert_eq!(d.attempted(), &vec![Step::Bind, Step::Initiate]);
}

#[test]
fn bind_failure_is_quic_error() {
    let d = run(&[Event::Failed]);
    assert_eq!(d.outcome(), Some(Err(ClientError::QuicError)));
    assert_eq!(d.attempted(), &vec![Step::Bind]);
}

#[test]
fn session_wait_failure_is_time_out() {
    let d = run(&[Event::Succeeded, Event::Succeeded, Event::Failed, Event::Succeeded]);
    assert_eq!(d.outcome(), Some(Err(ClientError::TimeOut)));
    assert!(!d.attempted().contains(&Step::OpenStream));
    assert_eq!(d.attempted().len(), 3);
}

#[test]
fn stream_failure_is_stream_opening_error() {
    let d = run(&[Event::Succeeded, Event::Succeeded, Event::Succeeded, Event::Failed]);
    assert_eq!(d.outcome(), Some(Err(ClientError::StreamOpeningError)));
    assert!(!d.attempted().contains(&Step::Write));
}

#[test]
fn write_failure_is_time_out() {
    let d = run(&[Event::Succeeded, Event::Succeeded, Event::Succeeded, Event::Succeeded, Event::Failed]);
    assert_eq!(d.outcome(), Some(Err(ClientError::TimeOut)));
    assert_eq!(d.attempted().last(), Some(&Step::Write));
    assert!(!d.attempted().contains(&Step::Finish));
}

#[test]
fn finish_failure_is_time_out() {
    let mut events = vec![Event::Succeeded; 5];
    events.push(Event::Failed);
    let d = run(&events);
    assert_eq!(d.outcome(), Some(Err(ClientError::TimeOut)));
    assert_eq!(d.attempted(), &ALL_STEPS.to_vec());
}

#[test]
fn no_listener_times_out() {
    let d = run_with_connect(Some(ConnectFailure::Connection), &[Event::Succeeded]);
    assert_eq!(d.outcome(), Some(Err(ClientError::TimeOut)));
    assert_eq!(d.attempted(), &vec![Step::Bind, Step::Initiate, Step::AwaitSession]);
}

#[test]
fn locally_refused_attempt_is_locally_closed() {
    let d = run_with_connect(Some(ConnectFailure::InvalidRemoteAddress), &[]);
    assert_eq!(d.outcome(), Some(Err(ClientError::LocallyClosed)));
    assert_eq!(d.attempted(), &vec![Step::Bind, Step::Initiate]);
}

#[test]
fn rejected_session_times_out() {
    let d = run_with_connect(Some(ConnectFailure::SessionRejected), &[]);
    assert_eq!(d.outcome(), Some(Err(ClientError::TimeOut)));
}

#[test]
fn stream_refused_by_server() {
    let d = run_with_connect(None, &[Event::Failed]);
    assert_eq!(d.outcome(), Some(Err(ClientError::StreamOpeningError)));
    assert_eq!(
        d.attempted(),
        &vec![Step::Bind, Step::Initiate, Step::AwaitSession, Step::OpenStream]
    );
}

#[test]
fn events_after_the_end_change_nothing() {
    let mut d = run(&[Event::Succeeded, Event::Succeeded, Event::Failed]);
    let before = d.attempted().clone();
    d.advance(Event::Succeeded);
    d.advance(Event::ContextFailed);
    assert_eq!(d.attempted(), &before);
    assert_eq!(d.outcome(), Some(Err(ClientError::TimeOut)));
    let mut done = run(&[Event::Succeeded; 6]);
    done.advance(Event::Failed);
    assert_eq!(done.outcome(), Some(Ok(())));
    assert_eq!(done.attempted().len(), 6);
}

#[test]
fn payload_written_once_per_run() {
    for _ in 0..2 {
        let mut d = SessionDriver::new(ClientSettings::loopback());
        assert!(d.attempted().is_empty());
        for _ in 0..10 {
            d.advance(Event::Succeeded);
        }
        let writes = d.attempted().iter().filter(|s| **s == Step::Write).count();
        assert_eq!(writes, 1);
        assert_eq!(d.settings().payload, b"ping".to_vec());
    }
}

#[test]
fn no_write_when_earlier_step_failed() {
    let d = run(&[Event::Succeeded, Event::Succeeded, Event::Succeeded, Event::Failed, Event::Succeeded]);
    let writes = d.attempted().iter().filter(|s| **s == Step::Write).count();
    assert_eq!(writes, 0);
}

#[test]
fn failure_kind_per_step() {
    assert_eq!(Step::Bind.failure_kind(Event::Failed), ClientError::QuicError);
    assert_eq!(Step::Initiate.failure_kind(Event::ContextFailed), ClientError::QuicError);
    assert_eq!(Step::Initiate.failure_kind(Event::Failed), ClientError::LocallyClosed);
    assert_eq!(Step::AwaitSession.failure_kind(Event::Failed), ClientError::TimeOut);
    assert_eq!(Step::OpenStream.failure_kind(Event::Failed), ClientError::StreamOpeningError);
    assert_eq!(Step::Write.failure_kind(Event::Failed), ClientError::TimeOut);
    assert_eq!(Step::Finish.failure_kind(Event::ContextFailed), ClientError::TimeOut);
}

#[test]
fn state_transitions() {
    assert_eq!(DriverState::Unbound.next(Event::Succeeded), DriverState::Bound);
    assert_eq!(DriverState::PayloadWritten.next(Event::Succeeded), DriverState::Done);
    assert_eq!(
        DriverState::SessionEstablished.next(Event::Failed),
        DriverState::Failed(ClientError::StreamOpeningError)
    );
    let failed = DriverState::Failed(ClientError::LocallyClosed);
    assert_eq!(failed.next(Event::Succeeded), failed);
    assert_eq!(failed.outcome(), Some(Err(ClientError::LocallyClosed)));
    assert_eq!(DriverState::StreamOpen.outcome(), None);
    assert_eq!(DriverState::Done.pending_step(), None);
    assert_eq!(Step::Write.state_after(), DriverState::PayloadWritten);
}

#[test]
fn connect_failures_classified() {
    let before = [
        ConnectFailure::InvalidUrl,
        ConnectFailure::DnsLookup,
        ConnectFailure::DnsNotFound,
        ConnectFailure::ReservedHeader,
        ConnectFailure::EndpointStopping,
        ConnectFailure::CidsExhausted,
        ConnectFailure::InvalidServerName,
        ConnectFailure::InvalidRemoteAddress,
    ];
    for f in before {
        assert!(f.is_refused_locally());
        assert_eq!(initiation_event(Some(f)), Event::Failed);
        assert_eq!(session_event(Some(f)), Event::Failed);
    }
    for f in [ConnectFailure::Connection, ConnectFailure::SessionRejected] {
        assert!(!f.is_refused_locally());
        assert_eq!(initiation_event(Some(f)), Event::Succeeded);
        assert_eq!(session_event(Some(f)), Event::Failed);
    }
    assert_eq!(initiation_event(None), Event::Succeeded);
    assert_eq!(session_event(None), Event::Succeeded);
}

#[test]
fn loopback_settings() {
    let s = ClientSettings::loopback();
    assert_eq!(s.bind_ip, 0);
    assert_eq!(s.bind_port, 0);
    assert_eq!(s.remote_ip, 1);
    assert_eq!(s.remote_port, 4433);
    assert_eq!(s.server_name, "localhost");
    assert_eq!(s.payload, vec![b'p', b'i', b'n', b'g']);
}

#[test]
fn error_messages() {
    assert_eq!(ClientError::TimeOut.message(), "TimedOut");
    assert_eq!(ClientError::LocallyClosed.message(), "LocallyClosed");
    assert_eq!(ClientError::QuicError.message(), "QuicError");
    assert_eq!(ClientError::StreamOpeningError.message(), "\"Failed to open stream\"");
}
