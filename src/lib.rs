//! A client that binds a local endpoint, opens a secure session to a fixed
//! server, opens one bidirectional stream, writes a short payload and finishes
//! the outbound half. The transport itself is driven from outside; this crate
//! holds the configuration, the error taxonomy and the session lifecycle as a
//! verified state machine.
pub mod connecting;
pub mod driver;
pub mod errors;
pub mod laws;
pub mod settings;

pub use connecting::ConnectFailure;
pub use driver::{DriverState, Event, SessionDriver, Step};
pub use errors::ClientError;
pub use settings::ClientSettings;
