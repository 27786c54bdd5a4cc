//! The network server: configuration, the accept loop's decisions and the
//! relay used by simple handlers.

pub mod relay;
pub mod server;
pub mod trace;

pub use self::relay::{Relay, RelayAction, RelayError, RelayEvent, RelayPhase};
pub use self::server::{
    task_outcome, Action, Event, Listening, NetServer, Phase, Report, Serve, ServeError,
};
