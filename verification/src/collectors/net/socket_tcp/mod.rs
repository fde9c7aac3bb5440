//! Tracing of request/response exchanges on TCP sockets.
pub mod config;
pub mod event;
pub mod formater;
pub mod matcher;
pub mod probes;

pub use config::{Config, InnerConfig};
pub use event::{Event, InnerEvent};
pub use formater::DefaultFormatter;
pub use matcher::EventMatcher;
