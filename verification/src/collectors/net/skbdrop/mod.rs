//! Tracing of dropped packets.
pub mod config;
pub mod event;
pub mod formatter;
pub mod probes;

pub use config::Config;
pub use event::Event;
pub use formatter::{DefaultConsoleExporter, DefaultFormatter};
