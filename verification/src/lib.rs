//! User-space logic of an eBPF tracing toolkit: application-protocol parsing,
//! request/response matching, stack aggregation and event rendering.

pub mod collectors;
pub mod consts;
pub mod env;
pub mod errors;
pub mod exporter;
pub mod formatter;
pub mod probes;
pub mod protocol;
pub mod protocols;
pub mod sink;
pub mod symbolizer;
pub mod text;
pub mod types;
pub mod units;
