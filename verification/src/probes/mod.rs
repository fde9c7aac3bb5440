//! Which probes the kernel offers, and which of them a collector attaches.
pub mod registry;

pub use registry::Registry;
pub use registry::Registry as ProbeRegistry;
