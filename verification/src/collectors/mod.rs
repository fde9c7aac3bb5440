//! Event collectors: what the kernel reports and how it is turned into user-facing events.
pub mod attach;
pub mod cpu;
pub mod net;
