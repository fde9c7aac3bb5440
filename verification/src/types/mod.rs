//! Data shared between the kernel programs and user space.
pub mod net;
