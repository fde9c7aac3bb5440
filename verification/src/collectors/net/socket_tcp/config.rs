//! Settings of the socket tracer, and the part of them the kernel program reads.
use vstd::prelude::*;

use crate::collectors::net::bytes::{spec_be32, spec_le32, u32_to_ne_bytes};

verus! {

/// What the user asks of the socket tracer.
#[derive(Debug, Clone)]
pub struct Config {
    pub custom_btf_path: Option<String>,
    pub pid: u32,
    pub verbose: bool,
}

/// The settings the kernel program reads: the process to trace.
#[derive(Debug, Clone, Copy)]
pub struct InnerConfig {
    pub pid: u32,
}

impl From<Config> for InnerConfig {
    fn from(value: Config) -> (r: Self) {
        InnerConfig { pid: value.pid }
    }
}

impl vstd::std_specs::convert::FromSpecImpl<Config> for InnerConfig {
    open spec fn obeys_from_spec() -> bool {
        true
    }

    open spec fn from_spec(v: Config) -> InnerConfig {
        InnerConfig { pid: v.pid }
    }
}

impl InnerConfig {
    /// The struct's bytes as the kernel program reads them: the pid in the machine's byte
    /// order.
    pub fn as_bytes(&self) -> (r: Vec<u8>)
        ensures
            r@ == spec_le32(self.pid) || r@ == spec_be32(self.pid),
    {
        let b = u32_to_ne_bytes(self.pid);
        let mut r: Vec<u8> = Vec::new();
        r.push(b[0]);
        r.push(b[1]);
        r.push(b[2]);
        r.push(b[3]);
        assert(r@ =~= b@);
        r
    }
}

} // verus!
