//! Settings of the drop tracer.
use vstd::prelude::*;

verus! {

/// What the user asks of the drop tracer: addresses (any side, source, destination), the
/// process, network namespace, protocols and ports to keep; zero or empty keeps everything.
#[derive(Debug, Clone)]
pub struct Config {
    pub any_addr: String,
    pub src_addr: String,
    pub dst_addr: String,
    pub pid: u32,
    pub netns: u32,
    pub eth_proto: u16,
    pub ip_proto: u16,
    pub any_port: u16,
    pub src_port: u16,
    pub dst_port: u16,
    pub custom_btf_path: Option<String>,
}

impl Default for Config {
    /// No filter: empty addresses, zero numbers, no BTF file.
    fn default() -> (r: Self)
        ensures
            r.any_addr@ == Seq::<char>::empty(),
            r.src_addr@ == Seq::<char>::empty(),
            r.dst_addr@ == Seq::<char>::empty(),
            r.pid == 0 && r.netns == 0,
            r.eth_proto == 0 && r.ip_proto == 0,
            r.any_port == 0 && r.src_port == 0 && r.dst_port == 0,
            r.custom_btf_path is None,
    {
        Config {
            any_addr: String::new(),
            src_addr: String::new(),
            dst_addr: String::new(),
            pid: 0,
            netns: 0,
            eth_proto: 0,
            ip_proto: 0,
            any_port: 0,
            src_port: 0,
            dst_port: 0,
            custom_btf_path: None,
        }
    }
}

} // verus!
