//! The library's error type.
use vstd::prelude::*;

verus! {

/// Failures of the library's operations, each with a message. An I/O, libbpf or address
/// parsing failure carries the text of the underlying error.
#[derive(Debug)]
pub enum EbpfError {
    IO(String),
    Libbpf(String),
    ParseErr(String),
    ProbeNotFound(String),
    SyscallErr(String),
    SymbolizeError(String),
    ConfigErr(String),
    Other(String),
}

impl EbpfError {
    /// The message an error carries.
    pub open spec fn message(&self) -> Seq<char> {
        match self {
            EbpfError::IO(m) => m@,
            EbpfError::Libbpf(m) => m@,
            EbpfError::ParseErr(m) => m@,
            EbpfError::ProbeNotFound(m) => m@,
            EbpfError::SyscallErr(m) => m@,
            EbpfError::SymbolizeError(m) => m@,
            EbpfError::ConfigErr(m) => m@,
            EbpfError::Other(m) => m@,
        }
    }

    /// What the error's kind is called when it is shown.
    pub open spec fn kind_label(&self) -> Seq<char> {
        match self {
            EbpfError::IO(_) => "IO Error: "@,
            EbpfError::Libbpf(_) => "Libbpf Error: "@,
            EbpfError::ParseErr(_) => "addr_parse Error: "@,
            EbpfError::ProbeNotFound(_) => "probes is not found Error: "@,
            EbpfError::SyscallErr(_) => "Syscall Error: "@,
            EbpfError::SymbolizeError(_) => "Symbolize Error: "@,
            EbpfError::ConfigErr(_) => "Config Error: "@,
            EbpfError::Other(_) => "Other Error: "@,
        }
    }

    /// The error as it is shown: its kind, then its message.
    pub fn to_string(&self) -> (r: String)
        ensures
            r@ == self.kind_label() + self.message(),
    {
        let (label, m) = match self {
            EbpfError::IO(m) => ("IO Error: ", m),
            EbpfError::Libbpf(m) => ("Libbpf Error: ", m),
            EbpfError::ParseErr(m) => ("addr_parse Error: ", m),
            EbpfError::ProbeNotFound(m) => ("probes is not found Error: ", m),
            EbpfError::SyscallErr(m) => ("Syscall Error: ", m),
            EbpfError::SymbolizeError(m) => ("Symbolize Error: ", m),
            EbpfError::ConfigErr(m) => ("Config Error: ", m),
            EbpfError::Other(m) => ("Other Error: ", m),
        };
        let mut r = String::from_str(label);
        r.append(m.as_str());
        r
    }

    /// The message of an error; a configuration error has none to give.
    pub fn into_message(self) -> (r: String)
        requires
            !(self is ConfigErr),
        ensures
            r@ == self.message(),
    {
        match self {
            EbpfError::IO(m) => m,
            EbpfError::Libbpf(m) => m,
            EbpfError::ParseErr(m) => m,
            EbpfError::ProbeNotFound(m) => m,
            EbpfError::SyscallErr(m) => m,
            EbpfError::SymbolizeError(m) => m,
            EbpfError::Other(m) => m,
            EbpfError::ConfigErr(m) => m,
        }
    }
}

} // verus!
