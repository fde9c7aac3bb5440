//! Interfaces to symbol resolution, which the library's users provide.
use vstd::prelude::*;

verus! {

/// Where an address comes from.
#[derive(Debug, Clone, Copy, PartialEq, Eq, Structural)]
pub enum Source {
    Kernel,
    Process(u32),
}

/// An address to resolve.
#[derive(Debug, Clone, Copy)]
pub struct SymbolizeInput {
    pub source: Source,
    pub addr: u64,
}

/// The symbol an address falls in.
#[derive(Debug, Clone)]
pub struct ResolvedSymbol {
    pub name: String,
    pub start_addr: u64,
    pub offset: u64,
}

/// Resolves addresses, always giving a name.
pub trait Symbolizer {
    /// `out` is what resolving `input` may give. A symbolizer that says nothing of itself
    /// may give anything.
    open spec fn resolves(&self, input: SymbolizeInput, out: ResolvedSymbol) -> bool {
        true
    }

    fn resolve(&self, input: SymbolizeInput) -> (r: ResolvedSymbol)
        ensures
            self.resolves(input, r),
    ;
}

/// Resolves addresses when it can.
pub trait SymbolResolver {
    /// `out` is what resolving `addr` may give. A resolver that says nothing of itself may
    /// give anything.
    open spec fn resolves_addr(&self, addr: u64, out: Option<String>) -> bool {
        true
    }

    fn resolve_addr(&self, addr: u64) -> (r: Option<String>)
        ensures
            self.resolves_addr(addr, r),
    ;
}

} // verus!
