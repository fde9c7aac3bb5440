//! Address families as the kernel numbers them.
use vstd::prelude::*;

verus! {

pub const AF_INET: u16 = 2;
pub const AF_INET6: u16 = 10;

} // verus!
