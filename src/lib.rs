//! Virtual network interfaces (TUN and TAP) behind one handle type.
//!
//! The library holds the decisions of the device layer: the state of a handle,
//! the fixed byte layout of each interface request handed to the kernel, the
//! packet-information framing of TUN traffic, the scatter/gather of vectored
//! transfers, and the mapping of kernel error numbers. The system calls
//! themselves are made by the caller with the values these functions return.
use vstd::prelude::*;

pub mod error;
pub mod request;
pub mod frame;
pub mod device;
pub mod laws;

verus! {

} // verus!
