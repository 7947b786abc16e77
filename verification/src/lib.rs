//! The portable core of a Mach IPC library: the reusable message buffer, the
//! builder and parser of the message wire format, the port right wrappers and
//! the buffers that describe out-of-line memory.
//!
//! Nothing in this crate enters the kernel. An operation that needs the kernel
//! returns a plain description of the call to make, and takes what the kernel
//! answered as plain values.
pub mod abi;
pub mod kernel;
pub mod msg;
pub mod rights;
pub mod text;
pub mod traits;
