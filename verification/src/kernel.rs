//! Descriptions of the kernel calls that the library leaves to its caller.
//!
//! Each value holds the arguments of one call on the caller's own task. The
//! caller makes the call and hands the returned status back to the library.
use vstd::prelude::*;

verus! {

/// One call of `mach_port_mod_refs`: change the number of user references
/// that the task holds on the right `right` of the port `name` by `delta`.
#[derive(Clone, Copy, Debug, PartialEq, Eq, Structural)]
pub struct ModRefs {
    pub name: u32,
    pub right: u32,
    pub delta: i32,
}

/// One call of `mach_port_allocate`: make a port and return the name of the
/// right `right` to it.
#[derive(Clone, Copy, Debug, PartialEq, Eq, Structural)]
pub struct PortAllocate {
    pub right: u32,
}

/// One call of `mach_port_insert_right`: enter the right that `poly` and
/// `poly_type` denote into the task under `name`.
#[derive(Clone, Copy, Debug, PartialEq, Eq, Structural)]
pub struct InsertRight {
    pub name: u32,
    pub poly: u32,
    pub poly_type: u32,
}

/// One call of `mach_msg` on a message's bytes.
#[derive(Clone, Copy, Debug, PartialEq, Eq, Structural)]
pub struct MsgCall {
    pub option: i32,
    pub send_size: u32,
    pub rcv_size: u32,
    pub rcv_name: u32,
    pub timeout: u32,
    pub notify: u32,
}

/// One call of `mach_vm_allocate`: map `size` fresh bytes.
#[derive(Clone, Copy, Debug, PartialEq, Eq, Structural)]
pub struct VmAllocate {
    pub size: u64,
    pub flags: i32,
}

/// One call of `mach_vm_deallocate`: unmap the `size` bytes at `address`.
#[derive(Clone, Copy, Debug, PartialEq, Eq, Structural)]
pub struct VmDeallocate {
    pub address: u64,
    pub size: u64,
}

} // verus!
