//! Numeric constants of the Mach kernel interface, as published in the
//! kernel's `mach/message.h`, `mach/port.h` and `mach/kern_return.h`.
use vstd::prelude::*;

verus! {

/// Mask of the remote port disposition in the header bits.
pub const MACH_MSGH_BITS_REMOTE_MASK: u32 = 0x0000_001f;

/// Mask of the local port disposition in the header bits.
pub const MACH_MSGH_BITS_LOCAL_MASK: u32 = 0x0000_1f00;

/// Mask of the voucher port disposition in the header bits.
pub const MACH_MSGH_BITS_VOUCHER_MASK: u32 = 0x001f_0000;

/// The flag of a message that carries a descriptor table.
pub const MACH_MSGH_BITS_COMPLEX: u32 = 0x8000_0000;

/// Every header bit that user code may set.
pub const MACH_MSGH_BITS_USER: u32 = 0x801f_1f1f;

pub const MACH_MSG_TYPE_MOVE_RECEIVE: u32 = 16;

pub const MACH_MSG_TYPE_MOVE_SEND: u32 = 17;

pub const MACH_MSG_TYPE_MOVE_SEND_ONCE: u32 = 18;

pub const MACH_MSG_TYPE_COPY_SEND: u32 = 19;

pub const MACH_MSG_TYPE_MAKE_SEND: u32 = 20;

pub const MACH_MSG_TYPE_MAKE_SEND_ONCE: u32 = 21;

pub const MACH_MSG_TYPE_COPY_RECEIVE: u32 = 22;

pub const MACH_MSG_PHYSICAL_COPY: u32 = 0;

pub const MACH_MSG_VIRTUAL_COPY: u32 = 1;

pub const MACH_MSG_PORT_DESCRIPTOR: u32 = 0;

pub const MACH_MSG_OOL_DESCRIPTOR: u32 = 1;

pub const MACH_MSG_OOL_PORTS_DESCRIPTOR: u32 = 2;

pub const MACH_MSG_OOL_VOLATILE_DESCRIPTOR: u32 = 3;

pub const MACH_SEND_MSG: i32 = 0x0000_0001;

pub const MACH_RCV_MSG: i32 = 0x0000_0002;

/// The four diagnostic flags of a message transfer status, together.
pub const MACH_MSG_MASK: i32 = 0x0000_3e00;

pub const MACH_MSG_IPC_SPACE: i32 = 0x0000_2000;

pub const MACH_MSG_VM_SPACE: i32 = 0x0000_1000;

pub const MACH_MSG_IPC_KERNEL: i32 = 0x0000_0800;

pub const MACH_MSG_VM_KERNEL: i32 = 0x0000_0400;

pub const MACH_SEND_IN_PROGRESS: i32 = 0x1000_0001;

pub const MACH_SEND_INVALID_DATA: i32 = 0x1000_0002;

pub const MACH_SEND_INVALID_DEST: i32 = 0x1000_0003;

pub const MACH_SEND_TIMED_OUT: i32 = 0x1000_0004;

pub const MACH_SEND_INVALID_VOUCHER: i32 = 0x1000_0005;

pub const MACH_SEND_INTERRUPTED: i32 = 0x1000_0007;

pub const MACH_SEND_MSG_TOO_SMALL: i32 = 0x1000_0008;

pub const MACH_SEND_INVALID_REPLY: i32 = 0x1000_0009;

pub const MACH_SEND_INVALID_RIGHT: i32 = 0x1000_000a;

pub const MACH_SEND_INVALID_NOTIFY: i32 = 0x1000_000b;

pub const MACH_SEND_INVALID_MEMORY: i32 = 0x1000_000c;

pub const MACH_SEND_NO_BUFFER: i32 = 0x1000_000d;

pub const MACH_SEND_TOO_LARGE: i32 = 0x1000_000e;

pub const MACH_SEND_INVALID_TYPE: i32 = 0x1000_000f;

pub const MACH_SEND_INVALID_HEADER: i32 = 0x1000_0010;

pub const MACH_SEND_INVALID_TRAILER: i32 = 0x1000_0011;

pub const MACH_SEND_INVALID_RT_OOL_SIZE: i32 = 0x1000_0015;

pub const MACH_RCV_IN_PROGRESS: i32 = 0x1000_4001;

pub const MACH_RCV_INVALID_NAME: i32 = 0x1000_4002;

pub const MACH_RCV_TIMED_OUT: i32 = 0x1000_4003;

pub const MACH_RCV_TOO_LARGE: i32 = 0x1000_4004;

pub const MACH_RCV_INTERRUPTED: i32 = 0x1000_4005;

pub const MACH_RCV_PORT_CHANGED: i32 = 0x1000_4006;

pub const MACH_RCV_INVALID_NOTIFY: i32 = 0x1000_4007;

pub const MACH_RCV_INVALID_DATA: i32 = 0x1000_4008;

pub const MACH_RCV_PORT_DIED: i32 = 0x1000_4009;

pub const MACH_RCV_IN_SET: i32 = 0x1000_400a;

pub const MACH_RCV_HEADER_ERROR: i32 = 0x1000_400b;

pub const MACH_RCV_BODY_ERROR: i32 = 0x1000_400c;

pub const MACH_RCV_INVALID_TYPE: i32 = 0x1000_400d;

pub const MACH_RCV_SCATTER_SMALL: i32 = 0x1000_400e;

pub const MACH_RCV_INVALID_TRAILER: i32 = 0x1000_400f;

pub const MACH_RCV_IN_PROGRESS_TIMED: i32 = 0x1000_4011;

/// The name that stands for no port.
pub const MACH_PORT_NULL: u32 = 0;

pub const MACH_PORT_RIGHT_SEND: u32 = 0;

pub const MACH_PORT_RIGHT_RECEIVE: u32 = 1;

pub const MACH_PORT_RIGHT_SEND_ONCE: u32 = 2;

pub const MACH_PORT_RIGHT_DEAD_NAME: u32 = 4;

pub const KERN_SUCCESS: i32 = 0;

pub const KERN_INVALID_RIGHT: i32 = 17;

pub const VM_PROT_READ: i32 = 1;

pub const VM_PROT_WRITE: i32 = 2;

pub const VM_FLAGS_ANYWHERE: i32 = 1;

} // verus!
