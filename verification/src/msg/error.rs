//! Provides definitions of error types that may be returned when a Mach message exchange fails.
//!
//! Errors returned by the `mach_msg` API used to send/receive a message contain an error code and
//! 4 flags that may specify which subsystems reported an error during the Mach message transfer.
//! The error codes are split into two groups: "send" errors and "receive" errors. This module
//! provides two types that wrap these errors corresponding to the two groups: [`SendError`] and
//! [`RecvError`]. Both have identical APIs and their own error kind enumerations: [`SendErrorKind`]
//! and [`RecvErrorKind`].
use crate::abi::{
    MACH_MSG_IPC_KERNEL, MACH_MSG_IPC_SPACE, MACH_MSG_MASK, MACH_MSG_VM_KERNEL, MACH_MSG_VM_SPACE,
    MACH_RCV_BODY_ERROR, MACH_RCV_HEADER_ERROR, MACH_RCV_INTERRUPTED, MACH_RCV_INVALID_DATA,
    MACH_RCV_INVALID_NAME, MACH_RCV_INVALID_NOTIFY, MACH_RCV_INVALID_TRAILER,
    MACH_RCV_INVALID_TYPE, MACH_RCV_IN_PROGRESS, MACH_RCV_IN_PROGRESS_TIMED, MACH_RCV_IN_SET,
    MACH_RCV_PORT_CHANGED, MACH_RCV_PORT_DIED, MACH_RCV_SCATTER_SMALL, MACH_RCV_TIMED_OUT,
    MACH_RCV_TOO_LARGE, MACH_SEND_INTERRUPTED, MACH_SEND_INVALID_DATA, MACH_SEND_INVALID_DEST,
    MACH_SEND_INVALID_HEADER, MACH_SEND_INVALID_MEMORY, MACH_SEND_INVALID_NOTIFY,
    MACH_SEND_INVALID_REPLY, MACH_SEND_INVALID_RIGHT, MACH_SEND_INVALID_RT_OOL_SIZE,
    MACH_SEND_INVALID_TRAILER, MACH_SEND_INVALID_TYPE, MACH_SEND_INVALID_VOUCHER,
    MACH_SEND_IN_PROGRESS, MACH_SEND_MSG_TOO_SMALL, MACH_SEND_NO_BUFFER, MACH_SEND_TIMED_OUT,
    MACH_SEND_TOO_LARGE,
};
use crate::text::push_str;
use vstd::prelude::*;

verus! {

/// A status has a flag where it has every bit of the flag.
pub open spec fn has_flag(bits: i32, flag: i32) -> bool {
    bits & flag == flag
}

/// A status with a flag set or reset.
pub open spec fn with_flag(bits: i32, flag: i32, value: bool) -> i32 {
    if value {
        bits | flag
    } else {
        bits & !flag
    }
}

/// One of the four diagnostic flags of a message transfer status.
pub open spec fn is_flag(flag: i32) -> bool {
    flag == MACH_MSG_VM_SPACE || flag == MACH_MSG_VM_KERNEL || flag == MACH_MSG_IPC_SPACE || flag
        == MACH_MSG_IPC_KERNEL
}

/// The error code of a status: the status without its four flags.
pub open spec fn error_code(bits: i32) -> i32 {
    bits & !MACH_MSG_MASK
}

/// Setting or resetting one of the four flags gives a status that has the
/// flag as asked, every other flag as before, and the error code as before.
pub proof fn lemma_with_flag(bits: i32, flag: i32, value: bool, other: i32)
    requires
        is_flag(flag),
        is_flag(other),
        other != flag,
    ensures
        has_flag(with_flag(bits, flag, value), flag) == value,
        has_flag(with_flag(bits, flag, value), other) == has_flag(bits, other),
        error_code(with_flag(bits, flag, value)) == error_code(bits),
{
    assert(((bits | flag) & flag == flag) && ((bits & !flag) & flag != flag) && (((bits | flag)
        & other == other) == (bits & other == other)) && (((bits & !flag) & other == other) == (
    bits & other == other)) && (bits | flag) & !0x3e00i32 == bits & !0x3e00i32 && (bits & !flag)
        & !0x3e00i32 == bits & !0x3e00i32) by (bit_vector)
        requires
            flag == 0x1000i32 || flag == 0x400i32 || flag == 0x2000i32 || flag == 0x800i32,
            other == 0x1000i32 || other == 0x400i32 || other == 0x2000i32 || other == 0x800i32,
            other != flag,
    ;
}

fn set_flag(bits: i32, flag: i32, value: bool) -> (changed: i32)
    ensures
        changed == with_flag(bits, flag, value),
{
    if value {
        bits | flag
    } else {
        bits & !flag
    }
}

/// An error returned when sending a Mach message.
#[derive(Copy, Clone, Eq, PartialEq, Debug, Hash, Structural)]
pub enum SendErrorKind {
    /// Thread is waiting to send.  (Internal use only.)
    InProgress,
    /// Bogus in-line data.
    InvalidData,
    /// Bogus destination port.
    InvalidDest,
    /// Message not sent before timeout expired.
    TimedOut,
    /// Bogus voucher port.
    InvalidVoucher,
    /// Software interrupt.
    Interrupted,
    /// Data doesn't contain a complete message.
    MsgTooSmall,
    /// Bogus reply port.
    InvalidReply,
    /// Bogus port rights in the message body.
    InvalidRight,
    /// Bogus notify port argument.
    InvalidNotify,
    /// Invalid out-of-line memory pointer.
    InvalidMemory,
    /// No message buffer is available.
    NoBuffer,
    /// Send is too large for port
    TooLarge,
    /// Invalid msg-type specification.
    InvalidType,
    /// A field in the header had a bad value.
    InvalidHeader,
    /// The trailer to be sent does not match kernel format.
    InvalidTrailer,
    /// compatibility: no longer a returned error
    InvalidRtOolSize,
}

impl SendErrorKind {
    /// The error code of the kind.
    pub open spec fn spec_code(self) -> i32 {
        match self {
            Self::InProgress => MACH_SEND_IN_PROGRESS,
            Self::InvalidData => MACH_SEND_INVALID_DATA,
            Self::InvalidDest => MACH_SEND_INVALID_DEST,
            Self::TimedOut => MACH_SEND_TIMED_OUT,
            Self::InvalidVoucher => MACH_SEND_INVALID_VOUCHER,
            Self::Interrupted => MACH_SEND_INTERRUPTED,
            Self::MsgTooSmall => MACH_SEND_MSG_TOO_SMALL,
            Self::InvalidReply => MACH_SEND_INVALID_REPLY,
            Self::InvalidRight => MACH_SEND_INVALID_RIGHT,
            Self::InvalidNotify => MACH_SEND_INVALID_NOTIFY,
            Self::InvalidMemory => MACH_SEND_INVALID_MEMORY,
            Self::NoBuffer => MACH_SEND_NO_BUFFER,
            Self::TooLarge => MACH_SEND_TOO_LARGE,
            Self::InvalidType => MACH_SEND_INVALID_TYPE,
            Self::InvalidHeader => MACH_SEND_INVALID_HEADER,
            Self::InvalidTrailer => MACH_SEND_INVALID_TRAILER,
            Self::InvalidRtOolSize => MACH_SEND_INVALID_RT_OOL_SIZE,
        }
    }

    /// The error code of the kind.
    pub fn code(self) -> (code: i32)
        ensures
            code == self.spec_code(),
    {
        match self {
            Self::InProgress => MACH_SEND_IN_PROGRESS,
            Self::InvalidData => MACH_SEND_INVALID_DATA,
            Self::InvalidDest => MACH_SEND_INVALID_DEST,
            Self::TimedOut => MACH_SEND_TIMED_OUT,
            Self::InvalidVoucher => MACH_SEND_INVALID_VOUCHER,
            Self::Interrupted => MACH_SEND_INTERRUPTED,
            Self::MsgTooSmall => MACH_SEND_MSG_TOO_SMALL,
            Self::InvalidReply => MACH_SEND_INVALID_REPLY,
            Self::InvalidRight => MACH_SEND_INVALID_RIGHT,
            Self::InvalidNotify => MACH_SEND_INVALID_NOTIFY,
            Self::InvalidMemory => MACH_SEND_INVALID_MEMORY,
            Self::NoBuffer => MACH_SEND_NO_BUFFER,
            Self::TooLarge => MACH_SEND_TOO_LARGE,
            Self::InvalidType => MACH_SEND_INVALID_TYPE,
            Self::InvalidHeader => MACH_SEND_INVALID_HEADER,
            Self::InvalidTrailer => MACH_SEND_INVALID_TRAILER,
            Self::InvalidRtOolSize => MACH_SEND_INVALID_RT_OOL_SIZE,
        }
    }

    /// The kind of a known error code.
    pub open spec fn spec_from_error_code(code: i32) -> Option<Self> {
        if code == MACH_SEND_IN_PROGRESS {
            Some(Self::InProgress)
        }         else if code == MACH_SEND_INVALID_DATA {
            Some(Self::InvalidData)
        }         else if code == MACH_SEND_INVALID_DEST {
            Some(Self::InvalidDest)
        }         else if code == MACH_SEND_TIMED_OUT {
            Some(Self::TimedOut)
        }         else if code == MACH_SEND_INVALID_VOUCHER {
            Some(Self::InvalidVoucher)
        }         else if code == MACH_SEND_INTERRUPTED {
            Some(Self::Interrupted)
        }         else if code == MACH_SEND_MSG_TOO_SMALL {
            Some(Self::MsgTooSmall)
        }         else if code == MACH_SEND_INVALID_REPLY {
            Some(Self::InvalidReply)
        }         else if code == MACH_SEND_INVALID_RIGHT {
            Some(Self::InvalidRight)
        }         else if code == MACH_SEND_INVALID_NOTIFY {
            Some(Self::InvalidNotify)
        }         else if code == MACH_SEND_INVALID_MEMORY {
            Some(Self::InvalidMemory)
        }         else if code == MACH_SEND_NO_BUFFER {
            Some(Self::NoBuffer)
        }         else if code == MACH_SEND_TOO_LARGE {
            Some(Self::TooLarge)
        }         else if code == MACH_SEND_INVALID_TYPE {
            Some(Self::InvalidType)
        }         else if code == MACH_SEND_INVALID_HEADER {
            Some(Self::InvalidHeader)
        }         else if code == MACH_SEND_INVALID_TRAILER {
            Some(Self::InvalidTrailer)
        }         else if code == MACH_SEND_INVALID_RT_OOL_SIZE {
            Some(Self::InvalidRtOolSize)
        } else {
            None
        }
    }

    /// Creates a `SendErrorKind` from a known error code or returns `None`.
    pub fn from_error_code(code: i32) -> (kind: Option<Self>)
        ensures
            kind == Self::spec_from_error_code(code),
    {
        if code == MACH_SEND_IN_PROGRESS {
            Some(Self::InProgress)
        }         else if code == MACH_SEND_INVALID_DATA {
            Some(Self::InvalidData)
        }         else if code == MACH_SEND_INVALID_DEST {
            Some(Self::InvalidDest)
        }         else if code == MACH_SEND_TIMED_OUT {
            Some(Self::TimedOut)
        }         else if code == MACH_SEND_INVALID_VOUCHER {
            Some(Self::InvalidVoucher)
        }         else if code == MACH_SEND_INTERRUPTED {
            Some(Self::Interrupted)
        }         else if code == MACH_SEND_MSG_TOO_SMALL {
            Some(Self::MsgTooSmall)
        }         else if code == MACH_SEND_INVALID_REPLY {
            Some(Self::InvalidReply)
        }         else if code == MACH_SEND_INVALID_RIGHT {
            Some(Self::InvalidRight)
        }         else if code == MACH_SEND_INVALID_NOTIFY {
            Some(Self::InvalidNotify)
        }         else if code == MACH_SEND_INVALID_MEMORY {
            Some(Self::InvalidMemory)
        }         else if code == MACH_SEND_NO_BUFFER {
            Some(Self::NoBuffer)
        }         else if code == MACH_SEND_TOO_LARGE {
            Some(Self::TooLarge)
        }         else if code == MACH_SEND_INVALID_TYPE {
            Some(Self::InvalidType)
        }         else if code == MACH_SEND_INVALID_HEADER {
            Some(Self::InvalidHeader)
        }         else if code == MACH_SEND_INVALID_TRAILER {
            Some(Self::InvalidTrailer)
        }         else if code == MACH_SEND_INVALID_RT_OOL_SIZE {
            Some(Self::InvalidRtOolSize)
        } else {
            None
        }
    }

    /// The name of the error code of the kind.
    pub fn name(self) -> (name: &'static str)
        ensures
            name@ == self.spec_name(),
    {
        match self {
            Self::InProgress => "MACH_SEND_IN_PROGRESS",
            Self::InvalidData => "MACH_SEND_INVALID_DATA",
            Self::InvalidDest => "MACH_SEND_INVALID_DEST",
            Self::TimedOut => "MACH_SEND_TIMED_OUT",
            Self::InvalidVoucher => "MACH_SEND_INVALID_VOUCHER",
            Self::Interrupted => "MACH_SEND_INTERRUPTED",
            Self::MsgTooSmall => "MACH_SEND_MSG_TOO_SMALL",
            Self::InvalidReply => "MACH_SEND_INVALID_REPLY",
            Self::InvalidRight => "MACH_SEND_INVALID_RIGHT",
            Self::InvalidNotify => "MACH_SEND_INVALID_NOTIFY",
            Self::InvalidMemory => "MACH_SEND_INVALID_MEMORY",
            Self::NoBuffer => "MACH_SEND_NO_BUFFER",
            Self::TooLarge => "MACH_SEND_TOO_LARGE",
            Self::InvalidType => "MACH_SEND_INVALID_TYPE",
            Self::InvalidHeader => "MACH_SEND_INVALID_HEADER",
            Self::InvalidTrailer => "MACH_SEND_INVALID_TRAILER",
            Self::InvalidRtOolSize => "MACH_SEND_INVALID_RT_OOL_SIZE",
        }
    }

    /// The name of the error code of the kind.
    pub open spec fn spec_name(self) -> Seq<char> {
        match self {
            Self::InProgress => "MACH_SEND_IN_PROGRESS"@,
            Self::InvalidData => "MACH_SEND_INVALID_DATA"@,
            Self::InvalidDest => "MACH_SEND_INVALID_DEST"@,
            Self::TimedOut => "MACH_SEND_TIMED_OUT"@,
            Self::InvalidVoucher => "MACH_SEND_INVALID_VOUCHER"@,
            Self::Interrupted => "MACH_SEND_INTERRUPTED"@,
            Self::MsgTooSmall => "MACH_SEND_MSG_TOO_SMALL"@,
            Self::InvalidReply => "MACH_SEND_INVALID_REPLY"@,
            Self::InvalidRight => "MACH_SEND_INVALID_RIGHT"@,
            Self::InvalidNotify => "MACH_SEND_INVALID_NOTIFY"@,
            Self::InvalidMemory => "MACH_SEND_INVALID_MEMORY"@,
            Self::NoBuffer => "MACH_SEND_NO_BUFFER"@,
            Self::TooLarge => "MACH_SEND_TOO_LARGE"@,
            Self::InvalidType => "MACH_SEND_INVALID_TYPE"@,
            Self::InvalidHeader => "MACH_SEND_INVALID_HEADER"@,
            Self::InvalidTrailer => "MACH_SEND_INVALID_TRAILER"@,
            Self::InvalidRtOolSize => "MACH_SEND_INVALID_RT_OOL_SIZE"@,
        }
    }

    /// Every kind is the kind of its own error code, and of no other
    /// kind's.
    pub proof fn lemma_code(self)
        ensures
            Self::spec_from_error_code(self.spec_code()) == Some(self),
            error_code(self.spec_code()) == self.spec_code(),
            !has_flag(self.spec_code(), MACH_MSG_VM_SPACE),
            !has_flag(self.spec_code(), MACH_MSG_VM_KERNEL),
            !has_flag(self.spec_code(), MACH_MSG_IPC_SPACE),
            !has_flag(self.spec_code(), MACH_MSG_IPC_KERNEL),
    {
        let code = self.spec_code();
        assert(code & !0x3e00i32 == code && code & 0x1000i32 != 0x1000i32 && code & 0x400i32
            != 0x400i32 && code & 0x2000i32 != 0x2000i32 && code & 0x800i32 != 0x800i32)
            by (bit_vector)
            requires
                0x1000_0001i32 <= code <= 0x1000_0015i32,
        ;
    }
}

/// An error returned when receiving a Mach message.
#[derive(Copy, Clone, Eq, PartialEq, Debug, Hash, Structural)]
pub enum RecvErrorKind {
    /// Thread is waiting for receive.  (Internal use only.)
    InProgress,
    /// Bogus name for receive port/port-set.
    InvalidName,
    /// Didn't get a message within the timeout value.
    TimedOut,
    /// Message buffer is not large enough for inline data.
    TooLarge,
    /// Software interrupt.
    Interrupted,
    /// compatibility: no longer a returned error
    PortChanged,
    /// Bogus notify port argument.
    InvalidNotify,
    /// Bogus message buffer for inline data.
    InvalidData,
    /// Port/set was sent away/died during receive.
    PortDied,
    /// compatibility: no longer a returned error
    InSet,
    /// Error receiving message header.  See special bits.
    HeaderError,
    /// Error receiving message body.  See special bits.
    BodyError,
    /// Invalid msg-type specification in scatter list.
    InvalidType,
    /// Out-of-line overwrite region is not large enough
    ScatterSmall,
    /// trailer type or number of trailer elements not supported
    InvalidTrailer,
    /// Waiting for receive with timeout. (Internal use only.)
    InProgressTimed,
}

impl RecvErrorKind {
    /// The error code of the kind.
    pub open spec fn spec_code(self) -> i32 {
        match self {
            Self::InProgress => MACH_RCV_IN_PROGRESS,
            Self::InvalidName => MACH_RCV_INVALID_NAME,
            Self::TimedOut => MACH_RCV_TIMED_OUT,
            Self::TooLarge => MACH_RCV_TOO_LARGE,
            Self::Interrupted => MACH_RCV_INTERRUPTED,
            Self::PortChanged => MACH_RCV_PORT_CHANGED,
            Self::InvalidNotify => MACH_RCV_INVALID_NOTIFY,
            Self::InvalidData => MACH_RCV_INVALID_DATA,
            Self::PortDied => MACH_RCV_PORT_DIED,
            Self::InSet => MACH_RCV_IN_SET,
            Self::HeaderError => MACH_RCV_HEADER_ERROR,
            Self::BodyError => MACH_RCV_BODY_ERROR,
            Self::InvalidType => MACH_RCV_INVALID_TYPE,
            Self::ScatterSmall => MACH_RCV_SCATTER_SMALL,
            Self::InvalidTrailer => MACH_RCV_INVALID_TRAILER,
            Self::InProgressTimed => MACH_RCV_IN_PROGRESS_TIMED,
        }
    }

    /// The error code of the kind.
    pub fn code(self) -> (code: i32)
        ensures
            code == self.spec_code(),
    {
        match self {
            Self::InProgress => MACH_RCV_IN_PROGRESS,
            Self::InvalidName => MACH_RCV_INVALID_NAME,
            Self::TimedOut => MACH_RCV_TIMED_OUT,
            Self::TooLarge => MACH_RCV_TOO_LARGE,
            Self::Interrupted => MACH_RCV_INTERRUPTED,
            Self::PortChanged => MACH_RCV_PORT_CHANGED,
            Self::InvalidNotify => MACH_RCV_INVALID_NOTIFY,
            Self::InvalidData => MACH_RCV_INVALID_DATA,
            Self::PortDied => MACH_RCV_PORT_DIED,
            Self::InSet => MACH_RCV_IN_SET,
            Self::HeaderError => MACH_RCV_HEADER_ERROR,
            Self::BodyError => MACH_RCV_BODY_ERROR,
            Self::InvalidType => MACH_RCV_INVALID_TYPE,
            Self::ScatterSmall => MACH_RCV_SCATTER_SMALL,
            Self::InvalidTrailer => MACH_RCV_INVALID_TRAILER,
            Self::InProgressTimed => MACH_RCV_IN_PROGRESS_TIMED,
        }
    }

    /// The kind of a known error code.
    pub open spec fn spec_from_error_code(code: i32) -> Option<Self> {
        if code == MACH_RCV_IN_PROGRESS {
            Some(Self::InProgress)
        }         else if code == MACH_RCV_INVALID_NAME {
            Some(Self::InvalidName)
        }         else if code == MACH_RCV_TIMED_OUT {
            Some(Self::TimedOut)
        }         else if code == MACH_RCV_TOO_LARGE {
            Some(Self::TooLarge)
        }         else if code == MACH_RCV_INTERRUPTED {
            Some(Self::Interrupted)
        }         else if code == MACH_RCV_PORT_CHANGED {
            Some(Self::PortChanged)
        }         else if code == MACH_RCV_INVALID_NOTIFY {
            Some(Self::InvalidNotify)
        }         else if code == MACH_RCV_INVALID_DATA {
            Some(Self::InvalidData)
        }         else if code == MACH_RCV_PORT_DIED {
            Some(Self::PortDied)
        }         else if code == MACH_RCV_IN_SET {
            Some(Self::InSet)
        }         else if code == MACH_RCV_HEADER_ERROR {
            Some(Self::HeaderError)
        }         else if code == MACH_RCV_BODY_ERROR {
            Some(Self::BodyError)
        }         else if code == MACH_RCV_INVALID_TYPE {
            Some(Self::InvalidType)
        }         else if code == MACH_RCV_SCATTER_SMALL {
            Some(Self::ScatterSmall)
        }         else if code == MACH_RCV_INVALID_TRAILER {
            Some(Self::InvalidTrailer)
        }         else if code == MACH_RCV_IN_PROGRESS_TIMED {
            Some(Self::InProgressTimed)
        } else {
            None
        }
    }

    /// Creates a `RecvErrorKind` from a known error code or returns `None`.
    pub fn from_error_code(code: i32) -> (kind: Option<Self>)
        ensures
            kind == Self::spec_from_error_code(code),
    {
        if code == MACH_RCV_IN_PROGRESS {
            Some(Self::InProgress)
        }         else if code == MACH_RCV_INVALID_NAME {
            Some(Self::InvalidName)
        }         else if code == MACH_RCV_TIMED_OUT {
            Some(Self::TimedOut)
        }         else if code == MACH_RCV_TOO_LARGE {
            Some(Self::TooLarge)
        }         else if code == MACH_RCV_INTERRUPTED {
            Some(Self::Interrupted)
        }         else if code == MACH_RCV_PORT_CHANGED {
            Some(Self::PortChanged)
        }         else if code == MACH_RCV_INVALID_NOTIFY {
            Some(Self::InvalidNotify)
        }         else if code == MACH_RCV_INVALID_DATA {
            Some(Self::InvalidData)
        }         else if code == MACH_RCV_PORT_DIED {
            Some(Self::PortDied)
        }         else if code == MACH_RCV_IN_SET {
            Some(Self::InSet)
        }         else if code == MACH_RCV_HEADER_ERROR {
            Some(Self::HeaderError)
        }         else if code == MACH_RCV_BODY_ERROR {
            Some(Self::BodyError)
        }         else if code == MACH_RCV_INVALID_TYPE {
            Some(Self::InvalidType)
        }         else if code == MACH_RCV_SCATTER_SMALL {
            Some(Self::ScatterSmall)
        }         else if code == MACH_RCV_INVALID_TRAILER {
            Some(Self::InvalidTrailer)
        }         else if code == MACH_RCV_IN_PROGRESS_TIMED {
            Some(Self::InProgressTimed)
        } else {
            None
        }
    }

    /// The name of the error code of the kind.
    pub fn name(self) -> (name: &'static str)
        ensures
            name@ == self.spec_name(),
    {
        match self {
            Self::InProgress => "MACH_RCV_IN_PROGRESS",
            Self::InvalidName => "MACH_RCV_INVALID_NAME",
            Self::TimedOut => "MACH_RCV_TIMED_OUT",
            Self::TooLarge => "MACH_RCV_TOO_LARGE",
            Self::Interrupted => "MACH_RCV_INTERRUPTED",
            Self::PortChanged => "MACH_RCV_PORT_CHANGED",
            Self::InvalidNotify => "MACH_RCV_INVALID_NOTIFY",
            Self::InvalidData => "MACH_RCV_INVALID_DATA",
            Self::PortDied => "MACH_RCV_PORT_DIED",
            Self::InSet => "MACH_RCV_IN_SET",
            Self::HeaderError => "MACH_RCV_HEADER_ERROR",
            Self::BodyError => "MACH_RCV_BODY_ERROR",
            Self::InvalidType => "MACH_RCV_INVALID_TYPE",
            Self::ScatterSmall => "MACH_RCV_SCATTER_SMALL",
            Self::InvalidTrailer => "MACH_RCV_INVALID_TRAILER",
            Self::InProgressTimed => "MACH_RCV_IN_PROGRESS_TIMED",
        }
    }

    /// The name of the error code of the kind.
    pub open spec fn spec_name(self) -> Seq<char> {
        match self {
            Self::InProgress => "MACH_RCV_IN_PROGRESS"@,
            Self::InvalidName => "MACH_RCV_INVALID_NAME"@,
            Self::TimedOut => "MACH_RCV_TIMED_OUT"@,
            Self::TooLarge => "MACH_RCV_TOO_LARGE"@,
            Self::Interrupted => "MACH_RCV_INTERRUPTED"@,
            Self::PortChanged => "MACH_RCV_PORT_CHANGED"@,
            Self::InvalidNotify => "MACH_RCV_INVALID_NOTIFY"@,
            Self::InvalidData => "MACH_RCV_INVALID_DATA"@,
            Self::PortDied => "MACH_RCV_PORT_DIED"@,
            Self::InSet => "MACH_RCV_IN_SET"@,
            Self::HeaderError => "MACH_RCV_HEADER_ERROR"@,
            Self::BodyError => "MACH_RCV_BODY_ERROR"@,
            Self::InvalidType => "MACH_RCV_INVALID_TYPE"@,
            Self::ScatterSmall => "MACH_RCV_SCATTER_SMALL"@,
            Self::InvalidTrailer => "MACH_RCV_INVALID_TRAILER"@,
            Self::InProgressTimed => "MACH_RCV_IN_PROGRESS_TIMED"@,
        }
    }

    /// Every kind is the kind of its own error code, and of no other
    /// kind's.
    pub proof fn lemma_code(self)
        ensures
            Self::spec_from_error_code(self.spec_code()) == Some(self),
            error_code(self.spec_code()) == self.spec_code(),
            !has_flag(self.spec_code(), MACH_MSG_VM_SPACE),
            !has_flag(self.spec_code(), MACH_MSG_VM_KERNEL),
            !has_flag(self.spec_code(), MACH_MSG_IPC_SPACE),
            !has_flag(self.spec_code(), MACH_MSG_IPC_KERNEL),
    {
        let code = self.spec_code();
        assert(code & !0x3e00i32 == code && code & 0x1000i32 != 0x1000i32 && code & 0x400i32
            != 0x400i32 && code & 0x2000i32 != 0x2000i32 && code & 0x800i32 != 0x800i32)
            by (bit_vector)
            requires
                0x1000_4001i32 <= code <= 0x1000_4011i32,
        ;
    }
}

/// Represents an error returned on message send failure.
#[derive(Copy, Clone, Eq, PartialEq, Debug, Hash, Structural)]
pub struct SendError(i32);

impl View for SendError {
    type V = i32;

    closed spec fn view(&self) -> i32 {
        self.0
    }
}

impl SendError {
    /// Creates an error from its kind only.
    pub fn from_kind(kind: SendErrorKind) -> (error: Self)
        ensures
            error@ == kind.spec_code(),
    {
        Self(kind.code())
    }

    /// Creates an error from its raw value.
    pub fn from_bits(bits: i32) -> (error: Self)
        ensures
            error@ == bits,
    {
        Self(bits)
    }

    /// The raw value of the error.
    pub fn bits(self) -> (bits: i32)
        ensures
            bits == self@,
    {
        self.0
    }

    /// The kind of the error, where its error code is a known one.
    pub open spec fn spec_kind(self) -> Option<SendErrorKind> {
        SendErrorKind::spec_from_error_code(error_code(self@))
    }

    /// Returns the error kind of the error, where its error code is a known
    /// one.
    pub fn try_kind(self) -> (kind: Option<SendErrorKind>)
        ensures
            kind == self.spec_kind(),
    {
        SendErrorKind::from_error_code(self.0 & !MACH_MSG_MASK)
    }

    /// Returns the error kind of the error, whose error code is a known one.
    pub fn kind(self) -> (kind: SendErrorKind)
        requires
            self.spec_kind().is_some(),
        ensures
            Some(kind) == self.spec_kind(),
    {
        SendErrorKind::from_error_code(self.0 & !MACH_MSG_MASK).unwrap()
    }

    /// Returns the VM space flag of the error.
    #[inline(always)]
    pub fn vm_space(self) -> (flag: bool)
        ensures
            flag == has_flag(self@, MACH_MSG_VM_SPACE),
    {
        self.0 & MACH_MSG_VM_SPACE == MACH_MSG_VM_SPACE
    }

    /// Returns the same error with the VM space flag either set or reset.
    #[inline(always)]
    pub fn set_vm_space(self, value: bool) -> (error: Self)
        ensures
            error@ == with_flag(self@, MACH_MSG_VM_SPACE, value),
            has_flag(error@, MACH_MSG_VM_SPACE) == value,
            error.spec_kind() == self.spec_kind(),
            has_flag(error@, MACH_MSG_VM_KERNEL) == has_flag(self@, MACH_MSG_VM_KERNEL),
            has_flag(error@, MACH_MSG_IPC_SPACE) == has_flag(self@, MACH_MSG_IPC_SPACE),
            has_flag(error@, MACH_MSG_IPC_KERNEL) == has_flag(self@, MACH_MSG_IPC_KERNEL),
    {
        proof {
            lemma_with_flag(self@, MACH_MSG_VM_SPACE, value, MACH_MSG_VM_KERNEL);
            lemma_with_flag(self@, MACH_MSG_VM_SPACE, value, MACH_MSG_IPC_SPACE);
            lemma_with_flag(self@, MACH_MSG_VM_SPACE, value, MACH_MSG_IPC_KERNEL);
        }
        Self(set_flag(self.0, MACH_MSG_VM_SPACE, value))
    }

    /// Returns the VM kernel flag of the error.
    #[inline(always)]
    pub fn vm_kernel(self) -> (flag: bool)
        ensures
            flag == has_flag(self@, MACH_MSG_VM_KERNEL),
    {
        self.0 & MACH_MSG_VM_KERNEL == MACH_MSG_VM_KERNEL
    }

    /// Returns the same error with the VM kernel flag either set or reset.
    #[inline(always)]
    pub fn set_vm_kernel(self, value: bool) -> (error: Self)
        ensures
            error@ == with_flag(self@, MACH_MSG_VM_KERNEL, value),
            has_flag(error@, MACH_MSG_VM_KERNEL) == value,
            error.spec_kind() == self.spec_kind(),
            has_flag(error@, MACH_MSG_VM_SPACE) == has_flag(self@, MACH_MSG_VM_SPACE),
            has_flag(error@, MACH_MSG_IPC_SPACE) == has_flag(self@, MACH_MSG_IPC_SPACE),
            has_flag(error@, MACH_MSG_IPC_KERNEL) == has_flag(self@, MACH_MSG_IPC_KERNEL),
    {
        proof {
            lemma_with_flag(self@, MACH_MSG_VM_KERNEL, value, MACH_MSG_VM_SPACE);
            lemma_with_flag(self@, MACH_MSG_VM_KERNEL, value, MACH_MSG_IPC_SPACE);
            lemma_with_flag(self@, MACH_MSG_VM_KERNEL, value, MACH_MSG_IPC_KERNEL);
        }
        Self(set_flag(self.0, MACH_MSG_VM_KERNEL, value))
    }

    /// Returns the IPC space flag of the error.
    #[inline(always)]
    pub fn ipc_space(self) -> (flag: bool)
        ensures
            flag == has_flag(self@, MACH_MSG_IPC_SPACE),
    {
        self.0 & MACH_MSG_IPC_SPACE == MACH_MSG_IPC_SPACE
    }

    /// Returns the same error with the IPC space flag either set or reset.
    #[inline(always)]
    pub fn set_ipc_space(self, value: bool) -> (error: Self)
        ensures
            error@ == with_flag(self@, MACH_MSG_IPC_SPACE, value),
            has_flag(error@, MACH_MSG_IPC_SPACE) == value,
            error.spec_kind() == self.spec_kind(),
            has_flag(error@, MACH_MSG_VM_SPACE) == has_flag(self@, MACH_MSG_VM_SPACE),
            has_flag(error@, MACH_MSG_VM_KERNEL) == has_flag(self@, MACH_MSG_VM_KERNEL),
            has_flag(error@, MACH_MSG_IPC_KERNEL) == has_flag(self@, MACH_MSG_IPC_KERNEL),
    {
        proof {
            lemma_with_flag(self@, MACH_MSG_IPC_SPACE, value, MACH_MSG_VM_SPACE);
            lemma_with_flag(self@, MACH_MSG_IPC_SPACE, value, MACH_MSG_VM_KERNEL);
            lemma_with_flag(self@, MACH_MSG_IPC_SPACE, value, MACH_MSG_IPC_KERNEL);
        }
        Self(set_flag(self.0, MACH_MSG_IPC_SPACE, value))
    }

    /// Returns the IPC kernel flag of the error.
    #[inline(always)]
    pub fn ipc_kernel(self) -> (flag: bool)
        ensures
            flag == has_flag(self@, MACH_MSG_IPC_KERNEL),
    {
        self.0 & MACH_MSG_IPC_KERNEL == MACH_MSG_IPC_KERNEL
    }

    /// Returns the same error with the IPC kernel flag either set or reset.
    #[inline(always)]
    pub fn set_ipc_kernel(self, value: bool) -> (error: Self)
        ensures
            error@ == with_flag(self@, MACH_MSG_IPC_KERNEL, value),
            has_flag(error@, MACH_MSG_IPC_KERNEL) == value,
            error.spec_kind() == self.spec_kind(),
            has_flag(error@, MACH_MSG_VM_SPACE) == has_flag(self@, MACH_MSG_VM_SPACE),
            has_flag(error@, MACH_MSG_VM_KERNEL) == has_flag(self@, MACH_MSG_VM_KERNEL),
            has_flag(error@, MACH_MSG_IPC_SPACE) == has_flag(self@, MACH_MSG_IPC_SPACE),
    {
        proof {
            lemma_with_flag(self@, MACH_MSG_IPC_KERNEL, value, MACH_MSG_VM_SPACE);
            lemma_with_flag(self@, MACH_MSG_IPC_KERNEL, value, MACH_MSG_VM_KERNEL);
            lemma_with_flag(self@, MACH_MSG_IPC_KERNEL, value, MACH_MSG_IPC_SPACE);
        }
        Self(set_flag(self.0, MACH_MSG_IPC_KERNEL, value))
    }

    /// The error in words: the name of its error code, and behind it the
    /// name of each flag that it has, each after a bar.
    pub open spec fn spec_to_string(self) -> Seq<char> {
        self.spec_kind().unwrap().spec_name() + (if has_flag(self@, MACH_MSG_VM_SPACE) {
            "|MACH_MSG_VM_SPACE"@
        } else {
            Seq::empty()
        }) + (if has_flag(self@, MACH_MSG_VM_KERNEL) {
            "|MACH_MSG_VM_KERNEL"@
        } else {
            Seq::empty()
        }) + (if has_flag(self@, MACH_MSG_IPC_SPACE) {
            "|MACH_MSG_IPC_SPACE"@
        } else {
            Seq::empty()
        }) + (if has_flag(self@, MACH_MSG_IPC_KERNEL) {
            "|MACH_MSG_IPC_KERNEL"@
        } else {
            Seq::empty()
        })
    }

    /// The error in words, for an error whose error code is a known one.
    pub fn to_string(self) -> (text: String)
        requires
            self.spec_kind().is_some(),
        ensures
            text@ == self.spec_to_string(),
    {
        let mut text = String::new();
        push_str(&mut text, self.kind().name());
        assert(text@ =~= self.spec_kind().unwrap().spec_name());
        let ghost name = text@;
        if self.vm_space() {
            push_str(&mut text, "|MACH_MSG_VM_SPACE");
        }
        let ghost first = text@;
        assert(first =~= name + (if has_flag(self@, MACH_MSG_VM_SPACE) {
            "|MACH_MSG_VM_SPACE"@
        } else {
            Seq::empty()
        }));
        if self.vm_kernel() {
            push_str(&mut text, "|MACH_MSG_VM_KERNEL");
        }
        let ghost second = text@;
        assert(second =~= first + (if has_flag(self@, MACH_MSG_VM_KERNEL) {
            "|MACH_MSG_VM_KERNEL"@
        } else {
            Seq::empty()
        }));
        if self.ipc_space() {
            push_str(&mut text, "|MACH_MSG_IPC_SPACE");
        }
        let ghost third = text@;
        assert(third =~= second + (if has_flag(self@, MACH_MSG_IPC_SPACE) {
            "|MACH_MSG_IPC_SPACE"@
        } else {
            Seq::empty()
        }));
        if self.ipc_kernel() {
            push_str(&mut text, "|MACH_MSG_IPC_KERNEL");
        }
        assert(text@ =~= third + (if has_flag(self@, MACH_MSG_IPC_KERNEL) {
            "|MACH_MSG_IPC_KERNEL"@
        } else {
            Seq::empty()
        }));
        text
    }
}

/// Represents an error returned on message reception failure.
#[derive(Copy, Clone, Eq, PartialEq, Debug, Hash, Structural)]
pub struct RecvError(i32);

impl View for RecvError {
    type V = i32;

    closed spec fn view(&self) -> i32 {
        self.0
    }
}

impl RecvError {
    /// Creates an error from its kind only.
    pub fn from_kind(kind: RecvErrorKind) -> (error: Self)
        ensures
            error@ == kind.spec_code(),
    {
        Self(kind.code())
    }

    /// Creates an error from its raw value.
    pub fn from_bits(bits: i32) -> (error: Self)
        ensures
            error@ == bits,
    {
        Self(bits)
    }

    /// The raw value of the error.
    pub fn bits(self) -> (bits: i32)
        ensures
            bits == self@,
    {
        self.0
    }

    /// The kind of the error, where its error code is a known one.
    pub open spec fn spec_kind(self) -> Option<RecvErrorKind> {
        RecvErrorKind::spec_from_error_code(error_code(self@))
    }

    /// Returns the error kind of the error, where its error code is a known
    /// one.
    pub fn try_kind(self) -> (kind: Option<RecvErrorKind>)
        ensures
            kind == self.spec_kind(),
    {
        RecvErrorKind::from_error_code(self.0 & !MACH_MSG_MASK)
    }

    /// Returns the error kind of the error, whose error code is a known one.
    pub fn kind(self) -> (kind: RecvErrorKind)
        requires
            self.spec_kind().is_some(),
        ensures
            Some(kind) == self.spec_kind(),
    {
        RecvErrorKind::from_error_code(self.0 & !MACH_MSG_MASK).unwrap()
    }

    /// Returns the VM space flag of the error.
    #[inline(always)]
    pub fn vm_space(self) -> (flag: bool)
        ensures
            flag == has_flag(self@, MACH_MSG_VM_SPACE),
    {
        self.0 & MACH_MSG_VM_SPACE == MACH_MSG_VM_SPACE
    }

    /// Returns the same error with the VM space flag either set or reset.
    #[inline(always)]
    pub fn set_vm_space(self, value: bool) -> (error: Self)
        ensures
            error@ == with_flag(self@, MACH_MSG_VM_SPACE, value),
            has_flag(error@, MACH_MSG_VM_SPACE) == value,
            error.spec_kind() == self.spec_kind(),
            has_flag(error@, MACH_MSG_VM_KERNEL) == has_flag(self@, MACH_MSG_VM_KERNEL),
            has_flag(error@, MACH_MSG_IPC_SPACE) == has_flag(self@, MACH_MSG_IPC_SPACE),
            has_flag(error@, MACH_MSG_IPC_KERNEL) == has_flag(self@, MACH_MSG_IPC_KERNEL),
    {
        proof {
            lemma_with_flag(self@, MACH_MSG_VM_SPACE, value, MACH_MSG_VM_KERNEL);
            lemma_with_flag(self@, MACH_MSG_VM_SPACE, value, MACH_MSG_IPC_SPACE);
            lemma_with_flag(self@, MACH_MSG_VM_SPACE, value, MACH_MSG_IPC_KERNEL);
        }
        Self(set_flag(self.0, MACH_MSG_VM_SPACE, value))
    }

    /// Returns the VM kernel flag of the error.
    #[inline(always)]
    pub fn vm_kernel(self) -> (flag: bool)
        ensures
            flag == has_flag(self@, MACH_MSG_VM_KERNEL),
    {
        self.0 & MACH_MSG_VM_KERNEL == MACH_MSG_VM_KERNEL
    }

    /// Returns the same error with the VM kernel flag either set or reset.
    #[inline(always)]
    pub fn set_vm_kernel(self, value: bool) -> (error: Self)
        ensures
            error@ == with_flag(self@, MACH_MSG_VM_KERNEL, value),
            has_flag(error@, MACH_MSG_VM_KERNEL) == value,
            error.spec_kind() == self.spec_kind(),
            has_flag(error@, MACH_MSG_VM_SPACE) == has_flag(self@, MACH_MSG_VM_SPACE),
            has_flag(error@, MACH_MSG_IPC_SPACE) == has_flag(self@, MACH_MSG_IPC_SPACE),
            has_flag(error@, MACH_MSG_IPC_KERNEL) == has_flag(self@, MACH_MSG_IPC_KERNEL),
    {
        proof {
            lemma_with_flag(self@, MACH_MSG_VM_KERNEL, value, MACH_MSG_VM_SPACE);
            lemma_with_flag(self@, MACH_MSG_VM_KERNEL, value, MACH_MSG_IPC_SPACE);
            lemma_with_flag(self@, MACH_MSG_VM_KERNEL, value, MACH_MSG_IPC_KERNEL);
        }
        Self(set_flag(self.0, MACH_MSG_VM_KERNEL, value))
    }

    /// Returns the IPC space flag of the error.
    #[inline(always)]
    pub fn ipc_space(self) -> (flag: bool)
        ensures
            flag == has_flag(self@, MACH_MSG_IPC_SPACE),
    {
        self.0 & MACH_MSG_IPC_SPACE == MACH_MSG_IPC_SPACE
    }

    /// Returns the same error with the IPC space flag either set or reset.
    #[inline(always)]
    pub fn set_ipc_space(self, value: bool) -> (error: Self)
        ensures
            error@ == with_flag(self@, MACH_MSG_IPC_SPACE, value),
            has_flag(error@, MACH_MSG_IPC_SPACE) == value,
            error.spec_kind() == self.spec_kind(),
            has_flag(error@, MACH_MSG_VM_SPACE) == has_flag(self@, MACH_MSG_VM_SPACE),
            has_flag(error@, MACH_MSG_VM_KERNEL) == has_flag(self@, MACH_MSG_VM_KERNEL),
            has_flag(error@, MACH_MSG_IPC_KERNEL) == has_flag(self@, MACH_MSG_IPC_KERNEL),
    {
        proof {
            lemma_with_flag(self@, MACH_MSG_IPC_SPACE, value, MACH_MSG_VM_SPACE);
            lemma_with_flag(self@, MACH_MSG_IPC_SPACE, value, MACH_MSG_VM_KERNEL);
            lemma_with_flag(self@, MACH_MSG_IPC_SPACE, value, MACH_MSG_IPC_KERNEL);
        }
        Self(set_flag(self.0, MACH_MSG_IPC_SPACE, value))
    }

    /// Returns the IPC kernel flag of the error.
    #[inline(always)]
    pub fn ipc_kernel(self) -> (flag: bool)
        ensures
            flag == has_flag(self@, MACH_MSG_IPC_KERNEL),
    {
        self.0 & MACH_MSG_IPC_KERNEL == MACH_MSG_IPC_KERNEL
    }

    /// Returns the same error with the IPC kernel flag either set or reset.
    #[inline(always)]
    pub fn set_ipc_kernel(self, value: bool) -> (error: Self)
        ensures
            error@ == with_flag(self@, MACH_MSG_IPC_KERNEL, value),
            has_flag(error@, MACH_MSG_IPC_KERNEL) == value,
            error.spec_kind() == self.spec_kind(),
            has_flag(error@, MACH_MSG_VM_SPACE) == has_flag(self@, MACH_MSG_VM_SPACE),
            has_flag(error@, MACH_MSG_VM_KERNEL) == has_flag(self@, MACH_MSG_VM_KERNEL),
            has_flag(error@, MACH_MSG_IPC_SPACE) == has_flag(self@, MACH_MSG_IPC_SPACE),
    {
        proof {
            lemma_with_flag(self@, MACH_MSG_IPC_KERNEL, value, MACH_MSG_VM_SPACE);
            lemma_with_flag(self@, MACH_MSG_IPC_KERNEL, value, MACH_MSG_VM_KERNEL);
            lemma_with_flag(self@, MACH_MSG_IPC_KERNEL, value, MACH_MSG_IPC_SPACE);
        }
        Self(set_flag(self.0, MACH_MSG_IPC_KERNEL, value))
    }

    /// The error in words: the name of its error code, and behind it the
    /// name of each flag that it has, each after a bar.
    pub open spec fn spec_to_string(self) -> Seq<char> {
        self.spec_kind().unwrap().spec_name() + (if has_flag(self@, MACH_MSG_VM_SPACE) {
            "|MACH_MSG_VM_SPACE"@
        } else {
            Seq::empty()
        }) + (if has_flag(self@, MACH_MSG_VM_KERNEL) {
            "|MACH_MSG_VM_KERNEL"@
        } else {
            Seq::empty()
        }) + (if has_flag(self@, MACH_MSG_IPC_SPACE) {
            "|MACH_MSG_IPC_SPACE"@
        } else {
            Seq::empty()
        }) + (if has_flag(self@, MACH_MSG_IPC_KERNEL) {
            "|MACH_MSG_IPC_KERNEL"@
        } else {
            Seq::empty()
        })
    }

    /// The error in words, for an error whose error code is a known one.
    pub fn to_string(self) -> (text: String)
        requires
            self.spec_kind().is_some(),
        ensures
            text@ == self.spec_to_string(),
    {
        let mut text = String::new();
        push_str(&mut text, self.kind().name());
        assert(text@ =~= self.spec_kind().unwrap().spec_name());
        let ghost name = text@;
        if self.vm_space() {
            push_str(&mut text, "|MACH_MSG_VM_SPACE");
        }
        let ghost first = text@;
        assert(first =~= name + (if has_flag(self@, MACH_MSG_VM_SPACE) {
            "|MACH_MSG_VM_SPACE"@
        } else {
            Seq::empty()
        }));
        if self.vm_kernel() {
            push_str(&mut text, "|MACH_MSG_VM_KERNEL");
        }
        let ghost second = text@;
        assert(second =~= first + (if has_flag(self@, MACH_MSG_VM_KERNEL) {
            "|MACH_MSG_VM_KERNEL"@
        } else {
            Seq::empty()
        }));
        if self.ipc_space() {
            push_str(&mut text, "|MACH_MSG_IPC_SPACE");
        }
        let ghost third = text@;
        assert(third =~= second + (if has_flag(self@, MACH_MSG_IPC_SPACE) {
            "|MACH_MSG_IPC_SPACE"@
        } else {
            Seq::empty()
        }));
        if self.ipc_kernel() {
            push_str(&mut text, "|MACH_MSG_IPC_KERNEL");
        }
        assert(text@ =~= third + (if has_flag(self@, MACH_MSG_IPC_KERNEL) {
            "|MACH_MSG_IPC_KERNEL"@
        } else {
            Seq::empty()
        }));
        text
    }
}

} // verus!
