//! Contains traits for Mach port name wrappers.
mod sealed;

use crate::abi::{MACH_MSG_TYPE_MOVE_RECEIVE, MACH_MSG_TYPE_MOVE_SEND, MACH_MSG_TYPE_MOVE_SEND_ONCE};
use vstd::prelude::*;

verus! {

/// A trait to get a raw Mach port name from an object.
pub trait AsRawName {
    /// Specifies the right reference type of the extracted name.
    ///
    /// This may only be one of the base wrapper types:
    /// [`SendRight`](../rights/struct.SendRight.html),
    /// [`SendOnceRight`](../rights/struct.SendOnceRight.html) or
    /// [`RecvRight`](../rights/struct.RecvRight.html).
    type Base;

    /// The name that the object wraps.
    spec fn raw_name(&self) -> u32;

    /// Extracts the raw Mach port name.
    ///
    /// This function is intended to **borrow** a Mach port right reference. That is, the ownership
    /// of the reference isn't passed to the caller, and the name is only guaranteed to represent
    /// the corresponding port right only during the lifetime of the object.
    ///
    /// This function should not alter reference counts of the port right represented by the name.
    fn as_raw_name(&self) -> (name: u32)
        ensures
            name == self.raw_name(),
    ;
}

/// A trait to convert an object into a raw Mach port name while taking ownership
/// of the port right reference represented by the name.
pub trait IntoRawName: AsRawName + Sized {
    /// Converts an object into a raw Mach port name.
    ///
    /// This function is intended to **pass** a Mach port right reference from a destructed object
    /// to the caller. That means the caller will be responsible for properly dropping the reference
    /// when it is no longer needed.
    ///
    /// This function should not alter reference counts of the port right represented by the name.
    fn into_raw_name(self) -> (name: u32)
        ensures
            name == self.raw_name(),
    ;
}

/// A trait only implemented by the base wrappers: [`SendRight`](../rights/struct.SendRight.html),
/// [`SendOnceRight`](../rights/struct.SendOnceRight.html) and
/// [`RecvRight`](../rights/struct.RecvRight.html).
pub trait BaseRight: IntoRawName + sealed::Sealed {
    /// The disposition under which a message moves a right of this class.
    spec fn spec_msg_type() -> u32;

    /// The disposition under which a message moves a right of this class:
    /// one of the three move dispositions.
    fn msg_type() -> (disposition: u32)
        ensures
            disposition == Self::spec_msg_type(),
            disposition == MACH_MSG_TYPE_MOVE_RECEIVE || disposition == MACH_MSG_TYPE_MOVE_SEND
                || disposition == MACH_MSG_TYPE_MOVE_SEND_ONCE,
    ;
}

/// A trait only implemented by the base wrappers of rights that a message can
/// be sent to: [`SendRight`](../rights/struct.SendRight.html) and
/// [`SendOnceRight`](../rights/struct.SendOnceRight.html).
pub trait BaseSendRight: BaseRight {
    /// The disposition under which a message moves a right of this class:
    /// one of the two that a reply port can have.
    fn send_msg_type() -> (disposition: u32)
        ensures
            disposition == Self::spec_msg_type(),
            disposition == MACH_MSG_TYPE_MOVE_SEND || disposition == MACH_MSG_TYPE_MOVE_SEND_ONCE,
    ;
}

} // verus!
