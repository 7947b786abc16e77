//! Provides wrappers for Mach port right names.
//!
//! The module provides 3 types [`SendRight`], [`SendOnceRight`] and [`RecvRight`] that are wrappers
//! for raw port names.
//!
//! # Ownership
//!
//! Each of these values represent a single user reference on the corresponding right to a Mach
//! port. A value cannot be copied. The one who holds it owes the kernel one call that gives the
//! reference back, which [`SendRight::mod_refs`] and its like describe, unless a message took
//! the reference with it.
use crate::abi::{
    KERN_INVALID_RIGHT, KERN_SUCCESS, MACH_MSG_TYPE_COPY_SEND, MACH_MSG_TYPE_MAKE_SEND,
    MACH_MSG_TYPE_MOVE_RECEIVE, MACH_MSG_TYPE_MOVE_SEND, MACH_MSG_TYPE_MOVE_SEND_ONCE,
    MACH_PORT_NULL, MACH_PORT_RIGHT_DEAD_NAME, MACH_PORT_RIGHT_RECEIVE, MACH_PORT_RIGHT_SEND,
    MACH_PORT_RIGHT_SEND_ONCE, MACH_RCV_MSG, MACH_SEND_MSG,
};
use crate::kernel::{InsertRight, ModRefs, MsgCall, PortAllocate};
use crate::msg::buffer::{resized, Buffer, BufferView, MachMsgHeader, HEADER_SIZE};
use crate::msg::builder::{lemma_dispositions, MsgBuilder};
use crate::msg::error::{RecvError, SendError};
use crate::msg::parser::{message_body, MsgParser};
use crate::msg::{fits_slot, MachMsgBits};
use crate::traits::{AsRawName, BaseRight, BaseSendRight, IntoRawName};
use vstd::prelude::*;

verus! {

/// The first call that changes the reference count of a right.
pub fn mod_refs_wrapper(name: u32, right: u32, delta: i32) -> (call: ModRefs)
    ensures
        call == (ModRefs { name, right, delta }),
{
    ModRefs { name, right, delta }
}

/// The call that follows `call` once the kernel has answered it with
/// `result`: the same change against the dead name, where the kernel said
/// that the name no longer denotes the right, and none otherwise.
///
/// The answer to the second call is final, whatever it is.
pub fn mod_refs_retry(call: ModRefs, result: i32) -> (retry: Option<ModRefs>)
    ensures
        retry == if result == KERN_INVALID_RIGHT {
            Some(ModRefs { right: MACH_PORT_RIGHT_DEAD_NAME, ..call })
        } else {
            None
        },
{
    if result == KERN_INVALID_RIGHT {
        Some(ModRefs { name: call.name, right: MACH_PORT_RIGHT_DEAD_NAME, delta: call.delta })
    } else {
        None
    }
}

/// The largest message, header and body together, that a receive call takes.
pub const RECV_SIZE: u32 = 4096;

/// The message of a builder as it is sent to the port `name`: the header with
/// the destination in its remote slot, under the disposition `bits`, and the
/// body as the builder laid it out.
pub open spec fn sent_message(name: u32, msg: MsgBuilder, bits: u32) -> BufferView {
    BufferView {
        header: MachMsgHeader {
            msgh_remote_port: name,
            msgh_bits: MachMsgBits(msg@.header.msgh_bits).spec_set_remote(bits).0,
            ..msg@.header
        },
        body: msg@.body(),
        capacity: msg@.capacity,
    }
}

/// The call that sends a message of `len` bytes: the length is given in 32
/// bits, and nothing is received.
pub open spec fn send_call(len: nat) -> MsgCall {
    MsgCall {
        option: MACH_SEND_MSG,
        send_size: (len % 0x1_0000_0000) as u32,
        rcv_size: 0,
        rcv_name: MACH_PORT_NULL,
        timeout: 0,
        notify: MACH_PORT_NULL,
    }
}

/// Finishes the message of a builder for the port `name` and gives the
/// builder up without handing back what the message owns: returns the buffer
/// that holds the message, and the call that sends the buffer's bytes.
///
/// Whatever the kernel answers, the rights that were moved into the message
/// and the regions that it was to unmap are gone with it.
pub fn send_impl(name: u32, msg: MsgBuilder, bits: u32) -> (sent: (Buffer, MsgCall))
    requires
        msg.wf(),
        fits_slot(bits),
    ensures
        sent.0.wf(),
        sent.0@ == sent_message(name, msg, bits),
        sent.1 == send_call(HEADER_SIZE as nat + msg@.body().len()),
{
    let mut msg = msg;
    msg.set_raw_remote_port(name, bits);
    let buffer = msg.into_buffer();
    let len = buffer.body().len() as u64 + HEADER_SIZE as u64;
    let call = MsgCall {
        option: MACH_SEND_MSG,
        send_size: (len % 0x1_0000_0000) as u32,
        rcv_size: 0,
        rcv_name: MACH_PORT_NULL,
        timeout: 0,
        notify: MACH_PORT_NULL,
    };
    (buffer, call)
}

/// What a send has come to, once the kernel has answered the call with
/// `result`: the error that the kernel reported, unchanged, if it reported
/// one.
pub fn send_result(result: i32) -> (sent: Result<(), SendError>)
    ensures
        match sent {
            Ok(()) => result == KERN_SUCCESS,
            Err(error) => result != KERN_SUCCESS && error@ == result,
        },
{
    if result == KERN_SUCCESS {
        Ok(())
    } else {
        Err(SendError::from_bits(result))
    }
}

/// A wrapper for a Mach port name that holds a send right to a port.
#[derive(Debug)]
pub struct SendRight(u32);

impl View for SendRight {
    type V = u32;

    closed spec fn view(&self) -> u32 {
        self.0
    }
}

impl SendRight {
    /// Creates a `SendRight` wrapper from a raw Mach port name.
    #[inline(always)]
    pub fn from_raw_name(name: u32) -> (right: Self)
        ensures
            right == Self::spec_from_raw_name(name),
            right@ == name,
    {
        SendRight(name)
    }

    /// The right of the name given.
    pub closed spec fn spec_from_raw_name(name: u32) -> Self {
        SendRight(name)
    }

    /// The right of a name has that name.
    pub proof fn lemma_from_raw_name(name: u32)
        ensures
            Self::spec_from_raw_name(name)@ == name,
    {
    }

    /// The call that changes the number of references on the send right.
    #[inline(always)]
    pub fn mod_refs(&self, delta: i32) -> (call: ModRefs)
        ensures
            call == (ModRefs { name: self@, right: MACH_PORT_RIGHT_SEND, delta }),
    {
        mod_refs_wrapper(self.0, MACH_PORT_RIGHT_SEND, delta)
    }

    /// Finishes a message built by a [`MsgBuilder`] for the port of the send
    /// right, and returns the buffer that holds it and the call that sends
    /// the buffer's bytes. The send right stays as it is.
    ///
    /// # Port right references
    /// The message takes all moved port right references that it holds with it, no matter if
    /// the message transfer is successful or not.
    pub fn send(&self, msg: MsgBuilder) -> (sent: (Buffer, MsgCall))
        requires
            msg.wf(),
        ensures
            sent.0.wf(),
            sent.0@ == sent_message(self@, msg, MACH_MSG_TYPE_COPY_SEND),
            sent.1 == send_call(HEADER_SIZE as nat + msg@.body().len()),
    {
        proof {
            lemma_dispositions();
        }
        send_impl(self.0, msg, MACH_MSG_TYPE_COPY_SEND)
    }

    /// A second reference on the send right, once the kernel has answered
    /// `self.mod_refs(1)` with `result`.
    #[inline(always)]
    pub fn clone(&self, result: i32) -> (right: Self)
        requires
            result == KERN_SUCCESS,
        ensures
            right@ == self@,
    {
        SendRight(self.0)
    }
}

impl AsRawName for SendRight {
    type Base = SendRight;

    open spec fn raw_name(&self) -> u32 {
        self@
    }

    #[inline(always)]
    fn as_raw_name(&self) -> (name: u32) {
        self.0
    }
}

impl<'a> AsRawName for &'a SendRight {
    type Base = SendRight;

    open spec fn raw_name(&self) -> u32 {
        self@
    }

    #[inline(always)]
    fn as_raw_name(&self) -> (name: u32) {
        self.0
    }
}

impl IntoRawName for SendRight {
    #[inline(always)]
    fn into_raw_name(self) -> (name: u32) {
        self.0
    }
}

impl BaseRight for SendRight {
    open spec fn spec_msg_type() -> u32 {
        MACH_MSG_TYPE_MOVE_SEND
    }

    fn msg_type() -> (disposition: u32) {
        MACH_MSG_TYPE_MOVE_SEND
    }
}

impl BaseSendRight for SendRight {
    fn send_msg_type() -> (disposition: u32) {
        MACH_MSG_TYPE_MOVE_SEND
    }
}

/// A wrapper for a Mach port name that holds a send once right to a port.
#[derive(Debug)]
pub struct SendOnceRight(u32);

impl View for SendOnceRight {
    type V = u32;

    closed spec fn view(&self) -> u32 {
        self.0
    }
}

impl SendOnceRight {
    /// Creates a `SendOnceRight` wrapper from a raw port name.
    #[inline(always)]
    pub fn from_raw_name(name: u32) -> (right: Self)
        ensures
            right == Self::spec_from_raw_name(name),
            right@ == name,
    {
        SendOnceRight(name)
    }

    /// The right of the name given.
    pub closed spec fn spec_from_raw_name(name: u32) -> Self {
        SendOnceRight(name)
    }

    /// The right of a name has that name.
    pub proof fn lemma_from_raw_name(name: u32)
        ensures
            Self::spec_from_raw_name(name)@ == name,
    {
    }

    /// Finishes a message built by a [`MsgBuilder`] for the port of the send
    /// once right, and returns the buffer that holds it and the call that
    /// sends the buffer's bytes. The send once right goes with the message.
    ///
    /// # Port right references
    /// The message takes all moved port right references that it holds with it, no matter if
    /// the message transfer is successful or not.
    pub fn send(self, msg: MsgBuilder) -> (sent: (Buffer, MsgCall))
        requires
            msg.wf(),
        ensures
            sent.0.wf(),
            sent.0@ == sent_message(self@, msg, MACH_MSG_TYPE_MOVE_SEND_ONCE),
            sent.1 == send_call(HEADER_SIZE as nat + msg@.body().len()),
    {
        proof {
            lemma_dispositions();
        }
        send_impl(self.0, msg, MACH_MSG_TYPE_MOVE_SEND_ONCE)
    }

    /// The call that changes the number of references on the send once right.
    #[inline(always)]
    pub fn mod_refs(&self, delta: i32) -> (call: ModRefs)
        ensures
            call == (ModRefs { name: self@, right: MACH_PORT_RIGHT_SEND_ONCE, delta }),
    {
        mod_refs_wrapper(self.0, MACH_PORT_RIGHT_SEND_ONCE, delta)
    }
}

impl AsRawName for SendOnceRight {
    type Base = SendOnceRight;

    open spec fn raw_name(&self) -> u32 {
        self@
    }

    #[inline(always)]
    fn as_raw_name(&self) -> (name: u32) {
        self.0
    }
}

impl<'a> AsRawName for &'a SendOnceRight {
    type Base = SendOnceRight;

    open spec fn raw_name(&self) -> u32 {
        self@
    }

    #[inline(always)]
    fn as_raw_name(&self) -> (name: u32) {
        self.0
    }
}

impl IntoRawName for SendOnceRight {
    #[inline(always)]
    fn into_raw_name(self) -> (name: u32) {
        self.0
    }
}

impl BaseRight for SendOnceRight {
    open spec fn spec_msg_type() -> u32 {
        MACH_MSG_TYPE_MOVE_SEND_ONCE
    }

    fn msg_type() -> (disposition: u32) {
        MACH_MSG_TYPE_MOVE_SEND_ONCE
    }
}

impl BaseSendRight for SendOnceRight {
    fn send_msg_type() -> (disposition: u32) {
        MACH_MSG_TYPE_MOVE_SEND_ONCE
    }
}

/// A wrapper for a Mach port name that holds a receive right to a port.
#[derive(Debug)]
pub struct RecvRight(u32);

impl View for RecvRight {
    type V = u32;

    closed spec fn view(&self) -> u32 {
        self.0
    }
}

impl RecvRight {
    /// The call that allocates a new port and returns a receive right to it.
    pub fn allocate_call() -> (call: PortAllocate)
        ensures
            call == (PortAllocate { right: MACH_PORT_RIGHT_RECEIVE }),
    {
        PortAllocate { right: MACH_PORT_RIGHT_RECEIVE }
    }

    /// The receive right to the port that the kernel allocated, once it has
    /// answered [`RecvRight::allocate_call`] with `result` and the name `raw_name`.
    ///
    /// The kernel refuses only where the IPC space of the task is exhausted or
    /// on a resource shortage; there is no right to wrap then.
    pub fn allocate(result: i32, raw_name: u32) -> (right: Self)
        requires
            result == KERN_SUCCESS,
            raw_name != MACH_PORT_NULL,
        ensures
            right@ == raw_name,
    {
        RecvRight::from_raw_name(raw_name)
    }

    /// Creates a `RecvRight` wrapper from a raw port name.
    #[inline(always)]
    pub fn from_raw_name(name: u32) -> (right: Self)
        ensures
            right == Self::spec_from_raw_name(name),
            right@ == name,
    {
        RecvRight(name)
    }

    /// The right of the name given.
    pub closed spec fn spec_from_raw_name(name: u32) -> Self {
        RecvRight(name)
    }

    /// The right of a name has that name.
    pub proof fn lemma_from_raw_name(name: u32)
        ensures
            Self::spec_from_raw_name(name)@ == name,
    {
    }

    /// The call that inserts a send right for the receive right into the
    /// current task, under the name of the receive right.
    pub fn make_send_call(&self) -> (call: InsertRight)
        ensures
            call == (InsertRight { name: self@, poly: self@, poly_type: MACH_MSG_TYPE_MAKE_SEND }),
    {
        InsertRight { name: self.0, poly: self.0, poly_type: MACH_MSG_TYPE_MAKE_SEND }
    }

    /// The send right that the kernel inserted, once it has answered
    /// [`RecvRight::make_send_call`] with `result`. The receive right stays
    /// as it is.
    ///
    /// The kernel refuses only on a user reference count overflow or a
    /// resource shortage; there is no right to wrap then.
    pub fn make_send(&self, result: i32) -> (right: SendRight)
        requires
            result == KERN_SUCCESS,
        ensures
            right@ == self@,
    {
        SendRight::from_raw_name(self.0)
    }

    /// The call that receives a Mach message from the port of the receive
    /// right, into memory that has room for [`RECV_SIZE`] bytes.
    pub fn recv_call(&self) -> (call: MsgCall)
        ensures
            call == (MsgCall {
                option: MACH_RCV_MSG,
                send_size: 0,
                rcv_size: RECV_SIZE,
                rcv_name: self@,
                timeout: 0,
                notify: MACH_PORT_NULL,
            }),
    {
        MsgCall {
            option: MACH_RCV_MSG,
            send_size: 0,
            rcv_size: RECV_SIZE,
            rcv_name: self.0,
            timeout: 0,
            notify: MACH_PORT_NULL,
        }
    }

    /// What a receive has come to, once the kernel has answered
    /// [`RecvRight::recv_call`] with `result` and the buffer holds what the
    /// kernel delivered: the parser of the message, in a buffer whose length
    /// is the size in the header of the message, or the error that the
    /// kernel reported, unchanged, with the buffer as it was handed in.
    pub fn recv(&self, buffer: Buffer, result: i32) -> (received: Result<
        MsgParser,
        (RecvError, Buffer),
    >)
        requires
            buffer.wf(),
            result == KERN_SUCCESS ==> MsgParser::acceptable(buffer@),
        ensures
            match received {
                Ok(parser) => {
                    &&& result == KERN_SUCCESS
                    &&& parser.wf()
                    &&& parser.buffer() == (BufferView {
                        body: resized(buffer@.body, buffer@.header.msgh_size as nat),
                        ..buffer@
                    })
                    &&& message_body(parser.buffer(), true) == message_body(buffer@, true)
                },
                Err(failed) => {
                    &&& result != KERN_SUCCESS
                    &&& failed.0@ == result
                    &&& failed.1 == buffer
                },
            },
    {
        if result == KERN_SUCCESS {
            Ok(MsgParser::new(buffer))
        } else {
            Err((RecvError::from_bits(result), buffer))
        }
    }

    /// The call that changes the number of references on the receive right.
    #[inline(always)]
    pub fn mod_refs(&self, delta: i32) -> (call: ModRefs)
        ensures
            call == (ModRefs { name: self@, right: MACH_PORT_RIGHT_RECEIVE, delta }),
    {
        mod_refs_wrapper(self.0, MACH_PORT_RIGHT_RECEIVE, delta)
    }
}

impl AsRawName for RecvRight {
    type Base = RecvRight;

    open spec fn raw_name(&self) -> u32 {
        self@
    }

    #[inline(always)]
    fn as_raw_name(&self) -> (name: u32) {
        self.0
    }
}

impl<'a> AsRawName for &'a RecvRight {
    type Base = RecvRight;

    open spec fn raw_name(&self) -> u32 {
        self@
    }

    #[inline(always)]
    fn as_raw_name(&self) -> (name: u32) {
        self.0
    }
}

impl IntoRawName for RecvRight {
    #[inline(always)]
    fn into_raw_name(self) -> (name: u32) {
        self.0
    }
}

impl BaseRight for RecvRight {
    open spec fn spec_msg_type() -> u32 {
        MACH_MSG_TYPE_MOVE_RECEIVE
    }

    fn msg_type() -> (disposition: u32) {
        MACH_MSG_TYPE_MOVE_RECEIVE
    }
}

/// An enum for all available send rights.
#[derive(Debug)]
pub enum AnySendRight {
    /// A send right.
    Send(SendRight),
    /// A send once right.
    SendOnce(SendOnceRight),
}

impl From<SendRight> for AnySendRight {
    #[inline]
    fn from(right: SendRight) -> (any: Self) {
        AnySendRight::Send(right)
    }
}

impl vstd::std_specs::convert::FromSpecImpl<SendRight> for AnySendRight {
    open spec fn obeys_from_spec() -> bool {
        true
    }

    open spec fn from_spec(right: SendRight) -> Self {
        AnySendRight::Send(right)
    }
}

impl From<SendOnceRight> for AnySendRight {
    #[inline]
    fn from(right: SendOnceRight) -> (any: Self) {
        AnySendRight::SendOnce(right)
    }
}

impl vstd::std_specs::convert::FromSpecImpl<SendOnceRight> for AnySendRight {
    open spec fn obeys_from_spec() -> bool {
        true
    }

    open spec fn from_spec(right: SendOnceRight) -> Self {
        AnySendRight::SendOnce(right)
    }
}

} // verus!
