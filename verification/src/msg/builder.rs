//! Contains the implementation of the `MsgBuilder` structure used to build Mach messages.
use crate::abi::{
    MACH_MSG_PHYSICAL_COPY, MACH_MSG_TYPE_COPY_SEND, MACH_MSG_TYPE_MAKE_SEND,
    MACH_MSG_TYPE_MAKE_SEND_ONCE, MACH_MSG_TYPE_MOVE_RECEIVE, MACH_MSG_TYPE_MOVE_SEND,
    MACH_MSG_TYPE_MOVE_SEND_ONCE, MACH_MSG_VIRTUAL_COPY, MACH_PORT_NULL,
};
use crate::msg::buffer::{
    grown_capacity, inserted, Buffer, BufferView, MachMsgHeader, COUNT_SIZE,
};
use crate::msg::descriptor::{
    low_byte, OolDescriptor, PortDescriptor, OOL_DESCRIPTOR_SIZE, PORT_DESCRIPTOR_SIZE,
};
use crate::msg::ool::OolBuf;
use crate::msg::parser::{
    all_tagged, descs_at, descs_size, lemma_receivable_descs_at, lemma_table_parses,
    lemma_table_push, message_body, next_desc_impl, table_bytes, ParsedMsgDesc, TransmutedMsgDesc,
};
use crate::msg::{fits_slot, MachMsgBits, MsgId};
use crate::rights::{AnySendRight, RecvRight, SendOnceRight, SendRight};
use crate::traits::{AsRawName, BaseRight, BaseSendRight, IntoRawName};
use std::marker::PhantomData;
use vstd::bytes::{lemma_auto_spec_u32_to_from_le_bytes, spec_u32_to_le_bytes, u32_to_le_bytes};
use vstd::prelude::*;

verus! {

/// The six dispositions that a builder writes fit in a slot of the header
/// bits and in a byte.
pub proof fn lemma_dispositions()
    ensures
        fits_slot(0),
        fits_slot(MACH_MSG_TYPE_MOVE_RECEIVE),
        fits_slot(MACH_MSG_TYPE_MOVE_SEND),
        fits_slot(MACH_MSG_TYPE_MOVE_SEND_ONCE),
        fits_slot(MACH_MSG_TYPE_COPY_SEND),
        fits_slot(MACH_MSG_TYPE_MAKE_SEND),
        fits_slot(MACH_MSG_TYPE_MAKE_SEND_ONCE),
        low_byte(MACH_MSG_TYPE_MOVE_RECEIVE) == 16,
        low_byte(MACH_MSG_TYPE_MOVE_SEND) == 17,
        low_byte(MACH_MSG_TYPE_MOVE_SEND_ONCE) == 18,
        low_byte(MACH_MSG_TYPE_COPY_SEND) == 19,
        low_byte(MACH_MSG_TYPE_MAKE_SEND) == 20,
        low_byte(MACH_MSG_TYPE_MAKE_SEND_ONCE) == 21,
        low_byte(MACH_MSG_PHYSICAL_COPY) == 0,
        low_byte(MACH_MSG_VIRTUAL_COPY) == 1,
{
    assert(0u32 == 0u32 & 0x1f && 16u32 == 16u32 & 0x1f && 17u32 == 17u32 & 0x1f && 18u32 == 18u32
        & 0x1f && 19u32 == 19u32 & 0x1f && 20u32 == 20u32 & 0x1f && 21u32 == 21u32 & 0x1f && 16u32
        & 0xff == 16 && 17u32 & 0xff == 17 && 18u32 & 0xff == 18 && 19u32 & 0xff == 19 && 20u32
        & 0xff == 20 && 21u32 & 0xff == 21 && 0u32 & 0xff == 0 && 1u32 & 0xff == 1)
        by (bit_vector);
}

/// A header as a builder keeps it: no bit is set that user code cannot set;
/// the remote and the voucher slot are empty; and a reply port comes with one
/// of the five dispositions that a builder gives it.
pub open spec fn builder_header(header: MachMsgHeader) -> bool {
    let bits = MachMsgBits(header.msgh_bits);
    &&& bits.is_user()
    &&& header.msgh_remote_port == MACH_PORT_NULL
    &&& bits.spec_remote() == 0
    &&& header.msgh_voucher_port == MACH_PORT_NULL
    &&& header.msgh_local_port != MACH_PORT_NULL ==> {
        ||| bits.spec_local() == MACH_MSG_TYPE_MOVE_SEND
        ||| bits.spec_local() == MACH_MSG_TYPE_MOVE_SEND_ONCE
        ||| bits.spec_local() == MACH_MSG_TYPE_COPY_SEND
        ||| bits.spec_local() == MACH_MSG_TYPE_MAKE_SEND
        ||| bits.spec_local() == MACH_MSG_TYPE_MAKE_SEND_ONCE
    }
}

/// The right that the reply slot of a header owns: the send or send once
/// right that was moved into it, and none where the slot is empty or holds a
/// right that is copied or made on sending.
pub open spec fn owned_reply_right(header: MachMsgHeader) -> Option<AnySendRight> {
    let local = MachMsgBits(header.msgh_bits).spec_local();
    if header.msgh_local_port == MACH_PORT_NULL {
        None
    } else if local == MACH_MSG_TYPE_MOVE_SEND {
        Some(AnySendRight::Send(SendRight::spec_from_raw_name(header.msgh_local_port)))
    } else if local == MACH_MSG_TYPE_MOVE_SEND_ONCE {
        Some(AnySendRight::SendOnce(SendOnceRight::spec_from_raw_name(header.msgh_local_port)))
    } else {
        None
    }
}

/// The header of a message that was given up: the reply slot is empty, and
/// of the bits only the complex flag is left.
pub open spec fn dropped_header(header: MachMsgHeader) -> MachMsgHeader {
    MachMsgHeader {
        msgh_bits: MachMsgBits::spec_new(
            MachMsgBits(header.msgh_bits).spec_complex(),
            0,
            0,
            0,
        ),
        msgh_local_port: MACH_PORT_NULL,
        ..header
    }
}

/// Empties the reply slot of the header of a message that is given up, and
/// returns the right that the slot owned, for the caller to give back to the
/// kernel.
pub fn drop_header(header: &mut MachMsgHeader) -> (released: Option<AnySendRight>)
    requires
        builder_header(*old(header)),
    ensures
        released == owned_reply_right(*old(header)),
        *final(header) == dropped_header(*old(header)),
        builder_header(*final(header)),
        MachMsgBits(final(header).msgh_bits).spec_complex() == MachMsgBits(
            old(header).msgh_bits,
        ).spec_complex(),
{
    let bits = MachMsgBits::from_bits(header.msgh_bits);
    let mut released = None;
    if header.msgh_local_port != MACH_PORT_NULL {
        let raw_name = header.msgh_local_port;
        header.msgh_local_port = MACH_PORT_NULL;
        let local = bits.local();
        if local == MACH_MSG_TYPE_MOVE_SEND {
            released = Some(AnySendRight::Send(SendRight::from_raw_name(raw_name)));
        } else if local == MACH_MSG_TYPE_MOVE_SEND_ONCE {
            released = Some(AnySendRight::SendOnce(SendOnceRight::from_raw_name(raw_name)));
        }
    }
    proof {
        lemma_dispositions();
    }
    header.msgh_bits = MachMsgBits::new(bits.complex(), 0, 0, 0).0;
    released
}

/// The type of memory copy operation requested from the kernel.
///
/// This is more of a hint at the callers intent than an instruction to the kernel. The kernel may
/// still perform a physical copy when a virtual one is requested and vice versa.
#[derive(Copy, Clone, Eq, PartialEq, Hash, Debug, Structural)]
pub enum CopyKind {
    /// Request the kernel to perform a virtual copy of the memory.
    ///
    /// That typically means the pages will be mapped into both the sender and receiver tasks with
    /// copy-on-write semantics. Writing to the copied pages by either the sender or the receiver
    /// will trigger a physical copy of the modified pages.
    Virtual,
    /// Request the kernel to perform a physical copy of the memory.
    ///
    /// Physical pages are allocated for the receiver task and the memory is physically copied into
    /// these. The mapping is completely owned by the receiver task.
    Physical,
}

impl CopyKind {
    /// The copy option that the kernel knows the kind by.
    pub open spec fn spec_code(self) -> u32 {
        match self {
            CopyKind::Virtual => MACH_MSG_VIRTUAL_COPY,
            CopyKind::Physical => MACH_MSG_PHYSICAL_COPY,
        }
    }

    /// The copy option that the kernel knows the kind by.
    pub fn code(self) -> (code: u32)
        ensures
            code == self.spec_code(),
    {
        match self {
            CopyKind::Virtual => MACH_MSG_VIRTUAL_COPY,
            CopyKind::Physical => MACH_MSG_PHYSICAL_COPY,
        }
    }
}

/// The port descriptor that a builder writes for a right.
pub open spec fn port_desc(name: u32, disposition: u32) -> TransmutedMsgDesc {
    TransmutedMsgDesc::Port(
        PortDescriptor { name, pad1: 0, pad2: 0, disposition: disposition as u8, type_: 0 },
    )
}

/// The out-of-line data descriptor that a builder writes for a region.
pub open spec fn ool_desc(address: u64, size: u32, deallocate: bool, copy_kind: CopyKind)
    -> TransmutedMsgDesc {
    TransmutedMsgDesc::Ool(
        OolDescriptor {
            address,
            deallocate: if deallocate {
                1u8
            } else {
                0u8
            },
            copy: copy_kind.spec_code() as u8,
            pad1: 0,
            type_: 1,
            size,
        },
    )
}

/// A descriptor as a builder writes it: a port descriptor with one of the six
/// dispositions that a builder gives, or an out-of-line data descriptor that
/// has an address where its region is to be unmapped.
pub open spec fn builder_made(desc: TransmutedMsgDesc) -> bool {
    match desc {
        TransmutedMsgDesc::Port(port_desc) => {
            &&& port_desc.type_ == 0
            &&& MACH_MSG_TYPE_MOVE_RECEIVE <= port_desc.disposition
                <= MACH_MSG_TYPE_MAKE_SEND_ONCE
        },
        TransmutedMsgDesc::Ool(ool_desc) => {
            &&& ool_desc.type_ == 1
            &&& ool_desc.deallocate != 0 ==> ool_desc.address != 0
        },
        TransmutedMsgDesc::OolVolatile(_) => false,
        TransmutedMsgDesc::OolPorts(_) => false,
    }
}

/// Every descriptor is as a builder writes it.
pub open spec fn all_builder_made(descs: Seq<TransmutedMsgDesc>) -> bool {
    forall|i: int| 0 <= i < descs.len() ==> builder_made(#[trigger] descs[i])
}

/// What a descriptor of a message under construction owns: the right that a
/// port descriptor moves, or the region that an out-of-line data descriptor
/// is to unmap; and nothing where the right is copied or made on sending, or
/// the region stays mapped.
pub open spec fn owned_desc(desc: TransmutedMsgDesc) -> Option<ParsedMsgDesc> {
    match desc {
        TransmutedMsgDesc::Port(port_desc) => {
            if port_desc.disposition == MACH_MSG_TYPE_MOVE_SEND {
                Some(ParsedMsgDesc::PortSend(SendRight::spec_from_raw_name(port_desc.name)))
            } else if port_desc.disposition == MACH_MSG_TYPE_MOVE_SEND_ONCE {
                Some(
                    ParsedMsgDesc::PortSendOnce(SendOnceRight::spec_from_raw_name(port_desc.name)),
                )
            } else if port_desc.disposition == MACH_MSG_TYPE_MOVE_RECEIVE {
                Some(ParsedMsgDesc::PortRecv(RecvRight::spec_from_raw_name(port_desc.name)))
            } else {
                None
            }
        },
        TransmutedMsgDesc::Ool(ool_desc) => {
            if ool_desc.deallocate != 0 {
                Some(
                    ParsedMsgDesc::OolData(
                        OolBuf::spec_from_raw_parts(ool_desc.address, ool_desc.size as usize),
                    ),
                )
            } else {
                None
            }
        },
        TransmutedMsgDesc::OolVolatile(_) => None,
        TransmutedMsgDesc::OolPorts(_) => None,
    }
}

/// What the descriptors of a message under construction own, each once and
/// in the order of the descriptors.
pub open spec fn owned_descs(descs: Seq<TransmutedMsgDesc>) -> Seq<ParsedMsgDesc>
    decreases descs.len(),
{
    if descs.len() == 0 {
        Seq::empty()
    } else {
        let before = owned_descs(descs.drop_last());
        match owned_desc(descs.last()) {
            Some(owned) => before.push(owned),
            None => before,
        }
    }
}

/// What the descriptors of a message own when one more stands behind them:
/// what they owned before and, behind it, what the new one owns, if it owns
/// anything. So a right that is moved into a message, or a region that a
/// message is to unmap, comes out once for each time it went in, and nothing
/// else comes out.
pub proof fn lemma_owned_push(descs: Seq<TransmutedMsgDesc>, desc: TransmutedMsgDesc)
    ensures
        owned_descs(descs.push(desc)) == match owned_desc(desc) {
            Some(owned) => owned_descs(descs).push(owned),
            None => owned_descs(descs),
        },
{
    assert(descs.push(desc).drop_last() =~= descs);
}

/// Makes of a descriptor of a message under construction the value that it
/// owns, if it owns one.
pub fn own_desc(desc: TransmutedMsgDesc) -> (owned: Option<ParsedMsgDesc>)
    requires
        builder_made(desc),
    ensures
        owned == owned_desc(desc),
{
    match desc {
        TransmutedMsgDesc::Port(port_desc) => {
            let raw_name = port_desc.name;
            let disposition = port_desc.disposition as u32;
            if disposition == MACH_MSG_TYPE_MOVE_SEND {
                Some(ParsedMsgDesc::PortSend(SendRight::from_raw_name(raw_name)))
            } else if disposition == MACH_MSG_TYPE_MOVE_SEND_ONCE {
                Some(ParsedMsgDesc::PortSendOnce(SendOnceRight::from_raw_name(raw_name)))
            } else if disposition == MACH_MSG_TYPE_MOVE_RECEIVE {
                Some(ParsedMsgDesc::PortRecv(RecvRight::from_raw_name(raw_name)))
            } else {
                None
            }
        },
        TransmutedMsgDesc::Ool(ool_desc) => {
            // Only deallocate the buffer in case it was meant to be deallocated.
            if ool_desc.deallocate != 0 {
                let length = ool_desc.size as usize;
                Some(ParsedMsgDesc::OolData(OolBuf::from_raw_parts(ool_desc.address, length)))
            } else {
                None
            }
        },
        TransmutedMsgDesc::OolVolatile(_) => None,
        TransmutedMsgDesc::OolPorts(_) => None,
    }
}

/// A body that is laid out as the wire format says is read back as it was
/// written: its first four bytes give the number of the descriptors, the
/// descriptors stand behind them in their order, and what is behind the
/// descriptors is the inline data.
pub proof fn lemma_body_parses(descs: Seq<TransmutedMsgDesc>, inline_data: Seq<u8>)
    requires
        all_tagged(descs),
        0 < descs.len() <= u32::MAX,
    ensures
        ({
            let body = encoded_body(descs, inline_data);
            &&& body.len() == COUNT_SIZE + descs_size(descs) + inline_data.len()
            &&& vstd::bytes::spec_u32_from_le_bytes(body.subrange(0, COUNT_SIZE as int))
                == descs.len()
            &&& descs_at(body, COUNT_SIZE as int, descs.len()) == Some(descs)
            &&& body.subrange(COUNT_SIZE + descs_size(descs), body.len() as int) == inline_data
        }),
{
    let body = encoded_body(descs, inline_data);
    let count = spec_u32_to_le_bytes(descs.len() as u32);
    lemma_auto_spec_u32_to_from_le_bytes();
    lemma_table_parses(count, descs, inline_data);
    assert(body.subrange(0, COUNT_SIZE as int) =~= count);
    assert(body.subrange(COUNT_SIZE + descs_size(descs), body.len() as int) =~= inline_data);
}

/// The body of a message: the inline data alone where there is no
/// descriptor; else the count of the descriptors, the descriptors one behind
/// the other, and the inline data behind them all.
pub open spec fn encoded_body(descs: Seq<TransmutedMsgDesc>, inline_data: Seq<u8>) -> Seq<u8> {
    if descs.len() == 0 {
        inline_data
    } else {
        spec_u32_to_le_bytes(descs.len() as u32) + table_bytes(descs) + inline_data
    }
}

/// The message that a [`MsgBuilder`] has built so far.
pub struct MsgBuilderView {
    pub header: MachMsgHeader,
    pub descriptors: Seq<TransmutedMsgDesc>,
    pub inline_data: Seq<u8>,
    pub capacity: nat,
}

impl MsgBuilderView {
    /// The body of the message.
    pub open spec fn body(self) -> Seq<u8> {
        encoded_body(self.descriptors, self.inline_data)
    }

    /// The buffer has room, or can make room, for `additional` bytes more.
    pub open spec fn can_reserve(self, additional: nat) -> bool {
        &&& self.body().len() + additional <= u32::MAX
        &&& grown_capacity(self.capacity, self.body().len(), additional) <= u32::MAX
    }

    /// The number of bytes that a descriptor of `size` bytes adds to the
    /// body: four more for the count, where it is the first.
    pub open spec fn descriptor_room(self, size: nat) -> nat {
        if self.descriptors.len() == 0 {
            size + COUNT_SIZE as nat
        } else {
            size
        }
    }

    /// The message with one descriptor more, in a buffer that has made room
    /// for it.
    pub open spec fn with_descriptor(self, desc: TransmutedMsgDesc) -> Self {
        MsgBuilderView {
            descriptors: self.descriptors.push(desc),
            capacity: grown_capacity(
                self.capacity,
                self.body().len(),
                self.descriptor_room(desc.size() as nat),
            ),
            header: MachMsgHeader {
                msgh_bits: MachMsgBits(self.header.msgh_bits).spec_into_complex().0,
                ..self.header
            },
            ..self
        }
    }
}

/// A Mach message builder.
///
/// The builder is append/insert-only so removing data from the message isn't possible since it
/// would require additional parsing.
///
/// # Right references
/// This structure accepts Mach port names in three different ways:
///
/// * `(append|set)_made_*` functions accept a reference to a receive right without altering its
/// receive right reference count. When a message is sent, a send or a send once right name is
/// created in the receiver's IPC space using the receive right supplied by the sender.
/// * `(append|set)_copied_*` functions accept a reference to a send right without altering its
/// reference count. When a message is sent, the receiver gets a reference on the send right and a
/// name is allocated for the port in its IPC space if there wasn't one before.
/// * `(append|set)_moved_*` functions consume any of the Mach port name wrappers. The reference
/// count on the corresponding rights aren't changed, but sending the message passes one
/// reference on the right to the receiver, and giving the builder up hands the right back.
pub struct MsgBuilder<'a> {
    buffer: Buffer,
    inline_data_off: u32,
    descs: Ghost<Seq<TransmutedMsgDesc>>,
    _marker: PhantomData<&'a ()>,
}

impl<'a> View for MsgBuilder<'a> {
    type V = MsgBuilderView;

    closed spec fn view(&self) -> MsgBuilderView {
        MsgBuilderView {
            header: self.buffer@.header,
            descriptors: self.descs@,
            inline_data: self.buffer@.body.subrange(
                self.inline_data_off as int,
                self.buffer@.body.len() as int,
            ),
            capacity: self.buffer@.capacity,
        }
    }
}

impl<'a> MsgBuilder<'a> {
    /// The buffer holds the message as the wire format lays it out, and the
    /// header and the descriptors are as a builder writes them.
    pub closed spec fn wf(&self) -> bool {
        &&& self.buffer.wf()
        &&& builder_header(self.buffer@.header)
        &&& MachMsgBits(self.buffer@.header.msgh_bits).spec_complex() == (self.descs@.len() > 0)
        &&& all_builder_made(self.descs@)
        &&& self.inline_data_off == if self.descs@.len() == 0 {
            0
        } else {
            COUNT_SIZE + descs_size(self.descs@)
        }
        &&& self.inline_data_off <= self.buffer@.body.len()
        &&& self.buffer@.body == self@.body()
    }

    /// What a well-formed builder holds: a body within its capacity, a header
    /// as a builder keeps it, descriptors as a builder writes them, and the
    /// complex flag where there are descriptors.
    pub proof fn lemma_wf(&self)
        requires
            self.wf(),
        ensures
            self@.body().len() <= self@.capacity <= u32::MAX,
            builder_header(self@.header),
            all_builder_made(self@.descriptors),
            MachMsgBits(self@.header.msgh_bits).spec_complex() == (self@.descriptors.len() > 0),
            12 * self@.descriptors.len() <= self@.body().len(),
    {
        self.lemma_table();
    }

    proof fn lemma_table(&self)
        requires
            self.wf(),
        ensures
            all_tagged(self.descs@),
            table_bytes(self.descs@).len() == descs_size(self.descs@),
            descs_size(self.descs@) % 4 == 0,
            descs_size(self.descs@) >= 12 * self.descs@.len(),
            self.descs@.len() > 0 ==> self.buffer@.body.len() == COUNT_SIZE + descs_size(
                self.descs@,
            ) + self@.inline_data.len(),
            self.descs@.len() < u32::MAX,
    {
        lemma_auto_spec_u32_to_from_le_bytes();
        assert forall|i: int| 0 <= i < self.descs@.len() implies (
        #[trigger] self.descs@[i]).tagged() by {
            assert(builder_made(self.descs@[i]));
        }
        lemma_table_parses(Seq::empty(), self.descs@, Seq::empty());
    }

    /// Creates a new message builder, which starts a message in the buffer:
    /// whatever the buffer held is dropped, and its capacity is kept.
    pub fn new(buffer: Buffer) -> (builder: Self)
        requires
            buffer.wf(),
        ensures
            builder.wf(),
            builder@ == (MsgBuilderView {
                header: MachMsgHeader::zero(),
                descriptors: Seq::empty(),
                inline_data: Seq::empty(),
                capacity: buffer@.capacity,
            }),
    {
        let mut buffer = buffer;
        buffer.set_len(0);
        *buffer.header_mut() = MachMsgHeader::default();
        let builder = Self {
            buffer,
            inline_data_off: 0,
            descs: Ghost(Seq::empty()),
            _marker: PhantomData,
        };
        proof {
            MachMsgBits::lemma_zero();
            assert(builder@.inline_data =~= Seq::empty());
            assert(builder.buffer@.body =~= builder@.body());
        }
        builder
    }

    /// The number of body bytes that the buffer has room for.
    pub fn capacity(&self) -> (capacity: usize)
        ensures
            capacity == self@.capacity,
    {
        self.buffer.capacity()
    }

    /// The number of bytes of inline data in the message.
    pub fn inline_data_len(&self) -> (len: usize)
        requires
            self.wf(),
        ensures
            len == self@.inline_data.len(),
    {
        self.buffer.body().len() - self.inline_data_off as usize
    }

    /// Whether the buffer has room, or can make room, for `additional`
    /// bytes of inline data more.
    pub fn check_reserve(&self, additional: usize) -> (can: bool)
        requires
            self.wf(),
        ensures
            can == self@.can_reserve(additional as nat),
    {
        self.buffer.check_reserve(additional)
    }

    /// Whether the buffer has room, or can make room, for one descriptor of
    /// `size` bytes more.
    pub fn check_reserve_descriptor(&self, size: usize) -> (can: bool)
        requires
            self.wf(),
            size <= OOL_DESCRIPTOR_SIZE,
        ensures
            can == self@.can_reserve(self@.descriptor_room(size as nat)),
    {
        proof {
            self.lemma_table();
        }
        if self.inline_data_off == 0 {
            self.buffer.check_reserve(size + COUNT_SIZE)
        } else {
            self.buffer.check_reserve(size)
        }
    }

    /// Sets the `msgh_id` field in the message header.
    pub fn set_id(&mut self, id: MsgId)
        requires
            old(self).wf(),
        ensures
            final(self).wf(),
            final(self)@ == (MsgBuilderView {
                header: MachMsgHeader { msgh_id: id, ..old(self)@.header },
                ..old(self)@
            }),
    {
        self.buffer.header_mut().msgh_id = id;
    }
    /// Empties the reply slot, and returns the right that the slot owned,
    /// for the caller to give back to the kernel.
    fn release_reply_port(&mut self) -> (released: Option<AnySendRight>)
        requires
            old(self).wf(),
        ensures
            final(self).wf(),
            released == owned_reply_right(old(self)@.header),
            final(self)@ == (MsgBuilderView {
                header: MachMsgHeader { msgh_local_port: MACH_PORT_NULL, ..old(self)@.header },
                ..old(self)@
            }),
    {
        let header = self.buffer.header_mut();
        let raw_old_name = header.msgh_local_port;
        let bits = MachMsgBits::from_bits(header.msgh_bits);
        let mut released = None;
        if raw_old_name != MACH_PORT_NULL {
            let local = bits.local();
            if local == MACH_MSG_TYPE_MOVE_SEND {
                released = Some(AnySendRight::Send(SendRight::from_raw_name(raw_old_name)));
            } else if local == MACH_MSG_TYPE_MOVE_SEND_ONCE {
                released = Some(AnySendRight::SendOnce(SendOnceRight::from_raw_name(raw_old_name)));
            }
        }
        header.msgh_local_port = MACH_PORT_NULL;
        released
    }

    /// Sets the reply port right to be made from a receive right when the message is sent. The
    /// receive right stays owned by the sender.
    ///
    /// Returns the right that the reply slot owned before, for the caller to
    /// give back to the kernel.
    pub fn set_made_reply_port<T>(&mut self, recv_right: &'a T, once: bool) -> (released: Option<
        AnySendRight,
    >) where T: AsRawName<Base = RecvRight>
        requires
            old(self).wf(),
        ensures
            final(self).wf(),
            released == owned_reply_right(old(self)@.header),
            final(self)@ == (MsgBuilderView {
                header: MachMsgHeader {
                    msgh_local_port: recv_right.raw_name(),
                    msgh_bits: MachMsgBits(old(self)@.header.msgh_bits).spec_set_local(
                        if once {
                            MACH_MSG_TYPE_MAKE_SEND_ONCE
                        } else {
                            MACH_MSG_TYPE_MAKE_SEND
                        },
                    ).0,
                    ..old(self)@.header
                },
                ..old(self)@
            }),
    {
        let released = self.release_reply_port();
        let header = self.buffer.header_mut();
        let bits = MachMsgBits::from_bits(header.msgh_bits);
        let local_bits = if once {
            MACH_MSG_TYPE_MAKE_SEND_ONCE
        } else {
            MACH_MSG_TYPE_MAKE_SEND
        };
        proof {
            lemma_dispositions();
        }
        header.msgh_local_port = recv_right.as_raw_name();
        header.msgh_bits = bits.set_local(local_bits).0;
        released
    }

    /// Sets the reply port right to be copied from a send right when the message is sent. The
    /// sender's reference on the send right isn't dropped.
    ///
    /// Returns the right that the reply slot owned before, for the caller to
    /// give back to the kernel.
    pub fn set_copied_reply_port<T: AsRawName<Base = SendRight>>(&mut self, right: &'a T) -> (released:
        Option<AnySendRight>)
        requires
            old(self).wf(),
        ensures
            final(self).wf(),
            released == owned_reply_right(old(self)@.header),
            final(self)@ == (MsgBuilderView {
                header: MachMsgHeader {
                    msgh_local_port: right.raw_name(),
                    msgh_bits: MachMsgBits(old(self)@.header.msgh_bits).spec_set_local(
                        MACH_MSG_TYPE_COPY_SEND,
                    ).0,
                    ..old(self)@.header
                },
                ..old(self)@
            }),
    {
        let released = self.release_reply_port();
        let header = self.buffer.header_mut();
        let bits = MachMsgBits::from_bits(header.msgh_bits);
        proof {
            lemma_dispositions();
        }
        header.msgh_local_port = right.as_raw_name();
        header.msgh_bits = bits.set_local(MACH_MSG_TYPE_COPY_SEND).0;
        released
    }

    /// Consumes a send or a send once right and sets it to be transferred to the receiver as the
    /// reply port when the message is sent.
    ///
    /// Returns the right that the reply slot owned before, for the caller to
    /// give back to the kernel.
    pub fn set_moved_reply_port<T, B>(&mut self, reply_port: T) -> (released: Option<AnySendRight>)
        where T: IntoRawName<Base = B>, B: BaseSendRight
        requires
            old(self).wf(),
        ensures
            final(self).wf(),
            released == owned_reply_right(old(self)@.header),
            final(self)@ == (MsgBuilderView {
                header: MachMsgHeader {
                    msgh_local_port: reply_port.raw_name(),
                    msgh_bits: MachMsgBits::spec_new(
                        MachMsgBits(old(self)@.header.msgh_bits).spec_complex(),
                        0,
                        B::spec_msg_type(),
                        MachMsgBits(old(self)@.header.msgh_bits).spec_voucher(),
                    ),
                    ..old(self)@.header
                },
                ..old(self)@
            }),
    {
        let released = self.release_reply_port();
        let header = self.buffer.header_mut();
        let bits = MachMsgBits::from_bits(header.msgh_bits);
        let local_bits = B::send_msg_type();
        proof {
            lemma_dispositions();
        }
        header.msgh_local_port = reply_port.into_raw_name();
        let new_bits = MachMsgBits::new(bits.complex(), 0, local_bits, bits.voucher());
        header.msgh_bits = new_bits.0;
        released
    }

    /// Appends a descriptor to the message.
    fn append_descriptor(&mut self, desc: TransmutedMsgDesc)
        requires
            old(self).wf(),
            builder_made(desc),
            old(self)@.can_reserve(old(self)@.descriptor_room(desc.size() as nat)),
        ensures
            final(self).wf(),
            final(self)@ == old(self)@.with_descriptor(desc),
    {
        let bytes = desc.to_bytes();
        proof {
            self.lemma_table();
            lemma_auto_spec_u32_to_from_le_bytes();
            lemma_table_push(self.descs@, desc);
            lemma_table_parses(Seq::empty(), self.descs@.push(desc), Seq::empty());
            lemma_table_parses(Seq::empty(), seq![desc], Seq::empty());
            assert(seq![desc].skip(1) =~= Seq::empty());
        }
        self.inc_desc_count(bytes.len());
        let appended_len = bytes.len() as u32;
        let ghost counted = self.buffer@.body;
        assert(counted.len() == COUNT_SIZE + table_bytes(old(self).descs@).len() + old(
            self,
        )@.inline_data.len());
        self.buffer.insert(self.inline_data_off, bytes.as_slice());
        self.inline_data_off += appended_len;
        proof {
            let descs = old(self).descs@;
            self.descs@ = descs.push(desc);
            let count = spec_u32_to_le_bytes((descs.len() + 1) as u32);
            let inline_data = old(self)@.inline_data;
            assert(self.buffer@.body =~= count + (table_bytes(descs) + desc.bytes()) + inline_data);
            assert(self@.inline_data =~= inline_data);
            assert forall|i: int| 0 <= i < self.descs@.len() implies builder_made(
                #[trigger] self.descs@[i],
            ) by {
                if i < descs.len() {
                    assert(self.descs@[i] == descs[i]);
                }
            }
            assert(self@.descriptors =~= old(self)@.with_descriptor(desc).descriptors);
        }
    }

    fn append_port_descriptor(&mut self, name: u32, disposition: u32)
        requires
            old(self).wf(),
            MACH_MSG_TYPE_MOVE_RECEIVE <= disposition <= MACH_MSG_TYPE_MAKE_SEND_ONCE,
            old(self)@.can_reserve(old(self)@.descriptor_room(PORT_DESCRIPTOR_SIZE as nat)),
        ensures
            final(self).wf(),
            final(self)@ == old(self)@.with_descriptor(port_desc(name, disposition)),
    {
        let desc = PortDescriptor::new(name, disposition);
        proof {
            lemma_dispositions();
        }
        self.append_descriptor(TransmutedMsgDesc::Port(desc));
    }

    /// Increments the descriptor count in the message and reserves the specified amount of bytes
    /// for a descriptor. In case there were no descriptors in the message, the count is inserted
    /// after the header and the complex bit is set.
    fn inc_desc_count(&mut self, reserve_size: usize)
        requires
            old(self).wf(),
            reserve_size <= OOL_DESCRIPTOR_SIZE,
            old(self)@.can_reserve(old(self)@.descriptor_room(reserve_size as nat)),
        ensures
            final(self).descs@ == old(self).descs@,
            final(self).buffer.wf(),
            final(self).buffer@ == (BufferView {
                header: MachMsgHeader {
                    msgh_bits: MachMsgBits(old(self)@.header.msgh_bits).spec_into_complex().0,
                    ..old(self)@.header
                },
                body: spec_u32_to_le_bytes((old(self).descs@.len() + 1) as u32) + table_bytes(
                    old(self).descs@,
                ) + old(self)@.inline_data,
                capacity: grown_capacity(
                    old(self)@.capacity,
                    old(self)@.body().len(),
                    old(self)@.descriptor_room(reserve_size as nat),
                ),
            }),
            final(self).buffer@.body.len() + reserve_size <= final(self).buffer@.capacity,
            final(self).inline_data_off == COUNT_SIZE + descs_size(old(self).descs@),
            builder_header(final(self).buffer@.header),
            MachMsgBits(final(self).buffer@.header.msgh_bits).spec_complex(),
    {
        proof {
            self.lemma_table();
            lemma_auto_spec_u32_to_from_le_bytes();
        }
        let header = self.buffer.header_mut();
        let bits = MachMsgBits::from_bits(header.msgh_bits);
        if bits.complex() {
            let ghost body = self.buffer@.body;
            let ghost descs = self.descs@;
            assert(body.subrange(0, COUNT_SIZE as int) =~= spec_u32_to_le_bytes(
                descs.len() as u32,
            ));
            let count = self.buffer.descriptors_count() + 1;
            let bytes = u32_to_le_bytes(count);
            let body_mut = self.buffer.body_mut();
            body_mut[0] = bytes[0];
            body_mut[1] = bytes[1];
            body_mut[2] = bytes[2];
            body_mut[3] = bytes[3];
            assert(self.buffer@.body =~= bytes@ + table_bytes(descs) + old(self)@.inline_data);
            proof {
                MachMsgBits(old(self)@.header.msgh_bits).lemma_into_complex();
            }
            self.buffer.reserve(reserve_size as u32);
        } else {
            // set the complex bit in the header
            header.msgh_bits = bits.into_complex().0;
            // insert a descriptor count after the header
            let count: u32 = 1;
            self.buffer.reserve((reserve_size + COUNT_SIZE) as u32);
            let bytes = u32_to_le_bytes(count);
            self.buffer.insert(0, bytes.as_slice());
            // update the inline data offset
            self.inline_data_off = COUNT_SIZE as u32;
            assert(self.buffer@.body =~= bytes@ + table_bytes(old(self).descs@) + old(
                self,
            )@.inline_data);
        }
    }

    /// Appends a port descriptor to the message that will contain a send or a send once right to
    /// the port represented by a receive right.
    pub fn append_made_send_right<T>(&mut self, recv_right: &'a T, once: bool) where
        T: AsRawName<Base = RecvRight>,

        requires
            old(self).wf(),
            old(self)@.can_reserve(old(self)@.descriptor_room(PORT_DESCRIPTOR_SIZE as nat)),
        ensures
            final(self).wf(),
            final(self)@ == old(self)@.with_descriptor(
                port_desc(
                    recv_right.raw_name(),
                    if once {
                        MACH_MSG_TYPE_MAKE_SEND_ONCE
                    } else {
                        MACH_MSG_TYPE_MAKE_SEND
                    },
                ),
            ),
    {
        let disposition = if once {
            MACH_MSG_TYPE_MAKE_SEND_ONCE
        } else {
            MACH_MSG_TYPE_MAKE_SEND
        };
        self.append_port_descriptor(recv_right.as_raw_name(), disposition);
    }

    /// Appends a port descriptor to the message that will contain a send right to the port
    /// represented by a send right. The provided send right's reference is not consumed.
    pub fn append_copied_send_right<T: AsRawName<Base = SendRight>>(&mut self, right: &'a T)
        requires
            old(self).wf(),
            old(self)@.can_reserve(old(self)@.descriptor_room(PORT_DESCRIPTOR_SIZE as nat)),
        ensures
            final(self).wf(),
            final(self)@ == old(self)@.with_descriptor(
                port_desc(right.raw_name(), MACH_MSG_TYPE_COPY_SEND),
            ),
    {
        self.append_port_descriptor(right.as_raw_name(), MACH_MSG_TYPE_COPY_SEND);
    }

    /// Appends a port descriptor to the message that will contain a receive, a send or a send once
    /// right. One sender's reference for the right is consumed when the message is sent.
    pub fn append_moved_right<T: IntoRawName>(&mut self, right: T) where T::Base: BaseRight
        requires
            old(self).wf(),
            old(self)@.can_reserve(old(self)@.descriptor_room(PORT_DESCRIPTOR_SIZE as nat)),
        ensures
            final(self).wf(),
            final(self)@ == old(self)@.with_descriptor(
                port_desc(right.raw_name(), T::Base::spec_msg_type()),
            ),
    {
        let disposition = T::Base::msg_type();
        self.append_port_descriptor(right.into_raw_name(), disposition);
    }

    /// Returns the message contents: the header, then the body.
    pub fn as_slice(&self) -> (bytes: Vec<u8>)
        requires
            self.wf(),
        ensures
            bytes@ == self@.header.bytes() + self@.body(),
    {
        self.buffer.as_slice()
    }

    /// Appends inline data to the end of the message.
    pub fn append_inline_data(&mut self, data: &[u8])
        requires
            old(self).wf(),
            old(self)@.can_reserve(data@.len()),
        ensures
            final(self).wf(),
            final(self)@ == (MsgBuilderView {
                inline_data: old(self)@.inline_data + data@,
                capacity: grown_capacity(
                    old(self)@.capacity,
                    old(self)@.body().len(),
                    data@.len(),
                ),
                ..old(self)@
            }),
    {
        self.buffer.append(data);
        proof {
            assert(self@.inline_data =~= old(self)@.inline_data + data@);
            assert(self.buffer@.body =~= self@.body());
        }
    }

    /// Inserts data at an offset from the start of the inline data.
    pub fn insert_inline_data(&mut self, at: usize, data: &[u8])
        requires
            old(self).wf(),
            at <= old(self)@.inline_data.len(),
            old(self)@.can_reserve(data@.len()),
        ensures
            final(self).wf(),
            final(self)@ == (MsgBuilderView {
                inline_data: inserted(old(self)@.inline_data, at as int, data@),
                capacity: grown_capacity(
                    old(self)@.capacity,
                    old(self)@.body().len(),
                    data@.len(),
                ),
                ..old(self)@
            }),
    {
        let at = at as u32;
        self.buffer.insert(self.inline_data_off + at, data);
        proof {
            assert(self@.inline_data =~= inserted(old(self)@.inline_data, at as int, data@));
            assert(self.buffer@.body =~= self@.body());
        }
    }

    /// Appends an out-of-line data descriptor to the message, for the `size`
    /// bytes at `address`.
    ///
    /// The pages containing the data will be copied into the receiver task on message
    /// reception, the sender task's mapping's sharing mode may be changed to copy-on-write which
    /// may affect the performance (see [`CopyKind`] docs).
    pub fn append_ool_data(&mut self, address: u64, size: usize, copy_kind: CopyKind)
        requires
            old(self).wf(),
            size <= u32::MAX,
            old(self)@.can_reserve(old(self)@.descriptor_room(OOL_DESCRIPTOR_SIZE as nat)),
        ensures
            final(self).wf(),
            final(self)@ == old(self)@.with_descriptor(
                ool_desc(address, size as u32, false, copy_kind),
            ),
    {
        let desc = OolDescriptor::new(address, false, copy_kind.code(), size as u32);
        proof {
            lemma_dispositions();
        }
        self.append_descriptor(TransmutedMsgDesc::Ool(desc));
    }

    /// Appends an out-of-line data descriptor to the message marking the backing virtual memory
    /// pages to be unmapped from the sender task's address space.
    ///
    /// Giving the builder up without sending the message hands the buffer back.
    pub fn append_consumed_ool_data(&mut self, data: OolBuf, copy_kind: CopyKind)
        requires
            old(self).wf(),
            data.wf(),
            data@.capacity <= u32::MAX,
            old(self)@.can_reserve(old(self)@.descriptor_room(OOL_DESCRIPTOR_SIZE as nat)),
        ensures
            final(self).wf(),
            final(self)@ == old(self)@.with_descriptor(
                ool_desc(data@.address, data@.capacity as u32, true, copy_kind),
            ),
    {
        let (address, size) = data.into_raw_parts();
        let desc = OolDescriptor::new(address, true, copy_kind.code(), size as u32);
        proof {
            lemma_dispositions();
        }
        self.append_descriptor(TransmutedMsgDesc::Ool(desc));
    }
    /// Writes the destination of the message into the remote slot of the
    /// header.
    pub(crate) fn set_raw_remote_port(&mut self, name: u32, bits: u32)
        requires
            old(self).wf(),
            fits_slot(bits),
        ensures
            final(self).spec_buffer().wf(),
            final(self).spec_buffer()@ == (BufferView {
                header: MachMsgHeader {
                    msgh_remote_port: name,
                    msgh_bits: MachMsgBits(old(self)@.header.msgh_bits).spec_set_remote(bits).0,
                    ..old(self)@.header
                },
                body: old(self)@.body(),
                capacity: old(self)@.capacity,
            }),
    {
        let header = self.buffer.header_mut();
        header.msgh_remote_port = name;
        header.msgh_bits = MachMsgBits::from_bits(header.msgh_bits).set_remote(bits).0
    }

    /// The buffer of the builder, as it stands. What the message owns goes
    /// with the buffer.
    pub(crate) fn into_buffer(self) -> (buffer: Buffer)
        ensures
            buffer == self.spec_buffer(),
    {
        self.buffer
    }

    /// The buffer of the builder, as it stands.
    pub(crate) closed spec fn spec_buffer(&self) -> Buffer {
        self.buffer
    }

    /// What the bytes of a well-formed builder give when they are read as a
    /// message: the header, the number of the descriptors, the descriptors
    /// in the order in which they were appended, and behind them the inline
    /// data as the appends and inserts have left it.
    pub proof fn lemma_parses(&self)
        requires
            self.wf(),
        ensures
            ({
                let bytes = self@.header.bytes() + self@.body();
                let body = self@.body();
                let count = self@.descriptors.len();
                &&& MachMsgHeader::spec_from_bytes(bytes) == self@.header
                &&& bytes.subrange(24, bytes.len() as int) == body
                &&& Buffer::spec_descriptors_count(self@.header.msgh_bits, body) == count
                &&& descs_at(body, COUNT_SIZE as int, count) == Some(self@.descriptors)
                &&& body.subrange(body.len() - self@.inline_data.len(), body.len() as int)
                    == self@.inline_data
                &&& count > 0 ==> body.len() - self@.inline_data.len() == COUNT_SIZE + descs_size(
                    self@.descriptors,
                )
            }),
    {
        self.lemma_table();
        self@.header.lemma_bytes(self@.body());
        let bytes = self@.header.bytes() + self@.body();
        assert(bytes.subrange(24, bytes.len() as int) =~= self@.body());
        if self@.descriptors.len() > 0 {
            lemma_body_parses(self@.descriptors, self@.inline_data);
        } else {
            assert(self@.body().subrange(0, self@.body().len() as int) =~= self@.inline_data);
        }
    }

    /// A message whose descriptors all move a right or name a region that is
    /// empty or has an address is one that the parsers take apart, once its
    /// size stands in the header and what the header says of the remote and
    /// the voucher port is what a received header can say: they find the
    /// descriptors in the order in which they were appended, and behind them
    /// the inline data.
    pub proof fn lemma_receivable(&self, received: BufferView)
        requires
            self.wf(),
            crate::msg::parser::all_receivable(self@.descriptors),
            received.body == self@.body(),
            received.header.msgh_size == 24 + self@.body().len(),
            MachMsgBits(received.header.msgh_bits).is_user(),
            MachMsgBits(received.header.msgh_bits).spec_complex() == MachMsgBits(
                self@.header.msgh_bits,
            ).spec_complex(),
            received.header.msgh_voucher_port == MACH_PORT_NULL,
            received.header.msgh_remote_port != MACH_PORT_NULL ==> MachMsgBits(
                received.header.msgh_bits,
            ).spec_remote() == MACH_MSG_TYPE_MOVE_SEND || MachMsgBits(
                received.header.msgh_bits,
            ).spec_remote() == MACH_MSG_TYPE_MOVE_SEND_ONCE,
        ensures
            crate::msg::parser::receivable_message(received),
            Buffer::spec_descriptors_count(
                received.header.msgh_bits,
                message_body(received, true),
            ) == self@.descriptors.len(),
            descs_at(
                message_body(received, true),
                COUNT_SIZE as int,
                self@.descriptors.len(),
            ) == Some(self@.descriptors),
            message_body(received, true).subrange(
                self@.body().len() - self@.inline_data.len(),
                self@.body().len() as int,
            ) == self@.inline_data,
    {
        self.lemma_parses();
        self.lemma_table();
        assert(message_body(received, true) =~= self@.body());
    }

    /// Gives the builder up without sending the message: empties the reply
    /// slot of the header, and returns the right that the slot owned, what
    /// the descriptors own, each once and in the order of the descriptors,
    /// for the caller to give back to the kernel, and the buffer.
    pub fn release(self) -> (released: (Option<AnySendRight>, Vec<ParsedMsgDesc>, Buffer))
        requires
            self.wf(),
        ensures
            released.0 == owned_reply_right(self@.header),
            released.1@ == owned_descs(self@.descriptors),
            released.2.wf(),
            released.2@ == (BufferView {
                header: dropped_header(self@.header),
                body: self@.body(),
                capacity: self@.capacity,
            }),
    {
        proof {
            self.lemma_table();
            self.lemma_parses();
        }
        let ghost descs = self.descs@;
        let ghost body = self@.body();
        let mut buffer = self.buffer;
        let reply_right = drop_header(buffer.header_mut());
        let mut count = buffer.descriptors_count();
        let mut offset = COUNT_SIZE as u32;
        let mut owned: Vec<ParsedMsgDesc> = Vec::new();
        proof {
            assert(descs.skip(0) =~= descs);
            assert(descs.take(0) =~= Seq::empty());
        }
        while count > 0
            invariant
                buffer.wf(),
                buffer@ == (BufferView {
                    header: dropped_header(self@.header),
                    body,
                    capacity: self@.capacity,
                }),
                all_builder_made(descs),
                count <= descs.len(),
                descs_at(body, offset as int, count as nat) == Some(
                    descs.skip(descs.len() - count),
                ),
                owned@ == owned_descs(descs.take(descs.len() - count)),
            decreases count,
        {
            let ghost done = descs.len() - count;
            proof {
                lemma_receivable_descs_at(body, offset as int, count as nat);
                assert(descs.skip(done).skip(1) =~= descs.skip(done + 1));
                assert(descs.take(done + 1).drop_last() =~= descs.take(done));
                assert(descs.take(done + 1).last() == descs[done]);
            }
            let desc = next_desc_impl(&buffer, &mut offset, false);
            assert(desc == descs[done]);
            match own_desc(desc) {
                Some(value) => owned.push(value),
                None => (),
            }
            count -= 1;
        }
        assert(descs.take(descs.len() as int) =~= descs);
        (reply_right, owned, buffer)
    }
}

} // verus!
