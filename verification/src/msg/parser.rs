//! Contains the implementation of the Mach message parser.
use crate::abi::{
    MACH_MSG_OOL_DESCRIPTOR, MACH_MSG_OOL_PORTS_DESCRIPTOR, MACH_MSG_OOL_VOLATILE_DESCRIPTOR,
    MACH_MSG_PORT_DESCRIPTOR, MACH_MSG_TYPE_COPY_SEND, MACH_MSG_TYPE_MOVE_RECEIVE,
    MACH_MSG_TYPE_MOVE_SEND, MACH_MSG_TYPE_MOVE_SEND_ONCE, MACH_PORT_NULL,
};
use crate::msg::buffer::{resized, Buffer, BufferView, COUNT_SIZE, HEADER_SIZE};
use crate::msg::descriptor::{
    OolDescriptor, OolPortsDescriptor, PortDescriptor, DESCRIPTOR_TYPE_OFFSET,
    OOL_DESCRIPTOR_SIZE, OOL_PORTS_DESCRIPTOR_SIZE, PORT_DESCRIPTOR_SIZE,
};
use crate::msg::ool::{OolBuf, DANGLING};
use crate::msg::{MachMsgBits, MsgId};
use crate::rights::{AnySendRight, RecvRight, SendOnceRight, SendRight};
use vstd::prelude::*;
use vstd::slice::slice_subrange;

verus! {

/// The size in bytes of a descriptor of the type given.
pub open spec fn spec_size_for_desc_type(type_: u32) -> usize {
    if type_ == MACH_MSG_PORT_DESCRIPTOR {
        PORT_DESCRIPTOR_SIZE
    } else if type_ == MACH_MSG_OOL_PORTS_DESCRIPTOR {
        OOL_PORTS_DESCRIPTOR_SIZE
    } else {
        OOL_DESCRIPTOR_SIZE
    }
}

/// The size in bytes of a descriptor of the type given, which is one of the
/// four descriptor types.
pub fn size_for_desc_type(type_: u32) -> (size: usize)
    requires
        type_ == MACH_MSG_PORT_DESCRIPTOR || type_ == MACH_MSG_OOL_DESCRIPTOR || type_
            == MACH_MSG_OOL_VOLATILE_DESCRIPTOR || type_ == MACH_MSG_OOL_PORTS_DESCRIPTOR,
    ensures
        size == spec_size_for_desc_type(type_),
{
    if type_ == MACH_MSG_PORT_DESCRIPTOR {
        PORT_DESCRIPTOR_SIZE
    } else if type_ == MACH_MSG_OOL_DESCRIPTOR || type_ == MACH_MSG_OOL_VOLATILE_DESCRIPTOR {
        OOL_DESCRIPTOR_SIZE
    } else {
        OOL_PORTS_DESCRIPTOR_SIZE
    }
}

/// A descriptor as its bytes give it, by its type.
#[derive(Clone, Copy, Debug, PartialEq, Eq, Structural)]
pub enum TransmutedMsgDesc {
    Port(PortDescriptor),
    Ool(OolDescriptor),
    OolVolatile(OolDescriptor),
    OolPorts(OolPortsDescriptor),
}

impl TransmutedMsgDesc {
    /// The number of bytes that the descriptor takes in a message.
    pub open spec fn size(self) -> int {
        match self {
            TransmutedMsgDesc::Port(_) => PORT_DESCRIPTOR_SIZE as int,
            TransmutedMsgDesc::Ool(_) => OOL_DESCRIPTOR_SIZE as int,
            TransmutedMsgDesc::OolVolatile(_) => OOL_DESCRIPTOR_SIZE as int,
            TransmutedMsgDesc::OolPorts(_) => OOL_PORTS_DESCRIPTOR_SIZE as int,
        }
    }

    /// The bytes that the descriptor takes in a message.
    pub open spec fn bytes(self) -> Seq<u8> {
        match self {
            TransmutedMsgDesc::Port(desc) => desc.bytes(),
            TransmutedMsgDesc::Ool(desc) => desc.bytes(),
            TransmutedMsgDesc::OolVolatile(desc) => desc.bytes(),
            TransmutedMsgDesc::OolPorts(desc) => desc.bytes(),
        }
    }

    /// The bytes that the descriptor takes in a message.
    pub fn to_bytes(&self) -> (bytes: Vec<u8>)
        ensures
            bytes@ == self.bytes(),
            bytes.len() == self.size(),
    {
        match self {
            TransmutedMsgDesc::Port(desc) => desc.to_bytes(),
            TransmutedMsgDesc::Ool(desc) => desc.to_bytes(),
            TransmutedMsgDesc::OolVolatile(desc) => desc.to_bytes(),
            TransmutedMsgDesc::OolPorts(desc) => desc.to_bytes(),
        }
    }

    /// The type tag agrees with the kind of the descriptor.
    pub open spec fn tagged(self) -> bool {
        match self {
            TransmutedMsgDesc::Port(desc) => desc.type_ == MACH_MSG_PORT_DESCRIPTOR,
            TransmutedMsgDesc::Ool(desc) => desc.type_ == MACH_MSG_OOL_DESCRIPTOR,
            TransmutedMsgDesc::OolVolatile(desc) => desc.type_ == MACH_MSG_OOL_VOLATILE_DESCRIPTOR,
            TransmutedMsgDesc::OolPorts(desc) => desc.type_ == MACH_MSG_OOL_PORTS_DESCRIPTOR,
        }
    }
}

/// The descriptor that stands at the offset `off` of a message body, where
/// one stands there: the offset is a multiple of four, the body holds the
/// twelve bytes from there on that every descriptor has, the twelfth is one
/// of the four type tags, and the body holds as many bytes from the offset
/// on as a descriptor of that type takes.
pub open spec fn desc_at(body: Seq<u8>, off: int) -> Option<TransmutedMsgDesc> {
    if 0 <= off && off % 4 == 0 && off + PORT_DESCRIPTOR_SIZE <= body.len() {
        let type_ = body[off + DESCRIPTOR_TYPE_OFFSET] as u32;
        if type_ == MACH_MSG_PORT_DESCRIPTOR {
            Some(
                TransmutedMsgDesc::Port(
                    PortDescriptor::spec_from_bytes(
                        body.subrange(off, off + PORT_DESCRIPTOR_SIZE),
                    ),
                ),
            )
        } else if type_ == MACH_MSG_OOL_DESCRIPTOR && off + OOL_DESCRIPTOR_SIZE <= body.len() {
            Some(
                TransmutedMsgDesc::Ool(
                    OolDescriptor::spec_from_bytes(body.subrange(off, off + OOL_DESCRIPTOR_SIZE)),
                ),
            )
        } else if type_ == MACH_MSG_OOL_VOLATILE_DESCRIPTOR && off + OOL_DESCRIPTOR_SIZE
            <= body.len() {
            Some(
                TransmutedMsgDesc::OolVolatile(
                    OolDescriptor::spec_from_bytes(body.subrange(off, off + OOL_DESCRIPTOR_SIZE)),
                ),
            )
        } else if type_ == MACH_MSG_OOL_PORTS_DESCRIPTOR && off + OOL_PORTS_DESCRIPTOR_SIZE
            <= body.len() {
            Some(
                TransmutedMsgDesc::OolPorts(
                    OolPortsDescriptor::spec_from_bytes(
                        body.subrange(off, off + OOL_PORTS_DESCRIPTOR_SIZE),
                    ),
                ),
            )
        } else {
            None
        }
    } else {
        None
    }
}

/// The `count` descriptors that stand one behind the other from the offset
/// `off` of a message body on, where that many stand there.
pub open spec fn descs_at(body: Seq<u8>, off: int, count: nat) -> Option<Seq<TransmutedMsgDesc>>
    decreases count,
{
    if count == 0 {
        Some(Seq::empty())
    } else {
        match desc_at(body, off) {
            None => None,
            Some(desc) => match descs_at(body, off + desc.size(), (count - 1) as nat) {
                None => None,
                Some(rest) => Some(seq![desc] + rest),
            },
        }
    }
}

/// The number of bytes that descriptors take together.
pub open spec fn descs_size(descs: Seq<TransmutedMsgDesc>) -> int
    decreases descs.len(),
{
    if descs.len() == 0 {
        0
    } else {
        descs[0].size() + descs_size(descs.skip(1))
    }
}

/// The bytes that descriptors take together, one behind the other.
pub open spec fn table_bytes(descs: Seq<TransmutedMsgDesc>) -> Seq<u8>
    decreases descs.len(),
{
    if descs.len() == 0 {
        Seq::empty()
    } else {
        descs[0].bytes() + table_bytes(descs.skip(1))
    }
}

/// Every descriptor has the type tag of its kind.
pub open spec fn all_tagged(descs: Seq<TransmutedMsgDesc>) -> bool {
    forall|i: int| 0 <= i < descs.len() ==> (#[trigger] descs[i]).tagged()
}

/// The bytes of a descriptor are as many as its size, and the descriptor
/// stands where its bytes stand, at a multiple of four.
pub proof fn lemma_desc_at_bytes(prefix: Seq<u8>, desc: TransmutedMsgDesc, suffix: Seq<u8>)
    requires
        prefix.len() % 4 == 0,
        desc.tagged(),
    ensures
        desc.bytes().len() == desc.size(),
        desc_at(prefix + desc.bytes() + suffix, prefix.len() as int) == Some(desc),
{
    let body = prefix + desc.bytes() + suffix;
    let off = prefix.len() as int;
    let none = Seq::<u8>::empty();
    match desc {
        TransmutedMsgDesc::Port(d) => {
            d.lemma_bytes(none);
            assert(d.bytes() + none =~= d.bytes());
            assert(body.subrange(off, off + PORT_DESCRIPTOR_SIZE) =~= d.bytes());
            assert(body[off + DESCRIPTOR_TYPE_OFFSET] == d.bytes()[DESCRIPTOR_TYPE_OFFSET as int]);
        },
        TransmutedMsgDesc::Ool(d) => {
            d.lemma_bytes(none);
            assert(d.bytes() + none =~= d.bytes());
            assert(body.subrange(off, off + OOL_DESCRIPTOR_SIZE) =~= d.bytes());
            assert(body[off + DESCRIPTOR_TYPE_OFFSET] == d.bytes()[DESCRIPTOR_TYPE_OFFSET as int]);
        },
        TransmutedMsgDesc::OolVolatile(d) => {
            d.lemma_bytes(none);
            assert(d.bytes() + none =~= d.bytes());
            assert(body.subrange(off, off + OOL_DESCRIPTOR_SIZE) =~= d.bytes());
            assert(body[off + DESCRIPTOR_TYPE_OFFSET] == d.bytes()[DESCRIPTOR_TYPE_OFFSET as int]);
        },
        TransmutedMsgDesc::OolPorts(d) => {
            d.lemma_bytes(none);
            assert(d.bytes() + none =~= d.bytes());
            assert(body.subrange(off, off + OOL_PORTS_DESCRIPTOR_SIZE) =~= d.bytes());
            assert(body[off + DESCRIPTOR_TYPE_OFFSET] == d.bytes()[DESCRIPTOR_TYPE_OFFSET as int]);
        },
    }
}

/// Descriptors that are written one behind the other, at a multiple of four,
/// are read back as they were, whatever stands before and behind them. Their
/// bytes are as many as their sizes together, a multiple of four and at least
/// twelve for each.
pub proof fn lemma_table_parses(
    prefix: Seq<u8>,
    descs: Seq<TransmutedMsgDesc>,
    suffix: Seq<u8>,
)
    requires
        prefix.len() % 4 == 0,
        all_tagged(descs),
    ensures
        descs_at(prefix + table_bytes(descs) + suffix, prefix.len() as int, descs.len()) == Some(
            descs,
        ),
        table_bytes(descs).len() == descs_size(descs),
        descs_size(descs) % 4 == 0,
        descs_size(descs) >= 12 * descs.len(),
    decreases descs.len(),
{
    let body = prefix + table_bytes(descs) + suffix;
    if descs.len() == 0 {
        assert(descs =~= Seq::empty());
    } else {
        let desc = descs[0];
        let rest = descs.skip(1);
        let longer = prefix + desc.bytes();
        assert(desc.tagged());
        assert forall|i: int| 0 <= i < rest.len() implies (#[trigger] rest[i]).tagged() by {
            assert(rest[i] == descs[i + 1]);
        }
        lemma_desc_at_bytes(prefix, desc, table_bytes(rest) + suffix);
        assert(prefix + desc.bytes() + (table_bytes(rest) + suffix) =~= body);
        lemma_table_parses(longer, rest, suffix);
        assert(longer + table_bytes(rest) + suffix =~= body);
        assert(seq![desc] + rest =~= descs);
    }
}

/// The bytes of descriptors with one more behind them are the bytes of the
/// descriptors with the bytes of that one behind them.
pub proof fn lemma_table_push(descs: Seq<TransmutedMsgDesc>, desc: TransmutedMsgDesc)
    ensures
        table_bytes(descs.push(desc)) == table_bytes(descs) + desc.bytes(),
    decreases descs.len(),
{
    let pushed = descs.push(desc);
    if descs.len() == 0 {
        assert(pushed.skip(1) =~= Seq::empty());
        assert(table_bytes(pushed.skip(1)) =~= Seq::empty());
        assert(table_bytes(pushed) =~= desc.bytes());
        assert(table_bytes(descs) + desc.bytes() =~= desc.bytes());
    } else {
        lemma_table_push(descs.skip(1), desc);
        assert(pushed.skip(1) =~= descs.skip(1).push(desc));
        assert(table_bytes(pushed) =~= table_bytes(descs) + desc.bytes());
    }
}

/// The part of a buffer's body that belongs to the message: all of it in a
/// message under construction, and in a received one as much as the size in
/// the header says.
pub open spec fn message_body(buffer: BufferView, received: bool) -> Seq<u8> {
    if received {
        buffer.body.subrange(0, buffer.header.msgh_size - HEADER_SIZE)
    } else {
        buffer.body
    }
}

/// The size in the header of a received message covers the header and no
/// more than the body that the buffer holds.
pub open spec fn sized(buffer: BufferView, received: bool) -> bool {
    received ==> HEADER_SIZE <= buffer.header.msgh_size <= HEADER_SIZE + buffer.body.len()
}

/// Reads the descriptor at `offset` and moves `offset` behind it.
pub fn next_desc_impl(buffer: &Buffer, offset: &mut u32, received: bool) -> (desc:
    TransmutedMsgDesc)
    requires
        buffer.wf(),
        sized(buffer@, received),
        desc_at(message_body(buffer@, received), *old(offset) as int).is_some(),
    ensures
        Some(desc) == desc_at(message_body(buffer@, received), *old(offset) as int),
        *final(offset) == *old(offset) + desc.size(),
        desc.tagged(),
{
    let cur_offset = *offset as usize;
    let body_size = if received {
        buffer.header().msgh_size as usize - HEADER_SIZE
    } else {
        buffer.body().len()
    };
    let ghost window = message_body(buffer@, received);
    let type_ = buffer.body()[cur_offset + DESCRIPTOR_TYPE_OFFSET] as u32;
    let desc_size = size_for_desc_type(type_);
    let desc_bytes = slice_subrange(buffer.body(), cur_offset, cur_offset + desc_size);
    assert(desc_bytes@ =~= window.subrange(cur_offset as int, cur_offset + desc_size));
    let transmuted_desc = if type_ == MACH_MSG_PORT_DESCRIPTOR {
        TransmutedMsgDesc::Port(PortDescriptor::from_bytes(desc_bytes))
    } else if type_ == MACH_MSG_OOL_DESCRIPTOR {
        TransmutedMsgDesc::Ool(OolDescriptor::from_bytes(desc_bytes))
    } else if type_ == MACH_MSG_OOL_VOLATILE_DESCRIPTOR {
        TransmutedMsgDesc::OolVolatile(OolDescriptor::from_bytes(desc_bytes))
    } else {
        TransmutedMsgDesc::OolPorts(OolPortsDescriptor::from_bytes(desc_bytes))
    };
    assert(body_size <= u32::MAX);
    *offset = (cur_offset + desc_size) as u32;
    transmuted_desc
}

/// Whether a descriptor stands at `offset`.
pub fn desc_stands_at(buffer: &Buffer, offset: u32, received: bool) -> (stands: bool)
    requires
        buffer.wf(),
        sized(buffer@, received),
    ensures
        stands == desc_at(message_body(buffer@, received), offset as int).is_some(),
{
    let cur_offset = offset as usize;
    let body_size = if received {
        buffer.header().msgh_size as usize - HEADER_SIZE
    } else {
        buffer.body().len()
    };
    if cur_offset % 4 != 0 || body_size < PORT_DESCRIPTOR_SIZE || cur_offset > body_size
        - PORT_DESCRIPTOR_SIZE {
        return false;
    }
    let type_ = buffer.body()[cur_offset + DESCRIPTOR_TYPE_OFFSET] as u32;
    if type_ == MACH_MSG_PORT_DESCRIPTOR {
        true
    } else if type_ == MACH_MSG_OOL_DESCRIPTOR || type_ == MACH_MSG_OOL_VOLATILE_DESCRIPTOR
        || type_ == MACH_MSG_OOL_PORTS_DESCRIPTOR {
        size_for_desc_type(type_) <= body_size - cur_offset
    } else {
        false
    }
}

/// Represents a parsed message header.
#[derive(Debug)]
pub struct ParsedMsgHdr {
    /// The message ID value from the message header.
    pub id: MsgId,
    /// The reply port right passed with the message if any.
    pub reply_right: Option<AnySendRight>,
    /// The voucher port right passed with the message if any.
    pub voucher: Option<SendRight>,
}

/// Represents a parsed message descriptor.
#[derive(Debug)]
pub enum ParsedMsgDesc {
    /// A receive right from a port descriptor.
    PortRecv(RecvRight),
    /// A send right from a port descriptor.
    PortSend(SendRight),
    /// A send once right from a port descriptor.
    PortSendOnce(SendOnceRight),
    /// An out-of-line data descriptor.
    OolData(OolBuf),
}

/// A descriptor that a received message can hold: a port descriptor that
/// moves a right, or an out-of-line data descriptor that is empty or has an
/// address.
pub open spec fn receivable_desc(desc: TransmutedMsgDesc) -> bool {
    match desc {
        TransmutedMsgDesc::Port(port_desc) => {
            ||| port_desc.disposition == MACH_MSG_TYPE_MOVE_SEND
            ||| port_desc.disposition == MACH_MSG_TYPE_MOVE_SEND_ONCE
            ||| port_desc.disposition == MACH_MSG_TYPE_MOVE_RECEIVE
        },
        TransmutedMsgDesc::Ool(ool_desc) => ool_desc.size == 0 || ool_desc.address != 0,
        TransmutedMsgDesc::OolVolatile(_) => false,
        TransmutedMsgDesc::OolPorts(_) => false,
    }
}

/// Every descriptor is one that a received message can hold.
pub open spec fn all_receivable(descs: Seq<TransmutedMsgDesc>) -> bool {
    forall|i: int| 0 <= i < descs.len() ==> receivable_desc(#[trigger] descs[i])
}

/// The buffer that an out-of-line data descriptor hands over: the region
/// that it names, or the buffer without memory where the region is empty.
pub open spec fn parsed_ool(ool_desc: OolDescriptor) -> OolBuf {
    OolBuf::spec_from_raw_parts(
        if ool_desc.size == 0 {
            DANGLING
        } else {
            ool_desc.address
        },
        ool_desc.size as usize,
    )
}

/// The owned value that a descriptor of a received message hands over: the
/// right of the class that the disposition moves, under the name in the
/// descriptor, or the buffer that an out-of-line data descriptor names.
pub open spec fn parsed_desc(desc: TransmutedMsgDesc) -> ParsedMsgDesc {
    match desc {
        TransmutedMsgDesc::Port(port_desc) => {
            if port_desc.disposition == MACH_MSG_TYPE_MOVE_SEND {
                ParsedMsgDesc::PortSend(SendRight::spec_from_raw_name(port_desc.name))
            } else if port_desc.disposition == MACH_MSG_TYPE_MOVE_SEND_ONCE {
                ParsedMsgDesc::PortSendOnce(SendOnceRight::spec_from_raw_name(port_desc.name))
            } else {
                ParsedMsgDesc::PortRecv(RecvRight::spec_from_raw_name(port_desc.name))
            }
        },
        TransmutedMsgDesc::Ool(ool_desc) => ParsedMsgDesc::OolData(parsed_ool(ool_desc)),
        TransmutedMsgDesc::OolVolatile(ool_desc) => ParsedMsgDesc::OolData(parsed_ool(ool_desc)),
        TransmutedMsgDesc::OolPorts(_) => ParsedMsgDesc::OolData(
            OolBuf::spec_from_raw_parts(DANGLING, 0),
        ),
    }
}

/// `receivable_desc`, computed.
pub fn is_receivable_desc(desc: &TransmutedMsgDesc) -> (receivable: bool)
    ensures
        receivable == receivable_desc(*desc),
{
    match desc {
        TransmutedMsgDesc::Port(port_desc) => {
            let disposition = port_desc.disposition as u32;
            disposition == MACH_MSG_TYPE_MOVE_SEND || disposition == MACH_MSG_TYPE_MOVE_SEND_ONCE
                || disposition == MACH_MSG_TYPE_MOVE_RECEIVE
        },
        TransmutedMsgDesc::Ool(ool_desc) => ool_desc.size == 0 || ool_desc.address != 0,
        TransmutedMsgDesc::OolVolatile(_) => false,
        TransmutedMsgDesc::OolPorts(_) => false,
    }
}

/// Makes of a descriptor of a received message the owned value that it
/// hands over.
pub fn parse_desc(desc: TransmutedMsgDesc) -> (parsed: ParsedMsgDesc)
    requires
        receivable_desc(desc),
    ensures
        parsed == parsed_desc(desc),
{
    match desc {
        TransmutedMsgDesc::Port(port_desc) => {
            let disposition = port_desc.disposition as u32;
            if disposition == MACH_MSG_TYPE_MOVE_SEND {
                ParsedMsgDesc::PortSend(SendRight::from_raw_name(port_desc.name))
            } else if disposition == MACH_MSG_TYPE_MOVE_SEND_ONCE {
                ParsedMsgDesc::PortSendOnce(SendOnceRight::from_raw_name(port_desc.name))
            } else {
                ParsedMsgDesc::PortRecv(RecvRight::from_raw_name(port_desc.name))
            }
        },
        TransmutedMsgDesc::Ool(ool_desc) => {
            let length = ool_desc.size as usize;
            let address = if length == 0 {
                DANGLING
            } else {
                ool_desc.address
            };
            ParsedMsgDesc::OolData(OolBuf::from_raw_parts(address, length))
        },
        TransmutedMsgDesc::OolVolatile(_) => ParsedMsgDesc::OolData(OolBuf::default()),
        TransmutedMsgDesc::OolPorts(_) => ParsedMsgDesc::OolData(OolBuf::default()),
    }
}

/// The owned values that descriptors of a received message hand over, in
/// their order.
pub open spec fn parsed_descs(descs: Seq<TransmutedMsgDesc>) -> Seq<ParsedMsgDesc> {
    Seq::new(descs.len(), |i: int| parsed_desc(descs[i]))
}

/// `count` descriptors stand from `off` on, each one that a received
/// message can hold.
pub open spec fn receivable_descs_at(body: Seq<u8>, off: int, count: nat) -> bool {
    match descs_at(body, off, count) {
        Some(descs) => all_receivable(descs),
        None => false,
    }
}

/// Descriptors stand from an offset on, each one that a received message can
/// hold, where the first does and is, and the others do and are behind it.
pub proof fn lemma_receivable_descs_at(body: Seq<u8>, off: int, count: nat)
    requires
        count > 0,
    ensures
        receivable_descs_at(body, off, count) == match desc_at(body, off) {
            Some(desc) => receivable_desc(desc) && receivable_descs_at(
                body,
                off + desc.size(),
                (count - 1) as nat,
            ),
            None => false,
        },
        descs_at(body, off, count) matches Some(descs) ==> descs.len() == count && descs[0]
            == desc_at(body, off).unwrap() && descs_at(
            body,
            off + descs[0].size(),
            (count - 1) as nat,
        ) == Some(descs.skip(1)),
    decreases count,
{
    if let Some(desc) = desc_at(body, off) {
        if let Some(rest) = descs_at(body, off + desc.size(), (count - 1) as nat) {
            let descs = seq![desc] + rest;
            assert(rest =~= descs.skip(1));
            if count > 1 {
                lemma_receivable_descs_at(body, off + desc.size(), (count - 1) as nat);
            }
            if all_receivable(descs) {
                assert(descs[0] == desc);
                assert forall|i: int| 0 <= i < rest.len() implies receivable_desc(
                    #[trigger] rest[i],
                ) by {
                    assert(rest[i] == descs[i + 1]);
                }
            }
            if receivable_desc(desc) && all_receivable(rest) {
                assert forall|i: int| 0 <= i < descs.len() implies receivable_desc(
                    #[trigger] descs[i],
                ) by {
                    if i > 0 {
                        assert(descs[i] == rest[i - 1]);
                    }
                }
            }
        }
    }
}

/// Message body parser.
#[derive(Debug)]
pub struct BodyParser {
    buffer: Buffer,
    offset: u32,
}

impl BodyParser {
    /// The buffer that holds the message.
    pub closed spec fn buffer(&self) -> BufferView {
        self.buffer@
    }

    /// Where the inline data starts in the body of the message.
    pub closed spec fn offset(&self) -> u32 {
        self.offset
    }

    /// The inline data starts within the body of the message.
    pub open spec fn wf(&self) -> bool {
        &&& self.buffer().wf()
        &&& sized(self.buffer(), true)
        &&& self.offset() <= self.buffer().header.msgh_size - HEADER_SIZE
    }

    /// The inline data of the message.
    pub open spec fn spec_body(&self) -> Seq<u8> {
        self.buffer().body.subrange(
            self.offset() as int,
            self.buffer().header.msgh_size - HEADER_SIZE,
        )
    }

    /// Returns the message body as a byte slice.
    pub fn body(&self) -> (body: &[u8])
        requires
            self.wf(),
        ensures
            body@ == self.spec_body(),
    {
        let offset = self.offset as usize;
        let size = self.buffer.header().msgh_size as usize - HEADER_SIZE;
        slice_subrange(self.buffer.body(), offset, size)
    }

    /// Gives back the buffer, with the message in it.
    pub fn into_buffer(self) -> (buffer: Buffer)
        ensures
            buffer@ == self.buffer(),
    {
        self.buffer
    }
}

/// Either a descriptor or a body parser.
#[derive(Debug)]
pub enum DescOrBodyParser {
    /// A descriptor parser.
    Descriptor(DescParser),
    /// A body parser.
    Body(BodyParser),
}

impl DescOrBodyParser {
    /// The buffer that holds the message.
    pub open spec fn buffer(&self) -> BufferView {
        match self {
            DescOrBodyParser::Descriptor(parser) => parser.buffer(),
            DescOrBodyParser::Body(parser) => parser.buffer(),
        }
    }

    /// The parser that it is, is well-formed.
    pub open spec fn wf(&self) -> bool {
        match self {
            DescOrBodyParser::Descriptor(parser) => parser.wf(),
            DescOrBodyParser::Body(parser) => parser.wf(),
        }
    }

    /// The descriptors that are left.
    pub open spec fn remaining(&self) -> Seq<TransmutedMsgDesc> {
        match self {
            DescOrBodyParser::Descriptor(parser) => parser.remaining(),
            DescOrBodyParser::Body(_) => Seq::empty(),
        }
    }

    /// Gives the parser up: returns what every descriptor that is left hands
    /// over, each once and in the order of the message, for the caller to
    /// give back to the kernel, and the buffer.
    pub fn release(self) -> (released: (Vec<ParsedMsgDesc>, Buffer))
        requires
            self.wf(),
        ensures
            released.0@ == parsed_descs(self.remaining()),
            released.1@ == self.buffer(),
    {
        match self {
            DescOrBodyParser::Descriptor(parser) => parser.release(),
            DescOrBodyParser::Body(parser) => {
                let owned: Vec<ParsedMsgDesc> = Vec::new();
                assert(owned@ =~= parsed_descs(self.remaining()));
                (owned, parser.into_buffer())
            },
        }
    }
}

/// A Mach message parser received after parsing the header.
#[derive(Debug)]
pub struct DescParser {
    buffer: Buffer,
    count: u32,
    offset: u32,
}

impl DescParser {
    /// The buffer that holds the message.
    pub closed spec fn buffer(&self) -> BufferView {
        self.buffer@
    }

    /// The number of descriptors that are left.
    pub closed spec fn count(&self) -> u32 {
        self.count
    }

    /// Where the next descriptor starts in the body of the message.
    pub closed spec fn offset(&self) -> u32 {
        self.offset
    }

    /// At least one descriptor is left, and as many as are left stand in
    /// the message from the offset on, each one that a received message can
    /// hold.
    pub open spec fn wf(&self) -> bool {
        &&& self.buffer().wf()
        &&& sized(self.buffer(), true)
        &&& self.count() > 0
        &&& match descs_at(
            message_body(self.buffer(), true),
            self.offset() as int,
            self.count() as nat,
        ) {
            Some(descs) => all_receivable(descs),
            None => false,
        }
    }

    /// The descriptors that are left.
    pub open spec fn remaining(&self) -> Seq<TransmutedMsgDesc> {
        descs_at(
            message_body(self.buffer(), true),
            self.offset() as int,
            self.count() as nat,
        ).unwrap()
    }

    /// Gives the parser up: returns what every descriptor that is left hands
    /// over, each once and in the order of the message, for the caller to
    /// give back to the kernel, and the buffer.
    pub fn release(self) -> (released: (Vec<ParsedMsgDesc>, Buffer))
        requires
            self.wf(),
        ensures
            released.0@ == parsed_descs(self.remaining()),
            released.1@ == self.buffer(),
    {
        let mut parser = self;
        let ghost descs = self.remaining();
        let ghost body = message_body(self.buffer(), true);
        let mut owned: Vec<ParsedMsgDesc> = Vec::new();
        proof {
            lemma_receivable_descs_at(body, self.offset() as int, self.count() as nat);
            assert(descs.skip(0) =~= descs);
        }
        while parser.count > 0
            invariant
                parser.buffer@ == self.buffer(),
                parser.buffer.wf(),
                sized(parser.buffer@, true),
                body == message_body(self.buffer(), true),
                descs.len() == self.count(),
                all_receivable(descs),
                owned.len() + parser.count == descs.len(),
                descs_at(body, parser.offset as int, parser.count as nat) == Some(
                    descs.skip(owned.len() as int),
                ),
                forall|i: int| 0 <= i < owned.len() ==> owned@[i] == parsed_desc(descs[i]),
            decreases parser.count,
        {
            proof {
                lemma_receivable_descs_at(body, parser.offset as int, parser.count as nat);
                assert(descs.skip(owned.len() as int).skip(1) =~= descs.skip(owned.len() + 1));
            }
            let desc = next_desc_impl(&parser.buffer, &mut parser.offset, true);
            assert(desc == descs[owned.len() as int]);
            owned.push(parse_desc(desc));
            parser.count -= 1;
        }
        assert(owned@ =~= parsed_descs(descs));
        (owned, parser.buffer)
    }

    /// Parses the next descriptor from the message.
    pub fn next(self) -> (parsed: (ParsedMsgDesc, DescOrBodyParser))
        requires
            self.wf(),
        ensures
            parsed.0 == parsed_desc(self.remaining()[0]),
            match parsed.1 {
                DescOrBodyParser::Descriptor(parser) => {
                    &&& self.count() > 1
                    &&& parser.wf()
                    &&& parser.buffer() == self.buffer()
                    &&& parser.count() == self.count() - 1
                    &&& parser.offset() == self.offset() + self.remaining()[0].size()
                    &&& parser.remaining() == self.remaining().skip(1)
                },
                DescOrBodyParser::Body(parser) => {
                    &&& self.count() == 1
                    &&& parser.wf()
                    &&& parser.buffer() == self.buffer()
                    &&& parser.offset() == self.offset() + self.remaining()[0].size()
                },
            },
    {
        let mut parser = self;
        let ghost descs = self.remaining();
        let desc = next_desc_impl(&parser.buffer, &mut parser.offset, true);
        proof {
            let rest = descs_at(
                message_body(self.buffer(), true),
                self.offset() + desc.size(),
                (self.count() - 1) as nat,
            ).unwrap();
            assert(descs == seq![desc] + rest);
            assert(descs[0] == desc);
            assert(rest =~= descs.skip(1));
            assert forall|i: int| 0 <= i < rest.len() implies receivable_desc(
                #[trigger] rest[i],
            ) by {
                assert(rest[i] == descs[i + 1]);
            }
        }
        let parsed_desc = parse_desc(desc);
        parser.count -= 1;
        let parser = if parser.count > 0 {
            DescOrBodyParser::Descriptor(parser)
        } else {
            DescOrBodyParser::Body(BodyParser { buffer: parser.buffer, offset: parser.offset })
        };
        (parsed_desc, parser)
    }
}

/// What a received message must be like for its parsers: the size in its
/// header covers the header and no more than the buffer holds; no header bit
/// is set that user code cannot set; a voucher port comes with the
/// disposition of a copied or moved send right, and a reply port with that of
/// a moved send or send once right; and a complex message holds its
/// descriptor count and, behind it, that many descriptors, each one that a
/// received message can hold.
pub open spec fn receivable_message(buffer: BufferView) -> bool {
    let header = buffer.header;
    let bits = MachMsgBits(header.msgh_bits);
    let body = message_body(buffer, true);
    &&& sized(buffer, true)
    &&& bits.is_user()
    &&& header.msgh_voucher_port != MACH_PORT_NULL ==> bits.spec_voucher()
        == MACH_MSG_TYPE_COPY_SEND || bits.spec_voucher() == MACH_MSG_TYPE_MOVE_SEND
    &&& header.msgh_remote_port != MACH_PORT_NULL ==> bits.spec_remote()
        == MACH_MSG_TYPE_MOVE_SEND || bits.spec_remote() == MACH_MSG_TYPE_MOVE_SEND_ONCE
    &&& bits.spec_complex() ==> body.len() >= COUNT_SIZE
    &&& match descs_at(
        body,
        COUNT_SIZE as int,
        Buffer::spec_descriptors_count(header.msgh_bits, body) as nat,
    ) {
        Some(descs) => all_receivable(descs),
        None => false,
    }
}

/// The reply right that the header of a received message hands over: the
/// right to the remote port, of the class that its disposition moves.
pub open spec fn parsed_reply_right(header: crate::msg::buffer::MachMsgHeader) -> Option<
    AnySendRight,
> {
    if header.msgh_remote_port != MACH_PORT_NULL {
        if MachMsgBits(header.msgh_bits).spec_remote() == MACH_MSG_TYPE_MOVE_SEND {
            Some(AnySendRight::Send(SendRight::spec_from_raw_name(header.msgh_remote_port)))
        } else {
            Some(
                AnySendRight::SendOnce(SendOnceRight::spec_from_raw_name(header.msgh_remote_port)),
            )
        }
    } else {
        None
    }
}

/// The voucher that the header of a received message hands over.
pub open spec fn parsed_voucher(header: crate::msg::buffer::MachMsgHeader) -> Option<SendRight> {
    if header.msgh_voucher_port != MACH_PORT_NULL {
        Some(SendRight::spec_from_raw_name(header.msgh_voucher_port))
    } else {
        None
    }
}

/// Takes the ID and the rights out of the header of a received message, and
/// makes the parser of what follows the header: of the descriptors where
/// there are any, else of the body from its start.
pub fn parse_header_impl(buffer: Buffer) -> (parsed: (ParsedMsgHdr, DescOrBodyParser))
    requires
        buffer.wf(),
        receivable_message(buffer@),
    ensures
        parsed.0.id == buffer@.header.msgh_id,
        parsed.0.reply_right == parsed_reply_right(buffer@.header),
        parsed.0.voucher == parsed_voucher(buffer@.header),
        match parsed.1 {
            DescOrBodyParser::Descriptor(parser) => {
                &&& parser.wf()
                &&& parser.buffer() == buffer@
                &&& parser.count() == Buffer::spec_descriptors_count(
                    buffer@.header.msgh_bits,
                    message_body(buffer@, true),
                )
                &&& parser.offset() == COUNT_SIZE
            },
            DescOrBodyParser::Body(parser) => {
                &&& parser.wf()
                &&& parser.buffer() == buffer@
                &&& parser.offset() == 0
                &&& Buffer::spec_descriptors_count(
                    buffer@.header.msgh_bits,
                    message_body(buffer@, true),
                ) == 0
            },
        },
{
    let header = buffer.header();
    let bits = MachMsgBits(header.msgh_bits);
    let id = header.msgh_id;
    let raw_voucher_name = header.msgh_voucher_port;
    let voucher = if raw_voucher_name != MACH_PORT_NULL {
        Some(SendRight::from_raw_name(raw_voucher_name))
    } else {
        None
    };
    let raw_remote_port_name = header.msgh_remote_port;
    let reply_right = if raw_remote_port_name != MACH_PORT_NULL {
        if bits.remote() == MACH_MSG_TYPE_MOVE_SEND {
            Some(AnySendRight::Send(SendRight::from_raw_name(raw_remote_port_name)))
        } else {
            Some(AnySendRight::SendOnce(SendOnceRight::from_raw_name(raw_remote_port_name)))
        }
    } else {
        None
    };
    proof {
        if bits.spec_complex() {
            assert(buffer@.body.subrange(0, COUNT_SIZE as int) =~= message_body(
                buffer@,
                true,
            ).subrange(0, COUNT_SIZE as int));
        }
    }
    let count = buffer.descriptors_count();
    let desc_parser = if count > 0 {
        DescOrBodyParser::Descriptor(DescParser { buffer, count, offset: COUNT_SIZE as u32 })
    } else {
        DescOrBodyParser::Body(BodyParser { buffer, offset: 0 })
    };
    let parsed_hdr = ParsedMsgHdr { id, reply_right, voucher };
    (parsed_hdr, desc_parser)
}

/// A Mach message parser that can parse Mach message headers and construct subsequent parsers.
#[derive(Debug)]
pub struct MsgParser(Buffer);

impl MsgParser {
    /// The buffer that holds the message.
    pub closed spec fn buffer(&self) -> BufferView {
        self.0@
    }

    /// The message is one that the parsers can take apart.
    pub open spec fn wf(&self) -> bool {
        self.buffer().wf() && receivable_message(self.buffer())
    }

    /// A buffer holds a message that a parser can be made for: the buffer
    /// has room for as many body bytes as the size in the header counts
    /// bytes, and the message is one that the parsers can take apart.
    pub open spec fn acceptable(buffer: BufferView) -> bool {
        buffer.header.msgh_size <= buffer.capacity && receivable_message(buffer)
    }

    /// Whether a buffer holds a message that a parser can be made for.
    pub fn check(buffer: &Buffer) -> (acceptable: bool)
        requires
            buffer.wf(),
        ensures
            acceptable == Self::acceptable(buffer@),
    {
        let header = buffer.header();
        let size = header.msgh_size as usize;
        if size < HEADER_SIZE || size > buffer.capacity() || size - HEADER_SIZE
            > buffer.body().len() {
            return false;
        }
        let body_size = size - HEADER_SIZE;
        let value = header.msgh_bits;
        if value != value & crate::abi::MACH_MSGH_BITS_USER {
            return false;
        }
        let bits = MachMsgBits(value);
        if header.msgh_voucher_port != MACH_PORT_NULL && bits.voucher() != MACH_MSG_TYPE_COPY_SEND
            && bits.voucher() != MACH_MSG_TYPE_MOVE_SEND {
            return false;
        }
        if header.msgh_remote_port != MACH_PORT_NULL && bits.remote() != MACH_MSG_TYPE_MOVE_SEND
            && bits.remote() != MACH_MSG_TYPE_MOVE_SEND_ONCE {
            return false;
        }
        if !bits.complex() {
            return true;
        }
        if body_size < COUNT_SIZE {
            return false;
        }
        let ghost body = message_body(buffer@, true);
        assert(buffer@.body.subrange(0, COUNT_SIZE as int) =~= body.subrange(0, COUNT_SIZE as int));
        let count = buffer.descriptors_count();
        let mut left = count;
        let mut offset = COUNT_SIZE as u32;
        assert(Self::acceptable(buffer@) == receivable_descs_at(
            body,
            COUNT_SIZE as int,
            count as nat,
        ));
        while left > 0
            invariant
                buffer.wf(),
                Self::acceptable(buffer@) == receivable_descs_at(
                    body,
                    COUNT_SIZE as int,
                    count as nat,
                ),
                sized(buffer@, true),
                body == message_body(buffer@, true),
                receivable_descs_at(body, COUNT_SIZE as int, count as nat) == receivable_descs_at(
                    body,
                    offset as int,
                    left as nat,
                ),
            decreases left,
        {
            proof {
                lemma_receivable_descs_at(body, offset as int, left as nat);
            }
            if !desc_stands_at(buffer, offset, true) {
                return false;
            }
            let desc = next_desc_impl(buffer, &mut offset, true);
            if !is_receivable_desc(&desc) {
                return false;
            }
            left -= 1;
        }
        true
    }

    /// Gives the parser up before the header is parsed: returns what the
    /// header hands over and what every descriptor hands over, each once and
    /// in the order of the message, for the caller to give back to the kernel,
    /// and the buffer.
    pub fn release(self) -> (released: (ParsedMsgHdr, Vec<ParsedMsgDesc>, Buffer))
        requires
            self.wf(),
        ensures
            released.0.id == self.buffer().header.msgh_id,
            released.0.reply_right == parsed_reply_right(self.buffer().header),
            released.0.voucher == parsed_voucher(self.buffer().header),
            released.1@ == parsed_descs(
                descs_at(
                    message_body(self.buffer(), true),
                    COUNT_SIZE as int,
                    Buffer::spec_descriptors_count(
                        self.buffer().header.msgh_bits,
                        message_body(self.buffer(), true),
                    ) as nat,
                ).unwrap(),
            ),
            released.2@ == self.buffer(),
    {
        let (header, parser) = parse_header_impl(self.0);
        let (owned, buffer) = parser.release();
        (header, owned, buffer)
    }

    /// Makes the parser of the message that a buffer holds, and sets the
    /// length of the buffer's body to the size in the header.
    #[inline(always)]
    pub fn new(buffer: Buffer) -> (parser: Self)
        requires
            buffer.wf(),
            Self::acceptable(buffer@),
        ensures
            parser.wf(),
            parser.buffer() == (BufferView {
                body: resized(buffer@.body, buffer@.header.msgh_size as nat),
                ..buffer@
            }),
            message_body(parser.buffer(), true) == message_body(buffer@, true),
    {
        let ghost stored = buffer@;
        let mut buffer = buffer;
        let size = buffer.header().msgh_size;
        buffer.set_len(size);
        assert(message_body(buffer@, true) =~= message_body(stored, true));
        MsgParser(buffer)
    }

    /// Parses the header of the message and returns the parsed header and either a descriptor or
    /// a body parser depending on whether there are descriptors in the message.
    pub fn parse_header(self) -> (parsed: (ParsedMsgHdr, DescOrBodyParser))
        requires
            self.wf(),
        ensures
            parsed.0.id == self.buffer().header.msgh_id,
            parsed.0.reply_right == parsed_reply_right(self.buffer().header),
            parsed.0.voucher == parsed_voucher(self.buffer().header),
            match parsed.1 {
                DescOrBodyParser::Descriptor(parser) => {
                    &&& parser.wf()
                    &&& parser.buffer() == self.buffer()
                    &&& parser.count() == Buffer::spec_descriptors_count(
                        self.buffer().header.msgh_bits,
                        message_body(self.buffer(), true),
                    )
                    &&& parser.offset() == COUNT_SIZE
                },
                DescOrBodyParser::Body(parser) => {
                    &&& parser.wf()
                    &&& parser.buffer() == self.buffer()
                    &&& parser.offset() == 0
                    &&& Buffer::spec_descriptors_count(
                        self.buffer().header.msgh_bits,
                        message_body(self.buffer(), true),
                    ) == 0
                },
            },
    {
        parse_header_impl(self.0)
    }
}

} // verus!
