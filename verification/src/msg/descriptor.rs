//! The fixed-layout records of a message's descriptor table, and their bytes.
//!
//! Integers are stored in little-endian order, the order of every machine the
//! Mach kernel runs on. The layouts are those of a 64-bit task.
use crate::abi::{MACH_MSG_OOL_DESCRIPTOR, MACH_MSG_PORT_DESCRIPTOR};
use vstd::bytes::{
    lemma_auto_spec_u16_to_from_le_bytes, lemma_auto_spec_u32_to_from_le_bytes,
    lemma_auto_spec_u64_to_from_le_bytes, spec_u16_from_le_bytes, spec_u16_to_le_bytes,
    spec_u32_from_le_bytes, spec_u32_to_le_bytes, spec_u64_from_le_bytes, spec_u64_to_le_bytes,
    u16_from_le_bytes, u16_to_le_bytes, u32_from_le_bytes, u32_to_le_bytes, u64_from_le_bytes,
    u64_to_le_bytes,
};
use vstd::prelude::*;
use vstd::slice::slice_subrange;

verus! {

/// The size in bytes of a port descriptor.
pub const PORT_DESCRIPTOR_SIZE: usize = 12;

/// The size in bytes of an out-of-line data descriptor.
pub const OOL_DESCRIPTOR_SIZE: usize = 16;

/// The size in bytes of an out-of-line ports descriptor.
pub const OOL_PORTS_DESCRIPTOR_SIZE: usize = 16;

/// Where the type tag stands in every descriptor.
pub const DESCRIPTOR_TYPE_OFFSET: usize = 11;

/// The low eight bits of a code, as the kernel's bit fields keep them.
pub open spec fn low_byte(code: u32) -> u8 {
    (code & 0xff) as u8
}

/// The low eight bits of a code.
pub fn low_byte_of(code: u32) -> (byte: u8)
    ensures
        byte == low_byte(code),
        code < 256 ==> byte == code,
{
    assert(code & 0xff < 256 && (code < 256 ==> code & 0xff == code)) by (bit_vector);
    (code & 0xff) as u8
}

/// A port descriptor: one port right carried by a message.
#[derive(Clone, Copy, Debug, PartialEq, Eq, Structural)]
pub struct PortDescriptor {
    pub name: u32,
    pub pad1: u32,
    pub pad2: u16,
    pub disposition: u8,
    pub type_: u8,
}

impl PortDescriptor {
    /// The descriptor of the right `name` with the disposition given.
    pub fn new(name: u32, disposition: u32) -> (desc: Self)
        ensures
            desc == (PortDescriptor {
                name,
                pad1: 0,
                pad2: 0,
                disposition: low_byte(disposition),
                type_: 0,
            }),
    {
        PortDescriptor {
            name,
            pad1: 0,
            pad2: 0,
            disposition: low_byte_of(disposition),
            type_: low_byte_of(MACH_MSG_PORT_DESCRIPTOR),
        }
    }

    /// The twelve bytes of the descriptor.
    pub open spec fn bytes(self) -> Seq<u8> {
        spec_u32_to_le_bytes(self.name) + spec_u32_to_le_bytes(self.pad1) + spec_u16_to_le_bytes(
            self.pad2,
        ) + seq![self.disposition, self.type_]
    }

    /// The descriptor that the first twelve bytes of `s` hold.
    pub open spec fn spec_from_bytes(s: Seq<u8>) -> Self {
        PortDescriptor {
            name: spec_u32_from_le_bytes(s.subrange(0, 4)),
            pad1: spec_u32_from_le_bytes(s.subrange(4, 8)),
            pad2: spec_u16_from_le_bytes(s.subrange(8, 10)),
            disposition: s[10],
            type_: s[11],
        }
    }

    pub fn to_bytes(&self) -> (bytes: Vec<u8>)
        ensures
            bytes@ == self.bytes(),
            bytes.len() == PORT_DESCRIPTOR_SIZE,
    {
        let mut bytes = u32_to_le_bytes(self.name);
        let mut pad1 = u32_to_le_bytes(self.pad1);
        let mut pad2 = u16_to_le_bytes(self.pad2);
        bytes.append(&mut pad1);
        bytes.append(&mut pad2);
        bytes.push(self.disposition);
        bytes.push(self.type_);
        assert(bytes@ =~= self.bytes());
        bytes
    }

    pub fn from_bytes(bytes: &[u8]) -> (desc: Self)
        requires
            bytes.len() == PORT_DESCRIPTOR_SIZE,
        ensures
            desc == Self::spec_from_bytes(bytes@),
    {
        PortDescriptor {
            name: u32_from_le_bytes(slice_subrange(bytes, 0, 4)),
            pad1: u32_from_le_bytes(slice_subrange(bytes, 4, 8)),
            pad2: u16_from_le_bytes(slice_subrange(bytes, 8, 10)),
            disposition: bytes[10],
            type_: bytes[11],
        }
    }

    /// The bytes of a descriptor are twelve, the type tag is the twelfth, and
    /// reading them back gives the descriptor, whatever follows them.
    pub proof fn lemma_bytes(self, rest: Seq<u8>)
        ensures
            self.bytes().len() == PORT_DESCRIPTOR_SIZE,
            self.bytes()[DESCRIPTOR_TYPE_OFFSET as int] == self.type_,
            Self::spec_from_bytes(self.bytes() + rest) == self,
    {
        lemma_auto_spec_u32_to_from_le_bytes();
        lemma_auto_spec_u16_to_from_le_bytes();
        let s = self.bytes() + rest;
        assert(s.subrange(0, 4) =~= spec_u32_to_le_bytes(self.name));
        assert(s.subrange(4, 8) =~= spec_u32_to_le_bytes(self.pad1));
        assert(s.subrange(8, 10) =~= spec_u16_to_le_bytes(self.pad2));
    }
}

/// An out-of-line data descriptor: a region of memory carried by a message.
#[derive(Clone, Copy, Debug, PartialEq, Eq, Structural)]
pub struct OolDescriptor {
    pub address: u64,
    pub deallocate: u8,
    pub copy: u8,
    pub pad1: u8,
    pub type_: u8,
    pub size: u32,
}

impl OolDescriptor {
    /// The descriptor of the `size` bytes at `address`.
    pub fn new(address: u64, deallocate: bool, copy: u32, size: u32) -> (desc: Self)
        ensures
            desc == (OolDescriptor {
                address,
                deallocate: if deallocate { 1u8 } else { 0u8 },
                copy: low_byte(copy),
                pad1: 0,
                type_: 1,
                size,
            }),
    {
        OolDescriptor {
            address,
            deallocate: if deallocate { 1 } else { 0 },
            copy: low_byte_of(copy),
            pad1: 0,
            type_: low_byte_of(MACH_MSG_OOL_DESCRIPTOR),
            size,
        }
    }

    /// The sixteen bytes of the descriptor.
    pub open spec fn bytes(self) -> Seq<u8> {
        spec_u64_to_le_bytes(self.address) + seq![
            self.deallocate,
            self.copy,
            self.pad1,
            self.type_,
        ] + spec_u32_to_le_bytes(self.size)
    }

    /// The descriptor that the first sixteen bytes of `s` hold.
    pub open spec fn spec_from_bytes(s: Seq<u8>) -> Self {
        OolDescriptor {
            address: spec_u64_from_le_bytes(s.subrange(0, 8)),
            deallocate: s[8],
            copy: s[9],
            pad1: s[10],
            type_: s[11],
            size: spec_u32_from_le_bytes(s.subrange(12, 16)),
        }
    }

    pub fn to_bytes(&self) -> (bytes: Vec<u8>)
        ensures
            bytes@ == self.bytes(),
            bytes.len() == OOL_DESCRIPTOR_SIZE,
    {
        proof {
            lemma_auto_spec_u64_to_from_le_bytes();
        }
        let mut bytes = u64_to_le_bytes(self.address);
        let mut size = u32_to_le_bytes(self.size);
        bytes.push(self.deallocate);
        bytes.push(self.copy);
        bytes.push(self.pad1);
        bytes.push(self.type_);
        bytes.append(&mut size);
        assert(bytes@ =~= self.bytes());
        bytes
    }

    pub fn from_bytes(bytes: &[u8]) -> (desc: Self)
        requires
            bytes.len() == OOL_DESCRIPTOR_SIZE,
        ensures
            desc == Self::spec_from_bytes(bytes@),
    {
        OolDescriptor {
            address: u64_from_le_bytes(slice_subrange(bytes, 0, 8)),
            deallocate: bytes[8],
            copy: bytes[9],
            pad1: bytes[10],
            type_: bytes[11],
            size: u32_from_le_bytes(slice_subrange(bytes, 12, 16)),
        }
    }

    /// The bytes of a descriptor are sixteen, the type tag is the twelfth, and
    /// reading them back gives the descriptor, whatever follows them.
    pub proof fn lemma_bytes(self, rest: Seq<u8>)
        ensures
            self.bytes().len() == OOL_DESCRIPTOR_SIZE,
            self.bytes()[DESCRIPTOR_TYPE_OFFSET as int] == self.type_,
            Self::spec_from_bytes(self.bytes() + rest) == self,
    {
        lemma_auto_spec_u64_to_from_le_bytes();
        lemma_auto_spec_u32_to_from_le_bytes();
        let s = self.bytes() + rest;
        assert(s.subrange(0, 8) =~= spec_u64_to_le_bytes(self.address));
        assert(s.subrange(12, 16) =~= spec_u32_to_le_bytes(self.size));
    }
}

/// An out-of-line ports descriptor: an array of port rights carried by a
/// message.
#[derive(Clone, Copy, Debug, PartialEq, Eq, Structural)]
pub struct OolPortsDescriptor {
    pub address: u64,
    pub deallocate: u8,
    pub copy: u8,
    pub disposition: u8,
    pub type_: u8,
    pub count: u32,
}

impl OolPortsDescriptor {
    /// The sixteen bytes of the descriptor.
    pub open spec fn bytes(self) -> Seq<u8> {
        spec_u64_to_le_bytes(self.address) + seq![
            self.deallocate,
            self.copy,
            self.disposition,
            self.type_,
        ] + spec_u32_to_le_bytes(self.count)
    }

    /// The descriptor that the first sixteen bytes of `s` hold.
    pub open spec fn spec_from_bytes(s: Seq<u8>) -> Self {
        OolPortsDescriptor {
            address: spec_u64_from_le_bytes(s.subrange(0, 8)),
            deallocate: s[8],
            copy: s[9],
            disposition: s[10],
            type_: s[11],
            count: spec_u32_from_le_bytes(s.subrange(12, 16)),
        }
    }

    /// The bytes of a descriptor are sixteen, the type tag is the twelfth, and
    /// reading them back gives the descriptor, whatever follows them.
    pub proof fn lemma_bytes(self, rest: Seq<u8>)
        ensures
            self.bytes().len() == OOL_PORTS_DESCRIPTOR_SIZE,
            self.bytes()[DESCRIPTOR_TYPE_OFFSET as int] == self.type_,
            Self::spec_from_bytes(self.bytes() + rest) == self,
    {
        lemma_auto_spec_u64_to_from_le_bytes();
        lemma_auto_spec_u32_to_from_le_bytes();
        let s = self.bytes() + rest;
        assert(s.subrange(0, 8) =~= spec_u64_to_le_bytes(self.address));
        assert(s.subrange(12, 16) =~= spec_u32_to_le_bytes(self.count));
    }

    pub fn to_bytes(&self) -> (bytes: Vec<u8>)
        ensures
            bytes@ == self.bytes(),
            bytes.len() == OOL_PORTS_DESCRIPTOR_SIZE,
    {
        proof {
            lemma_auto_spec_u64_to_from_le_bytes();
        }
        let mut bytes = u64_to_le_bytes(self.address);
        let mut count = u32_to_le_bytes(self.count);
        bytes.push(self.deallocate);
        bytes.push(self.copy);
        bytes.push(self.disposition);
        bytes.push(self.type_);
        bytes.append(&mut count);
        assert(bytes@ =~= self.bytes());
        bytes
    }

    pub fn from_bytes(bytes: &[u8]) -> (desc: Self)
        requires
            bytes.len() == OOL_PORTS_DESCRIPTOR_SIZE,
        ensures
            desc == Self::spec_from_bytes(bytes@),
    {
        OolPortsDescriptor {
            address: u64_from_le_bytes(slice_subrange(bytes, 0, 8)),
            deallocate: bytes[8],
            copy: bytes[9],
            disposition: bytes[10],
            type_: bytes[11],
            count: u32_from_le_bytes(slice_subrange(bytes, 12, 16)),
        }
    }
}

} // verus!
