//! Data structures and functions to build and to take apart Mach messages.
pub mod buffer;
pub mod builder;
pub mod descriptor;
pub mod error;
pub mod ool;
pub mod parser;

use crate::abi::{
    MACH_MSGH_BITS_COMPLEX, MACH_MSGH_BITS_LOCAL_MASK, MACH_MSGH_BITS_REMOTE_MASK,
    MACH_MSGH_BITS_USER, MACH_MSGH_BITS_VOUCHER_MASK,
};
use vstd::prelude::*;

verus! {

/// A type for Mach message IDs.
pub type MsgId = i32;

/// The `msgh_bits` word of a message header: three port dispositions of five
/// bits each and the complex flag.
#[derive(Clone, Copy, Debug)]
pub struct MachMsgBits(pub u32);

/// A disposition code fits in one of the three slots of the header bits.
pub open spec fn fits_slot(code: u32) -> bool {
    code == code & MACH_MSGH_BITS_REMOTE_MASK
}

impl MachMsgBits {
    /// No bit is set outside the three disposition slots and the complex flag.
    pub open spec fn is_user(self) -> bool {
        self.0 == self.0 & MACH_MSGH_BITS_USER
    }

    pub open spec fn spec_remote(self) -> u32 {
        self.0 & MACH_MSGH_BITS_REMOTE_MASK
    }

    pub open spec fn spec_local(self) -> u32 {
        (self.0 & MACH_MSGH_BITS_LOCAL_MASK) >> 8
    }

    pub open spec fn spec_voucher(self) -> u32 {
        (self.0 & MACH_MSGH_BITS_VOUCHER_MASK) >> 16
    }

    pub open spec fn spec_complex(self) -> bool {
        (self.0 & MACH_MSGH_BITS_COMPLEX) == MACH_MSGH_BITS_COMPLEX
    }

    /// The word that holds the three dispositions and the flag given.
    pub open spec fn spec_new(complex: bool, remote: u32, local: u32, voucher: u32) -> u32 {
        let port_bits = remote | (local << 8) | (voucher << 16);
        if complex {
            port_bits | MACH_MSGH_BITS_COMPLEX
        } else {
            port_bits
        }
    }

    /// The word with the remote disposition replaced.
    pub open spec fn spec_set_remote(self, bits: u32) -> Self {
        MachMsgBits((self.0 & !MACH_MSGH_BITS_REMOTE_MASK) | bits)
    }

    /// The word with the local disposition replaced.
    pub open spec fn spec_set_local(self, bits: u32) -> Self {
        MachMsgBits((self.0 & !MACH_MSGH_BITS_LOCAL_MASK) | (bits << 8))
    }

    /// The word with the complex flag set.
    pub open spec fn spec_into_complex(self) -> Self {
        MachMsgBits(self.0 | MACH_MSGH_BITS_COMPLEX)
    }

    pub fn new(complex: bool, remote: u32, local: u32, voucher: u32) -> (bits: Self)
        requires
            fits_slot(remote),
            fits_slot(local),
            fits_slot(voucher),
        ensures
            bits.0 == Self::spec_new(complex, remote, local, voucher),
            bits.is_user(),
            bits.spec_remote() == remote,
            bits.spec_local() == local,
            bits.spec_voucher() == voucher,
            bits.spec_complex() == complex,
    {
        proof {
            Self::lemma_new(complex, remote, local, voucher);
        }
        let port_bits = remote | (local << 8) | (voucher << 16);
        if complex {
            Self(port_bits | MACH_MSGH_BITS_COMPLEX)
        } else {
            Self(port_bits)
        }
    }

    #[inline(always)]
    pub fn from_bits(value: u32) -> (bits: Self)
        requires
            value == value & MACH_MSGH_BITS_USER,
        ensures
            bits.0 == value,
    {
        MachMsgBits(value)
    }

    #[inline(always)]
    #[verifier::when_used_as_spec(spec_remote)]
    pub fn remote(self) -> (code: u32)
        ensures
            code == self.spec_remote(),
            fits_slot(code),
    {
        let value = self.0;
        assert((value & 0x1fu32) == (value & 0x1fu32) & 0x1fu32) by (bit_vector);
        self.0 & MACH_MSGH_BITS_REMOTE_MASK
    }

    #[inline(always)]
    pub fn set_remote(self, bits: u32) -> (changed: Self)
        requires
            fits_slot(bits),
        ensures
            changed == self.spec_set_remote(bits),
            changed.spec_remote() == bits,
            changed.spec_local() == self.spec_local(),
            changed.spec_voucher() == self.spec_voucher(),
            changed.spec_complex() == self.spec_complex(),
            self.is_user() ==> changed.is_user(),
    {
        proof {
            self.lemma_set_remote(bits);
        }
        let changed = (self.0 & !MACH_MSGH_BITS_REMOTE_MASK) | bits;
        Self(changed)
    }

    #[inline(always)]
    #[verifier::when_used_as_spec(spec_local)]
    pub fn local(self) -> (code: u32)
        ensures
            code == self.spec_local(),
            fits_slot(code),
    {
        let value = self.0;
        assert(((value & 0x1f00u32) >> 8) == ((value & 0x1f00u32) >> 8) & 0x1fu32)
            by (bit_vector);
        (self.0 & MACH_MSGH_BITS_LOCAL_MASK) >> 8
    }

    #[inline(always)]
    pub fn set_local(self, bits: u32) -> (changed: Self)
        requires
            fits_slot(bits),
        ensures
            changed == self.spec_set_local(bits),
            changed.spec_remote() == self.spec_remote(),
            changed.spec_local() == bits,
            changed.spec_voucher() == self.spec_voucher(),
            changed.spec_complex() == self.spec_complex(),
            self.is_user() ==> changed.is_user(),
    {
        proof {
            self.lemma_set_local(bits);
        }
        let changed = (self.0 & !MACH_MSGH_BITS_LOCAL_MASK) | (bits << 8);
        Self(changed)
    }

    #[inline(always)]
    #[verifier::when_used_as_spec(spec_voucher)]
    pub fn voucher(self) -> (code: u32)
        ensures
            code == self.spec_voucher(),
            fits_slot(code),
    {
        let value = self.0;
        assert(((value & 0x1f_0000u32) >> 16) == ((value & 0x1f_0000u32) >> 16) & 0x1fu32)
            by (bit_vector);
        (self.0 & MACH_MSGH_BITS_VOUCHER_MASK) >> 16
    }

    #[inline(always)]
    #[verifier::when_used_as_spec(spec_complex)]
    pub fn complex(self) -> (flag: bool)
        ensures
            flag == self.spec_complex(),
    {
        (self.0 & MACH_MSGH_BITS_COMPLEX) == MACH_MSGH_BITS_COMPLEX
    }

    #[inline(always)]
    pub fn into_complex(self) -> (changed: Self)
        ensures
            changed == self.spec_into_complex(),
            changed.spec_remote() == self.spec_remote(),
            changed.spec_local() == self.spec_local(),
            changed.spec_voucher() == self.spec_voucher(),
            changed.spec_complex(),
            self.is_user() ==> changed.is_user(),
    {
        proof {
            self.lemma_into_complex();
        }
        let changed = self.0 | MACH_MSGH_BITS_COMPLEX;
        Self(changed)
    }

    /// The word that `new` makes holds the three dispositions and the flag
    /// that it was made of, and no bit outside the user mask.
    pub proof fn lemma_new(complex: bool, remote: u32, local: u32, voucher: u32)
        requires
            fits_slot(remote),
            fits_slot(local),
            fits_slot(voucher),
        ensures
            MachMsgBits(Self::spec_new(complex, remote, local, voucher)).is_user(),
            MachMsgBits(Self::spec_new(complex, remote, local, voucher)).spec_remote() == remote,
            MachMsgBits(Self::spec_new(complex, remote, local, voucher)).spec_local() == local,
            MachMsgBits(Self::spec_new(complex, remote, local, voucher)).spec_voucher() == voucher,
            MachMsgBits(Self::spec_new(complex, remote, local, voucher)).spec_complex() == complex,
    {
        let port_bits = remote | (local << 8) | (voucher << 16);
        assert(port_bits == port_bits & 0x801f_1f1fu32 && port_bits & 0x1fu32 == remote && (
        port_bits & 0x1f00u32) >> 8 == local && (port_bits & 0x1f_0000u32) >> 16 == voucher
            && port_bits & 0x8000_0000u32 == 0 && (port_bits | 0x8000_0000u32) == (port_bits
            | 0x8000_0000u32) & 0x801f_1f1fu32 && (port_bits | 0x8000_0000u32) & 0x1fu32
            == remote && ((port_bits | 0x8000_0000u32) & 0x1f00u32) >> 8 == local && ((port_bits
            | 0x8000_0000u32) & 0x1f_0000u32) >> 16 == voucher && (port_bits | 0x8000_0000u32)
            & 0x8000_0000u32 == 0x8000_0000u32) by (bit_vector)
            requires
                remote == remote & 0x1fu32,
                local == local & 0x1fu32,
                voucher == voucher & 0x1fu32,
                port_bits == remote | (local << 8) | (voucher << 16),
        ;
    }

    /// Replacing the remote disposition changes nothing else.
    pub proof fn lemma_set_remote(self, bits: u32)
        requires
            fits_slot(bits),
        ensures
            self.spec_set_remote(bits).spec_remote() == bits,
            self.spec_set_remote(bits).spec_local() == self.spec_local(),
            self.spec_set_remote(bits).spec_voucher() == self.spec_voucher(),
            self.spec_set_remote(bits).spec_complex() == self.spec_complex(),
            self.is_user() ==> self.spec_set_remote(bits).is_user(),
    {
        let value = self.0;
        let changed = (value & !MACH_MSGH_BITS_REMOTE_MASK) | bits;
        assert(changed & 0x1fu32 == bits && (changed & 0x1f00u32) >> 8 == (value & 0x1f00u32) >> 8
            && (changed & 0x1f_0000u32) >> 16 == (value & 0x1f_0000u32) >> 16 && changed
            & 0x8000_0000u32 == value & 0x8000_0000u32 && (value == value & 0x801f_1f1fu32
            ==> changed == changed & 0x801f_1f1fu32)) by (bit_vector)
            requires
                bits == bits & 0x1fu32,
                changed == (value & !0x1fu32) | bits,
        ;
    }

    /// Replacing the local disposition changes nothing else.
    pub proof fn lemma_set_local(self, bits: u32)
        requires
            fits_slot(bits),
        ensures
            self.spec_set_local(bits).spec_remote() == self.spec_remote(),
            self.spec_set_local(bits).spec_local() == bits,
            self.spec_set_local(bits).spec_voucher() == self.spec_voucher(),
            self.spec_set_local(bits).spec_complex() == self.spec_complex(),
            self.is_user() ==> self.spec_set_local(bits).is_user(),
    {
        let value = self.0;
        let changed = (value & !MACH_MSGH_BITS_LOCAL_MASK) | (bits << 8);
        assert(changed & 0x1fu32 == value & 0x1fu32 && (changed & 0x1f00u32) >> 8 == bits && (
        changed & 0x1f_0000u32) >> 16 == (value & 0x1f_0000u32) >> 16 && changed
            & 0x8000_0000u32 == value & 0x8000_0000u32 && (value == value & 0x801f_1f1fu32
            ==> changed == changed & 0x801f_1f1fu32)) by (bit_vector)
            requires
                bits == bits & 0x1fu32,
                changed == (value & !0x1f00u32) | (bits << 8),
        ;
    }

    /// Setting the complex flag changes nothing else.
    pub proof fn lemma_into_complex(self)
        ensures
            self.spec_into_complex().spec_remote() == self.spec_remote(),
            self.spec_into_complex().spec_local() == self.spec_local(),
            self.spec_into_complex().spec_voucher() == self.spec_voucher(),
            self.spec_into_complex().spec_complex(),
            self.is_user() ==> self.spec_into_complex().is_user(),
            self.spec_complex() ==> self.spec_into_complex() == self,
    {
        let value = self.0;
        let changed = value | MACH_MSGH_BITS_COMPLEX;
        assert(changed & 0x1fu32 == value & 0x1fu32 && (changed & 0x1f00u32) >> 8 == (value
            & 0x1f00u32) >> 8 && (changed & 0x1f_0000u32) >> 16 == (value & 0x1f_0000u32) >> 16
            && changed & 0x8000_0000u32 == 0x8000_0000u32 && (value == value & 0x801f_1f1fu32
            ==> changed == changed & 0x801f_1f1fu32) && (value & 0x8000_0000u32 == 0x8000_0000u32
            ==> changed == value)) by (bit_vector)
            requires
                changed == value | 0x8000_0000u32,
        ;
    }

    /// The word zero holds no disposition and no flag.
    pub proof fn lemma_zero()
        ensures
            MachMsgBits(0).is_user(),
            MachMsgBits(0).spec_remote() == 0,
            MachMsgBits(0).spec_local() == 0,
            MachMsgBits(0).spec_voucher() == 0,
            !MachMsgBits(0).spec_complex(),
    {
        assert(0u32 == 0u32 & 0x801f_1f1fu32 && 0u32 & 0x1fu32 == 0 && (0u32 & 0x1f00u32) >> 8 == 0
            && (0u32 & 0x1f_0000u32) >> 16 == 0 && 0u32 & 0x8000_0000u32 != 0x8000_0000u32)
            by (bit_vector);
    }

    /// A word with no bit outside the user mask is the one that `new` makes
    /// of its three dispositions and its complex flag.
    pub proof fn lemma_user_bits_are_new(self)
        requires
            self.is_user(),
        ensures
            fits_slot(self.spec_remote()),
            fits_slot(self.spec_local()),
            fits_slot(self.spec_voucher()),
            self.0 == Self::spec_new(
                self.spec_complex(),
                self.spec_remote(),
                self.spec_local(),
                self.spec_voucher(),
            ),
    {
        let value = self.0;
        let r = value & 0x1fu32;
        let l = (value & 0x1f00u32) >> 8;
        let v = (value & 0x1f_0000u32) >> 16;
        assert(r == r & 0x1fu32 && l == l & 0x1fu32 && v == v & 0x1fu32 && ((value
            & 0x8000_0000u32) == 0x8000_0000u32 ==> value == (r | (l << 8) | (v << 16))
            | 0x8000_0000u32) && ((value & 0x8000_0000u32) != 0x8000_0000u32 ==> value == (r | (l
            << 8) | (v << 16)))) by (bit_vector)
            requires
                value == value & 0x801f_1f1fu32,
                r == value & 0x1fu32,
                l == (value & 0x1f00u32) >> 8,
                v == (value & 0x1f_0000u32) >> 16,
        ;
    }
}

} // verus!
