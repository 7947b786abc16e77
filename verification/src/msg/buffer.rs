//! Provides the [`Buffer`] structure used to represent a buffer for Mach messages.
use crate::msg::MachMsgBits;
use vstd::bytes::{
    lemma_auto_spec_u32_to_from_le_bytes, spec_u32_from_le_bytes, spec_u32_to_le_bytes,
    u32_from_le_bytes, u32_to_le_bytes,
};
use vstd::prelude::*;
use vstd::slice::slice_subrange;

verus! {

/// The size in bytes of a message header.
pub const HEADER_SIZE: usize = 24;

/// The size in bytes of the descriptor count that follows the header of a
/// complex message.
pub const COUNT_SIZE: usize = 4;

/// The word that stores a message ID: its two's complement.
pub open spec fn id_word(id: i32) -> u32 {
    if id >= 0 {
        id as u32
    } else {
        (id + 0x1_0000_0000) as u32
    }
}

/// The message ID that a word stores.
pub open spec fn word_id(word: u32) -> i32 {
    if word < 0x8000_0000 {
        word as i32
    } else {
        (word - 0x1_0000_0000) as i32
    }
}

fn id_to_word(id: i32) -> (word: u32)
    ensures
        word == id_word(id),
{
    if id >= 0 {
        id as u32
    } else {
        ((id as i64) + 0x1_0000_0000) as u32
    }
}

fn word_to_id(word: u32) -> (id: i32)
    ensures
        id == word_id(word),
{
    if word < 0x8000_0000 {
        word as i32
    } else {
        ((word as i64) - 0x1_0000_0000) as i32
    }
}

/// The fixed header of a Mach message.
#[derive(Clone, Copy, Debug, PartialEq, Eq, Structural)]
pub struct MachMsgHeader {
    pub msgh_bits: u32,
    pub msgh_size: u32,
    pub msgh_remote_port: u32,
    pub msgh_local_port: u32,
    pub msgh_voucher_port: u32,
    pub msgh_id: i32,
}

impl MachMsgHeader {
    /// The header with every field zero.
    pub open spec fn zero() -> Self {
        MachMsgHeader {
            msgh_bits: 0,
            msgh_size: 0,
            msgh_remote_port: 0,
            msgh_local_port: 0,
            msgh_voucher_port: 0,
            msgh_id: 0,
        }
    }

    /// The twenty-four bytes of the header.
    pub open spec fn bytes(self) -> Seq<u8> {
        spec_u32_to_le_bytes(self.msgh_bits) + spec_u32_to_le_bytes(self.msgh_size)
            + spec_u32_to_le_bytes(self.msgh_remote_port) + spec_u32_to_le_bytes(
            self.msgh_local_port,
        ) + spec_u32_to_le_bytes(self.msgh_voucher_port) + spec_u32_to_le_bytes(
            id_word(self.msgh_id),
        )
    }

    /// The header that the first twenty-four bytes of `s` hold.
    pub open spec fn spec_from_bytes(s: Seq<u8>) -> Self {
        MachMsgHeader {
            msgh_bits: spec_u32_from_le_bytes(s.subrange(0, 4)),
            msgh_size: spec_u32_from_le_bytes(s.subrange(4, 8)),
            msgh_remote_port: spec_u32_from_le_bytes(s.subrange(8, 12)),
            msgh_local_port: spec_u32_from_le_bytes(s.subrange(12, 16)),
            msgh_voucher_port: spec_u32_from_le_bytes(s.subrange(16, 20)),
            msgh_id: word_id(spec_u32_from_le_bytes(s.subrange(20, 24))),
        }
    }

    pub fn to_bytes(&self) -> (bytes: Vec<u8>)
        ensures
            bytes@ == self.bytes(),
            bytes.len() == HEADER_SIZE,
    {
        let mut bytes = u32_to_le_bytes(self.msgh_bits);
        let mut size = u32_to_le_bytes(self.msgh_size);
        let mut remote = u32_to_le_bytes(self.msgh_remote_port);
        let mut local = u32_to_le_bytes(self.msgh_local_port);
        let mut voucher = u32_to_le_bytes(self.msgh_voucher_port);
        let mut id = u32_to_le_bytes(id_to_word(self.msgh_id));
        bytes.append(&mut size);
        bytes.append(&mut remote);
        bytes.append(&mut local);
        bytes.append(&mut voucher);
        bytes.append(&mut id);
        bytes
    }

    pub fn from_bytes(bytes: &[u8]) -> (header: Self)
        requires
            bytes.len() >= HEADER_SIZE,
        ensures
            header == Self::spec_from_bytes(bytes@),
    {
        MachMsgHeader {
            msgh_bits: u32_from_le_bytes(slice_subrange(bytes, 0, 4)),
            msgh_size: u32_from_le_bytes(slice_subrange(bytes, 4, 8)),
            msgh_remote_port: u32_from_le_bytes(slice_subrange(bytes, 8, 12)),
            msgh_local_port: u32_from_le_bytes(slice_subrange(bytes, 12, 16)),
            msgh_voucher_port: u32_from_le_bytes(slice_subrange(bytes, 16, 20)),
            msgh_id: word_to_id(u32_from_le_bytes(slice_subrange(bytes, 20, 24))),
        }
    }

    /// The bytes of a header are twenty-four, and reading them back gives the
    /// header, whatever follows them.
    pub proof fn lemma_bytes(self, rest: Seq<u8>)
        ensures
            self.bytes().len() == HEADER_SIZE,
            Self::spec_from_bytes(self.bytes() + rest) == self,
    {
        lemma_auto_spec_u32_to_from_le_bytes();
        let s = self.bytes() + rest;
        assert(s.subrange(0, 4) =~= spec_u32_to_le_bytes(self.msgh_bits));
        assert(s.subrange(4, 8) =~= spec_u32_to_le_bytes(self.msgh_size));
        assert(s.subrange(8, 12) =~= spec_u32_to_le_bytes(self.msgh_remote_port));
        assert(s.subrange(12, 16) =~= spec_u32_to_le_bytes(self.msgh_local_port));
        assert(s.subrange(16, 20) =~= spec_u32_to_le_bytes(self.msgh_voucher_port));
        assert(s.subrange(20, 24) =~= spec_u32_to_le_bytes(id_word(self.msgh_id)));
        assert(word_id(id_word(self.msgh_id)) == self.msgh_id);
    }
}

impl Default for MachMsgHeader {
    fn default() -> (header: Self)
        ensures
            header == Self::zero(),
    {
        MachMsgHeader {
            msgh_bits: 0,
            msgh_size: 0,
            msgh_remote_port: 0,
            msgh_local_port: 0,
            msgh_voucher_port: 0,
            msgh_id: 0,
        }
    }
}

/// What a [`Buffer`] holds: the header, the bytes of the body, and the number
/// of body bytes that its storage has room for.
pub struct BufferView {
    pub header: MachMsgHeader,
    pub body: Seq<u8>,
    pub capacity: nat,
}

impl BufferView {
    /// The body fits in the capacity, and the capacity in 32 bits.
    pub open spec fn wf(self) -> bool {
        self.body.len() <= self.capacity <= u32::MAX
    }
}

/// The first `len` bytes of `body`, with zeros where `body` has none.
pub open spec fn resized(body: Seq<u8>, len: nat) -> Seq<u8> {
    Seq::new(
        len,
        |i: int|
            if i < body.len() {
                body[i]
            } else {
                0u8
            },
    )
}

/// The capacity of a buffer after it has made room for `additional` bytes
/// behind the `len` that it holds: unchanged where they fit, else grown by
/// half of itself or by `additional`, whichever is more.
pub open spec fn grown_capacity(capacity: nat, len: nat, additional: nat) -> nat {
    if len + additional <= capacity {
        capacity
    } else if capacity / 2 >= additional {
        capacity / 2 + capacity
    } else {
        additional + capacity
    }
}

/// The bytes of `body` with `bytes` put in at offset `at`.
pub open spec fn inserted(body: Seq<u8>, at: int, bytes: Seq<u8>) -> Seq<u8> {
    body.subrange(0, at) + bytes + body.subrange(at, body.len() as int)
}

/// Inserting `bytes` at `at` leaves what stood before `at` where it was,
/// puts `bytes` at `at`, and moves what stood at `at` or behind it forward by
/// the length of `bytes`.
pub proof fn lemma_inserted(body: Seq<u8>, at: int, bytes: Seq<u8>)
    requires
        0 <= at <= body.len(),
    ensures
        inserted(body, at, bytes).len() == body.len() + bytes.len(),
        forall|i: int| 0 <= i < at ==> #[trigger] inserted(body, at, bytes)[i] == body[i],
        forall|i: int|
            at <= i < at + bytes.len() ==> #[trigger] inserted(body, at, bytes)[i] == bytes[i
                - at],
        forall|i: int|
            at <= i < body.len() ==> inserted(body, at, bytes)[i + bytes.len()] == #[trigger] body[i],
{
}

/// A reusable buffer for Mach messages.
///
/// This structure isn't designed to be aware of the Mach message format and exists to allow reusing
/// memory when communicating using Mach messages.
#[derive(Debug)]
pub struct Buffer {
    header: MachMsgHeader,
    body: Vec<u8>,
    capacity: u32,
}

impl View for Buffer {
    type V = BufferView;

    closed spec fn view(&self) -> BufferView {
        BufferView { header: self.header, body: self.body@, capacity: self.capacity as nat }
    }
}

impl Buffer {
    /// The body fits in the capacity, and the capacity in 32 bits.
    pub open spec fn wf(&self) -> bool {
        self@.wf()
    }

    /// The buffer can make room for `additional` bytes more: neither the
    /// length asked for nor the grown capacity passes 32 bits.
    pub open spec fn can_reserve(&self, additional: nat) -> bool {
        &&& self@.body.len() + additional <= u32::MAX
        &&& grown_capacity(self@.capacity, self@.body.len(), additional) <= u32::MAX
    }

    /// Whether the buffer can make room for `additional` bytes more.
    pub fn check_reserve(&self, additional: usize) -> (can: bool)
        requires
            self.wf(),
        ensures
            can == self.can_reserve(additional as nat),
    {
        let len = self.body.len() as u64;
        let capacity = self.capacity as u64;
        let limit = u32::MAX as u64;
        if additional as u64 > limit {
            return false;
        }
        let additional = additional as u64;
        if len + additional > limit {
            false
        } else if len + additional <= capacity {
            true
        } else if capacity / 2 >= additional {
            capacity / 2 <= limit - capacity
        } else {
            additional <= limit - capacity
        }
    }

    /// Creates a new message buffer with the specified inline capacity. The capacity should not
    /// include the header's size as it is added automatically.
    pub fn with_capacity(capacity: usize) -> (buffer: Self)
        requires
            capacity <= u32::MAX,
        ensures
            buffer.wf(),
            buffer@ == (BufferView {
                header: MachMsgHeader::zero(),
                body: Seq::empty(),
                capacity: capacity as nat,
            }),
    {
        Self { header: MachMsgHeader::default(), body: Vec::with_capacity(capacity), capacity: capacity as u32 }
    }

    /// Returns the capacity of the inline data that fits into the buffer.
    pub fn capacity(&self) -> (capacity: usize)
        ensures
            capacity == self@.capacity,
    {
        self.capacity as usize
    }

    pub fn header(&self) -> (header: &MachMsgHeader)
        ensures
            *header == self@.header,
    {
        &self.header
    }

    pub fn header_mut(&mut self) -> (header: &mut MachMsgHeader)
        ensures
            *header == old(self)@.header,
            final(self)@ == (BufferView { header: *final(header), ..old(self)@ }),
    {
        &mut self.header
    }

    pub fn body(&self) -> (body: &[u8])
        ensures
            body@ == self@.body,
    {
        self.body.as_slice()
    }

    pub fn body_mut(&mut self) -> (body: &mut [u8])
        ensures
            body@ == old(self)@.body,
            final(self)@ == (BufferView { body: final(body)@, ..old(self)@ }),
    {
        self.body.as_mut_slice()
    }

    #[inline(always)]
    pub fn header_bits(&self) -> (bits: MachMsgBits)
        requires
            MachMsgBits(self@.header.msgh_bits).is_user(),
        ensures
            bits.0 == self@.header.msgh_bits,
    {
        MachMsgBits::from_bits(self.header.msgh_bits)
    }

    /// The descriptor count that a body announces under header bits: the
    /// number in its first four bytes where the complex flag is set, else 0.
    pub open spec fn spec_descriptors_count(bits: u32, body: Seq<u8>) -> u32 {
        if MachMsgBits(bits).spec_complex() {
            spec_u32_from_le_bytes(body.subrange(0, COUNT_SIZE as int))
        } else {
            0
        }
    }

    pub fn descriptors_count(&self) -> (count: u32)
        requires
            MachMsgBits(self@.header.msgh_bits).is_user(),
            MachMsgBits(self@.header.msgh_bits).spec_complex() ==> self@.body.len() >= COUNT_SIZE,
        ensures
            count == Self::spec_descriptors_count(self@.header.msgh_bits, self@.body),
    {
        if self.header_bits().complex() {
            u32_from_le_bytes(slice_subrange(self.body(), 0, COUNT_SIZE))
        } else {
            0
        }
    }

    /// Returns the contents of the buffer as a byte vector: the header, then
    /// the body.
    pub fn as_slice(&self) -> (bytes: Vec<u8>)
        ensures
            bytes@ == self@.header.bytes() + self@.body,
    {
        let mut bytes = self.header.to_bytes();
        bytes.extend_from_slice(self.body.as_slice());
        bytes
    }

    /// Stores a whole message: the header from the first twenty-four bytes,
    /// and the rest as the body.
    pub fn store(&mut self, message: &[u8])
        requires
            old(self).wf(),
            message.len() >= HEADER_SIZE,
            message.len() - HEADER_SIZE <= old(self)@.capacity,
        ensures
            final(self).wf(),
            final(self)@ == (BufferView {
                header: MachMsgHeader::spec_from_bytes(message@),
                body: message@.subrange(HEADER_SIZE as int, message.len() as int),
                capacity: old(self)@.capacity,
            }),
    {
        self.header = MachMsgHeader::from_bytes(message);
        self.body.clear();
        self.body.extend_from_slice(slice_subrange(message, HEADER_SIZE, message.len()));
        assert(self@.body =~= message@.subrange(HEADER_SIZE as int, message.len() as int));
    }

    /// Reserves memory for the specified amount of additional bytes.
    pub fn reserve(&mut self, additional: u32)
        requires
            old(self).wf(),
            old(self).can_reserve(additional as nat),
        ensures
            final(self).wf(),
            final(self)@ == (BufferView {
                capacity: grown_capacity(
                    old(self)@.capacity,
                    old(self)@.body.len(),
                    additional as nat,
                ),
                ..old(self)@
            }),
            final(self)@.body.len() + additional <= final(self)@.capacity,
    {
        let len = self.body.len() as u32;
        let requested_capacity = len + additional;
        let old_capacity = self.capacity;
        if requested_capacity > old_capacity {
            let half = old_capacity / 2;
            let new_capacity = if half >= additional {
                half + old_capacity
            } else {
                additional + old_capacity
            };
            self.body.reserve((new_capacity - len) as usize);
            self.capacity = new_capacity;
        }
    }

    /// Appends bytes at the end of the buffer.
    pub fn append(&mut self, bytes: &[u8])
        requires
            old(self).wf(),
            old(self).can_reserve(bytes@.len()),
        ensures
            final(self).wf(),
            final(self)@ == (BufferView {
                body: old(self)@.body + bytes@,
                capacity: grown_capacity(old(self)@.capacity, old(self)@.body.len(), bytes@.len()),
                ..old(self)@
            }),
    {
        let appended_len = bytes.len() as u32;
        let space_left = self.capacity - self.body.len() as u32;
        if space_left < appended_len {
            self.reserve(appended_len);
        }
        self.body.extend_from_slice(bytes);
        assert(self@.body =~= old(self)@.body + bytes@);
    }

    /// Inserts bytes at the specified offset into the inline part of the buffer (that means the
    /// offset is calculated from the end of the header).
    pub fn insert(&mut self, at: u32, bytes: &[u8])
        requires
            old(self).wf(),
            at <= old(self)@.body.len(),
            old(self).can_reserve(bytes@.len()),
        ensures
            final(self).wf(),
            final(self)@ == (BufferView {
                body: inserted(old(self)@.body, at as int, bytes@),
                capacity: grown_capacity(old(self)@.capacity, old(self)@.body.len(), bytes@.len()),
                ..old(self)@
            }),
    {
        let inserted_len = bytes.len() as u32;
        let space_left = self.capacity - self.body.len() as u32;
        if space_left < inserted_len {
            self.reserve(inserted_len);
        }
        let mut moved = self.body.split_off(at as usize);
        self.body.extend_from_slice(bytes);
        self.body.append(&mut moved);
        assert(self@.body =~= inserted(old(self)@.body, at as int, bytes@));
    }

    /// Sets a new length for the buffer: bytes behind it are dropped, and
    /// bytes that it adds are zero.
    pub fn set_len(&mut self, new_len: u32)
        requires
            old(self).wf(),
            new_len <= old(self)@.capacity,
        ensures
            final(self).wf(),
            final(self)@ == (BufferView {
                body: resized(old(self)@.body, new_len as nat),
                ..old(self)@
            }),
    {
        self.body.truncate(new_len as usize);
        while self.body.len() < new_len as usize
            invariant
                self.header == old(self).header,
                self.capacity == old(self).capacity,
                self.body.len() <= new_len,
                self.body.len() >= old(self)@.body.len() || self.body.len() == new_len,
                self.body@ =~= resized(old(self)@.body, self.body.len() as nat),
            decreases new_len - self.body.len(),
        {
            self.body.push(0);
        }
    }

    /// A message stored from the bytes that `as_slice` gave is the message
    /// that the buffer held.
    pub proof fn lemma_store_as_slice(view: BufferView)
        ensures
            MachMsgHeader::spec_from_bytes(view.header.bytes() + view.body) == view.header,
            (view.header.bytes() + view.body).subrange(
                HEADER_SIZE as int,
                (view.header.bytes() + view.body).len() as int,
            ) == view.body,
    {
        view.header.lemma_bytes(view.body);
        assert((view.header.bytes() + view.body).subrange(
            HEADER_SIZE as int,
            (view.header.bytes() + view.body).len() as int,
        ) =~= view.body);
    }
}

} // verus!
