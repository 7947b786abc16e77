//! Provides definitions of types [`OolBuf`] and [`OolVec`] which should be used to handle OOL data
//! in Mach messages.
//!
//! A buffer here names a region of virtual memory by its address and its size.
//! The bytes of the region belong to the caller, who lends them as a slice to
//! the operations that read or write them.
use crate::abi::{KERN_SUCCESS, VM_FLAGS_ANYWHERE, VM_PROT_READ, VM_PROT_WRITE};
use crate::kernel::{VmAllocate, VmDeallocate};
use crate::text::{decimal, decimal_string, push_str};
use vstd::arithmetic::div_mod::{
    lemma_fundamental_div_mod, lemma_mod_bound, lemma_mod_multiples_basic, lemma_small_mod,
};
use vstd::prelude::*;

verus! {

/// The address of a buffer without memory: not null, and never read.
pub const DANGLING: u64 = 1;

/// The largest page size that the arithmetic of this module accepts.
pub const MAX_PAGE_SIZE: u64 = 0x4000_0000_0000_0000;

/// `value` rounded up to a multiple of `alignment`.
pub open spec fn spec_align_up(value: int, alignment: int) -> int {
    value + (alignment - value % alignment) % alignment
}

/// `spec_align_up` gives a multiple of the alignment that is not below the
/// value and less than one alignment above it.
pub proof fn lemma_align_up(value: int, alignment: int)
    requires
        value >= 0,
        alignment > 0,
    ensures
        spec_align_up(value, alignment) % alignment == 0,
        value <= spec_align_up(value, alignment) < value + alignment,
{
    let rem = value % alignment;
    let up = spec_align_up(value, alignment);
    lemma_mod_bound(value, alignment);
    lemma_fundamental_div_mod(value, alignment);
    let quot = value / alignment;
    if rem == 0 {
        lemma_mod_multiples_basic(1, alignment);
        assert((alignment - rem) % alignment == 0);
        assert(up == value);
    } else {
        lemma_small_mod((alignment - rem) as nat, alignment as nat);
        assert(up == alignment * quot + alignment);
        assert(up == (quot + 1) * alignment) by (nonlinear_arith)
            requires
                up == alignment * quot + alignment,
        ;
        lemma_mod_multiples_basic(quot + 1, alignment);
    }
}

/// Two multiples of an alignment, one below the other, lie at least one
/// alignment apart.
pub proof fn lemma_multiples_apart(low: int, high: int, alignment: int)
    requires
        alignment > 0,
        low % alignment == 0,
        high % alignment == 0,
        low < high,
    ensures
        low + alignment <= high,
{
    lemma_fundamental_div_mod(low, alignment);
    lemma_fundamental_div_mod(high, alignment);
    let l = low / alignment;
    let h = high / alignment;
    assert(l < h) by (nonlinear_arith)
        requires
            alignment * l < alignment * h,
            alignment > 0,
    ;
    assert(alignment * l + alignment <= alignment * h) by (nonlinear_arith)
        requires
            l + 1 <= h,
            alignment > 0,
    ;
}

/// Rounds `value` up to a multiple of `alignment`.
#[inline(always)]
pub fn align_up(value: u64, alignment: u64) -> (aligned: u64)
    requires
        alignment > 0,
        value + alignment <= u64::MAX,
    ensures
        aligned == spec_align_up(value as int, alignment as int),
        aligned % alignment == 0,
        value <= aligned < value + alignment,
{
    proof {
        lemma_align_up(value as int, alignment as int);
        lemma_mod_bound(value as int, alignment as int);
        lemma_mod_bound((alignment - value % alignment) as int, alignment as int);
    }
    value + (alignment - value % alignment) % alignment
}

/// `n` has exactly one bit set.
pub open spec fn is_power_of_two(n: u64) -> bool {
    n != 0 && n & ((n - 1) as u64) == 0
}

/// A page size that a buffer can be shrunk by: a power of two that leaves
/// room for the rounding.
pub open spec fn valid_page_size(page_size: usize) -> bool {
    is_power_of_two(page_size as u64) && page_size <= MAX_PAGE_SIZE
}

/// What the running system reports as the granularity of its memory
/// allocations, by `page_size::get_granularity`. Nothing is known of the number.
#[verifier::external_body]
fn system_granularity() -> (granularity: usize) {
    page_size::get_granularity()
}

/// The granularity of memory allocations on the running system, where it is a
/// page size that a buffer can be shrunk by.
pub fn page_granularity() -> (granularity: Option<usize>)
    ensures
        granularity matches Some(page_size) ==> valid_page_size(page_size),
{
    let granularity = system_granularity();
    check_page_size(granularity)
}

/// `Some(page_size)` where a buffer can be shrunk by this page size.
pub fn check_page_size(page_size: usize) -> (checked: Option<usize>)
    ensures
        checked == if valid_page_size(page_size) {
            Some(page_size)
        } else {
            None
        },
{
    let n = page_size as u64;
    if n != 0 && n & (n - 1) == 0 && n <= MAX_PAGE_SIZE {
        Some(page_size)
    } else {
        None
    }
}

/// A region of virtual memory: where it starts and how many bytes it has.
#[derive(Debug)]
pub struct VmBuf {
    address: u64,
    capacity: usize,
}

/// What a [`VmBuf`] holds.
pub struct VmBufView {
    pub address: u64,
    pub capacity: usize,
}

/// The capacity of a buffer rounded up to where its last page ends: the
/// distance from `address` to the first page boundary that is not below
/// `address + capacity`.
pub open spec fn aligned_capacity(address: u64, capacity: usize, page_size: usize) -> int {
    let offset_in_page = address as int % page_size as int;
    spec_align_up(capacity + offset_in_page, page_size as int) - offset_in_page
}

impl View for VmBuf {
    type V = VmBufView;

    closed spec fn view(&self) -> VmBufView {
        VmBufView { address: self.address, capacity: self.capacity }
    }
}

impl VmBuf {
    /// The address is not null.
    pub open spec fn wf(&self) -> bool {
        self@.address != 0
    }

    /// The buffer is small enough and low enough in the address space for
    /// the rounding to a page size.
    pub open spec fn can_shrink(&self, page_size: usize) -> bool {
        &&& valid_page_size(page_size)
        &&& self@.capacity <= i64::MAX
        &&& self@.address + self@.capacity <= u64::MAX
    }

    /// The call that allocates the memory of a new `VmBuf` of the specified
    /// size, or none for a buffer without memory.
    #[inline(always)]
    pub fn allocate_call(capacity: usize) -> (call: Option<VmAllocate>)
        requires
            capacity <= isize::MAX,
        ensures
            call == if capacity > 0 {
                Some(
                    VmAllocate {
                        size: capacity as u64,
                        flags: VM_PROT_READ | VM_PROT_WRITE | VM_FLAGS_ANYWHERE,
                    },
                )
            } else {
                None
            },
    {
        if capacity > 0 {
            Some(
                VmAllocate {
                    size: capacity as u64,
                    flags: VM_PROT_READ | VM_PROT_WRITE | VM_FLAGS_ANYWHERE,
                },
            )
        } else {
            None
        }
    }

    /// The new `VmBuf` of the specified size, once the kernel has answered
    /// [`VmBuf::allocate_call`] with `result` and `address`. For a buffer
    /// without memory there was no call, and both are ignored.
    #[inline(always)]
    pub fn allocate(capacity: usize, result: i32, address: u64) -> (buf: Self)
        requires
            capacity <= isize::MAX,
            capacity > 0 ==> result == KERN_SUCCESS && address != 0,
        ensures
            buf.wf(),
            buf@ == (VmBufView {
                address: if capacity > 0 {
                    address
                } else {
                    DANGLING
                },
                capacity,
            }),
    {
        let address = if capacity > 0 {
            address
        } else {
            DANGLING
        };
        Self { address, capacity }
    }

    /// Creates a new `VmBuf` from an address and a capacity value.
    #[inline]
    pub fn from_raw_parts(address: u64, capacity: usize) -> (buf: Self)
        requires
            address != 0,
        ensures
            buf.wf(),
            buf@ == (VmBufView { address, capacity }),
    {
        Self { address, capacity }
    }

    /// Returns the address of the buffer represented by the `VmBuf`.
    #[inline]
    pub fn as_ptr(&self) -> (address: u64)
        ensures
            address == self@.address,
    {
        self.address
    }

    /// Returns the capacity of the buffer represented by the `VmBuf`.
    ///
    /// The actual capacity may be larger as it isn't rounded to the virtual memory page size.
    #[inline]
    pub fn capacity(&self) -> (capacity: usize)
        ensures
            capacity == self@.capacity,
    {
        self.capacity
    }

    /// Whether the buffer can be shrunk by the page size given.
    pub fn check_shrink(&self, page_size: usize) -> (can: bool)
        ensures
            can == self.can_shrink(page_size),
    {
        check_page_size(page_size).is_some() && self.capacity as u64 <= i64::MAX as u64
            && self.capacity as u64 <= u64::MAX - self.address
    }

    /// Lowers the capacity to `target_capacity` and returns the call that
    /// unmaps the pages that the buffer no longer reaches, if there is one.
    /// A buffer that keeps no page has the dangling address.
    pub fn shrink_to(&mut self, target_capacity: usize, page_size: usize) -> (call: Option<
        VmDeallocate,
    >)
        requires
            old(self).wf(),
            old(self).can_shrink(page_size),
            target_capacity <= old(self)@.capacity,
        ensures
            final(self).wf(),
            final(self)@.capacity == target_capacity,
            ({
                let address = old(self)@.address;
                let capacity = old(self)@.capacity;
                let aligned = aligned_capacity(address, capacity, page_size);
                let aligned_target = aligned_capacity(address, target_capacity, page_size);
                if aligned_target < aligned {
                    &&& 0 <= aligned_target < capacity
                    &&& call == Some(
                        VmDeallocate {
                            address: (address + aligned_target) as u64,
                            size: (capacity - aligned_target) as u64,
                        },
                    )
                    &&& final(self)@.address == if aligned_target == 0 {
                        DANGLING
                    } else {
                        address
                    }
                } else {
                    &&& call.is_none()
                    &&& final(self)@.address == address
                }
            }),
    {
        let cur_capacity = self.capacity as u64;
        let page = page_size as u64;
        let offset_in_page = self.address % page;
        proof {
            lemma_mod_bound(self.address as int, page as int);
        }
        let aligned_capacity = align_up(cur_capacity + offset_in_page, page) - offset_in_page;
        let aligned_target_capacity = align_up(target_capacity as u64 + offset_in_page, page)
            - offset_in_page;
        let mut call = None;
        if aligned_target_capacity < aligned_capacity {
            proof {
                lemma_multiples_apart(
                    (aligned_target_capacity + offset_in_page) as int,
                    (aligned_capacity + offset_in_page) as int,
                    page as int,
                );
            }
            let size = cur_capacity - aligned_target_capacity;
            let address = self.address + aligned_target_capacity;
            call = Some(VmDeallocate { address, size });
            if aligned_target_capacity == 0 {
                self.address = DANGLING;
            }
        }
        self.capacity = target_capacity;
        call
    }

    /// The call that unmaps the memory of the buffer, which whoever gives the
    /// buffer up owes: none for a buffer without memory.
    pub fn dealloc(self) -> (call: Option<VmDeallocate>)
        ensures
            call == if self@.capacity > 0 {
                Some(VmDeallocate { address: self@.address, size: self@.capacity as u64 })
            } else {
                None
            },
    {
        if self.capacity > 0 {
            Some(VmDeallocate { address: self.address, size: self.capacity as u64 })
        } else {
            None
        }
    }
}

impl Default for VmBuf {
    fn default() -> (buf: Self)
        ensures
            buf.wf(),
            buf@ == (VmBufView { address: DANGLING, capacity: 0 }),
    {
        Self { address: DANGLING, capacity: 0 }
    }
}

/// A byte buffer backed by the Mach VM allocator.
///
/// It's intended to be used to represent out-of-line data buffers received in Mach messages.
#[derive(Debug)]
pub struct OolBuf(VmBuf);

impl View for OolBuf {
    type V = VmBufView;

    closed spec fn view(&self) -> VmBufView {
        self.0@
    }
}

impl OolBuf {
    /// The address is not null.
    pub open spec fn wf(&self) -> bool {
        self@.address != 0
    }

    /// Constructs an [`OolBuf`] from an address and a length, which the
    /// caller knows to be those of a buffer allocated using the Mach VM API.
    pub fn from_raw_parts(address: u64, length: usize) -> (buf: Self)
        requires
            address != 0,
        ensures
            buf.wf(),
            buf == Self::spec_from_raw_parts(address, length),
            buf@ == (VmBufView { address, capacity: length }),
    {
        Self(VmBuf::from_raw_parts(address, length))
    }

    /// The buffer of the address and the length given.
    pub closed spec fn spec_from_raw_parts(address: u64, length: usize) -> Self {
        OolBuf(VmBuf { address, capacity: length })
    }

    /// The buffer of an address and a length has them.
    pub proof fn lemma_from_raw_parts(address: u64, length: usize)
        ensures
            Self::spec_from_raw_parts(address, length)@ == (VmBufView {
                address,
                capacity: length,
            }),
    {
    }

    /// The address and the length of the buffer, which is given up without
    /// a call to the kernel: the memory stays mapped.
    pub fn into_raw_parts(self) -> (parts: (u64, usize))
        requires
            self.wf(),
        ensures
            parts == (self@.address, self@.capacity),
            parts.0 != 0,
    {
        (self.0.as_ptr(), self.0.capacity())
    }

    /// Returns the address of the buffer, or the dangling address if the
    /// buffer's capacity is zero.
    pub fn as_ptr(&self) -> (address: u64)
        ensures
            address == self@.address,
    {
        self.0.as_ptr()
    }

    /// Extracts the slice with the contents of the buffer, where `region`
    /// is its memory: all of it.
    #[inline]
    pub fn as_slice<'a>(&self, region: &'a [u8]) -> (slice: &'a [u8])
        requires
            region.len() == self@.capacity,
        ensures
            slice@ == region@,
    {
        region
    }

    /// Extracts a mutable slice with the contents of the buffer, where
    /// `region` is its memory: all of it.
    #[inline]
    pub fn as_slice_mut<'a>(&self, region: &'a mut [u8]) -> (slice: &'a mut [u8])
        requires
            old(region).len() == self@.capacity,
        ensures
            slice@ == old(region)@,
            final(region)@ == final(slice)@,
    {
        region
    }

    /// Returns the length of the buffer in bytes.
    #[inline]
    pub fn len(&self) -> (length: usize)
        ensures
            length == self@.capacity,
    {
        self.0.capacity()
    }

    /// Returns `true` if the buffer is empty.
    #[inline]
    pub fn is_empty(&self) -> (empty: bool)
        ensures
            empty == (self@.capacity == 0),
    {
        self.len() == 0
    }

    /// Converts an [`OolBuf`] into an [`OolVec`] that is full.
    pub fn into_vec(self) -> (vec: OolVec)
        requires
            self.wf(),
        ensures
            vec.wf(),
            vec@ == (OolVecView {
                address: self@.address,
                capacity: self@.capacity,
                len: self@.capacity,
            }),
    {
        let len = self.len();
        OolVec { buf: self.0, len }
    }

    /// The call that unmaps the memory of the buffer, which whoever gives the
    /// buffer up owes: none for a buffer without memory.
    pub fn dealloc(self) -> (call: Option<VmDeallocate>)
        ensures
            call == if self@.capacity > 0 {
                Some(VmDeallocate { address: self@.address, size: self@.capacity as u64 })
            } else {
                None
            },
    {
        self.0.dealloc()
    }
}

impl Default for OolBuf {
    fn default() -> (buf: Self)
        ensures
            buf.wf(),
            buf@ == (VmBufView { address: DANGLING, capacity: 0 }),
    {
        OolBuf(VmBuf::default())
    }
}

/// An error returned when an [`OolVec`] doesn't have enough capacity.
#[derive(Copy, Clone, Eq, PartialEq, Debug, Structural)]
#[non_exhaustive]
pub struct NotEnoughCapacity {
    /// The capacity that was expected to be available by an extension operation.
    pub required_capacity: usize,
    /// The actual capacity currently available in the OOL buffer.
    pub available_capacity: usize,
}

impl NotEnoughCapacity {
    /// The error in words.
    pub open spec fn spec_to_string(self) -> Seq<char> {
        "could not extend OOL buffer with "@ + decimal(self.required_capacity as nat)
            + " bytes as the available capacity is "@ + decimal(self.available_capacity as nat)
    }

    /// The error in words.
    pub fn to_string(&self) -> (text: String)
        ensures
            text@ == self.spec_to_string(),
    {
        let mut text = String::new();
        let required = decimal_string(self.required_capacity);
        let available = decimal_string(self.available_capacity);
        push_str(&mut text, "could not extend OOL buffer with ");
        push_str(&mut text, required.as_str());
        push_str(&mut text, " bytes as the available capacity is ");
        push_str(&mut text, available.as_str());
        assert(text@ =~= self.spec_to_string());
        text
    }
}

/// What an [`OolVec`] holds, but for the bytes of its memory.
pub struct OolVecView {
    pub address: u64,
    pub capacity: usize,
    pub len: usize,
}

/// A vector of bytes backed by the Mach VM allocator.
///
/// This is intended to be used to handle out-of-line data in Mach messages.
///
/// The vector knows where its memory is, how large it is and how many bytes
/// of it are in use. The operations that touch the bytes take the memory as
/// a slice `region` of the vector's capacity. What the vector holds is then
/// the start of the region, up to the vector's length.
///
/// # Resizing the vector
/// Currently the capacity of the vector can only be decreased.
#[derive(Debug)]
pub struct OolVec {
    buf: VmBuf,
    len: usize,
}

impl View for OolVec {
    type V = OolVecView;

    closed spec fn view(&self) -> OolVecView {
        OolVecView { address: self.buf@.address, capacity: self.buf@.capacity, len: self.len }
    }
}

impl OolVec {
    /// The address is not null, and the length is within the capacity.
    pub open spec fn wf(&self) -> bool {
        self@.address != 0 && self@.len <= self@.capacity
    }

    /// The bytes that the vector holds, where `region` is its memory.
    pub open spec fn contents(&self, region: Seq<u8>) -> Seq<u8> {
        region.subrange(0, self@.len as int)
    }

    /// The new vector with the specified capacity, once the kernel has
    /// answered [`VmBuf::allocate_call`] with `result` and `address`. For a
    /// vector without memory there was no call, and both are ignored.
    #[inline(always)]
    pub fn with_capacity(capacity: usize, result: i32, address: u64) -> (vec: Self)
        requires
            capacity <= isize::MAX,
            capacity > 0 ==> result == KERN_SUCCESS && address != 0,
        ensures
            vec.wf(),
            vec@ == (OolVecView {
                address: if capacity > 0 {
                    address
                } else {
                    DANGLING
                },
                capacity,
                len: 0,
            }),
    {
        Self { buf: VmBuf::allocate(capacity, result, address), len: 0 }
    }

    /// Creates an [`OolVec`] from an address, a length and a capacity, which
    /// the caller knows to be those of a memory region allocated using the
    /// Mach VM API.
    pub fn from_raw_parts(address: u64, length: usize, capacity: usize) -> (vec: Self)
        requires
            address != 0,
            length <= capacity,
        ensures
            vec.wf(),
            vec@ == (OolVecView { address, capacity, len: length }),
    {
        Self { buf: VmBuf::from_raw_parts(address, capacity), len: length }
    }

    /// Returns the address of the buffer, or the dangling address if the
    /// buffer's capacity is zero.
    pub fn as_ptr(&self) -> (address: u64)
        ensures
            address == self@.address,
    {
        self.buf.as_ptr()
    }

    /// Extracts the slice with the contents of the buffer.
    #[inline]
    pub fn as_slice<'a>(&self, region: &'a [u8]) -> (slice: &'a [u8])
        requires
            self.wf(),
            region.len() == self@.capacity,
        ensures
            slice@ == self.contents(region@),
    {
        vstd::slice::slice_subrange(region, 0, self.len)
    }

    /// Extracts a mutable slice with the contents of the buffer.
    #[inline]
    pub fn as_slice_mut<'a>(&self, region: &'a mut [u8]) -> (slice: &'a mut [u8])
        requires
            self.wf(),
            old(region).len() == self@.capacity,
        ensures
            slice@ == self.contents(old(region)@),
            final(region)@ == final(slice)@ + old(region)@.subrange(
                self@.len as int,
                self@.capacity as int,
            ),
    {
        let (contents, _) = region.split_at_mut(self.len);
        contents
    }

    /// Returns the length of the buffer's contents in bytes.
    #[inline]
    pub fn len(&self) -> (len: usize)
        ensures
            len == self@.len,
    {
        self.len
    }

    /// Returns the capacity of the buffer in bytes.
    #[inline]
    pub fn capacity(&self) -> (capacity: usize)
        ensures
            capacity == self@.capacity,
    {
        self.buf.capacity()
    }

    /// Returns `true` if the buffer is empty.
    #[inline]
    pub fn is_empty(&self) -> (empty: bool)
        ensures
            empty == (self@.len == 0),
    {
        self.len == 0
    }

    /// Sets the new length of the buffer in bytes, which is less than the
    /// buffer's capacity.
    #[inline]
    pub fn set_len(&mut self, new_len: usize)
        requires
            old(self).wf(),
            new_len < old(self)@.capacity,
        ensures
            final(self).wf(),
            final(self)@ == (OolVecView { len: new_len, ..old(self)@ }),
    {
        self.len = new_len;
    }

    /// Tries to extend the vector with bytes from a byte slice.
    pub fn try_extend_from_slice(&mut self, region: &mut [u8], slice: &[u8]) -> (result: Result<
        (),
        NotEnoughCapacity,
    >)
        requires
            old(self).wf(),
            old(region).len() == old(self)@.capacity,
        ensures
            final(self).wf(),
            final(region).len() == old(region).len(),
            match result {
                Ok(()) => {
                    &&& slice.len() <= old(self)@.capacity - old(self)@.len
                    &&& final(self)@ == (OolVecView {
                        len: (old(self)@.len + slice.len()) as usize,
                        ..old(self)@
                    })
                    &&& final(self).contents(final(region)@) == old(self).contents(old(region)@)
                        + slice@
                    &&& forall|i: int|
                        final(self)@.len <= i < final(region).len() ==> final(region)@[i] == old(
                            region,
                        )@[i]
                },
                Err(error) => {
                    &&& slice.len() > old(self)@.capacity - old(self)@.len
                    &&& error == (NotEnoughCapacity {
                        required_capacity: slice.len(),
                        available_capacity: (old(self)@.capacity - old(self)@.len) as usize,
                    })
                    &&& final(self)@ == old(self)@
                    &&& final(region)@ == old(region)@
                },
            },
    {
        let available_capacity = self.capacity() - self.len;
        if slice.len() <= available_capacity {
            let start = self.len;
            let mut i: usize = 0;
            while i < slice.len()
                invariant
                    i <= slice.len(),
                    start + slice.len() <= region.len(),
                    region.len() == old(region).len(),
                    forall|j: int| 0 <= j < start ==> region@[j] == old(region)@[j],
                    forall|j: int| 0 <= j < i ==> region@[start + j] == slice@[j],
                    forall|j: int| start + i <= j < region.len() ==> region@[j] == old(region)@[j],
                decreases slice.len() - i,
            {
                region[start + i] = slice[i];
                i += 1;
            }
            self.len += slice.len();
            assert(self.contents(region@) =~= old(self).contents(old(region)@) + slice@);
            Ok(())
        } else {
            Err(NotEnoughCapacity { required_capacity: slice.len(), available_capacity })
        }
    }

    /// Tries to push a byte to the end of the vector.
    pub fn try_push(&mut self, region: &mut [u8], value: u8) -> (result: Result<
        (),
        NotEnoughCapacity,
    >)
        requires
            old(self).wf(),
            old(region).len() == old(self)@.capacity,
        ensures
            final(self).wf(),
            final(region).len() == old(region).len(),
            match result {
                Ok(()) => {
                    &&& old(self)@.len < old(self)@.capacity
                    &&& final(self)@ == (OolVecView {
                        len: (old(self)@.len + 1) as usize,
                        ..old(self)@
                    })
                    &&& final(region)@ == old(region)@.update(old(self)@.len as int, value)
                },
                Err(error) => {
                    &&& old(self)@.len == old(self)@.capacity
                    &&& error == (NotEnoughCapacity {
                        required_capacity: 1,
                        available_capacity: 0,
                    })
                    &&& final(self)@ == old(self)@
                    &&& final(region)@ == old(region)@
                },
            },
    {
        let slice = [value];
        let result = self.try_extend_from_slice(region, slice.as_slice());
        proof {
            if result.is_ok() {
                assert(final(self).contents(region@)[old(self)@.len as int] == value);
                assert(region@ =~= old(region)@.update(old(self)@.len as int, value)) by {
                    assert forall|i: int| 0 <= i < old(self)@.len implies region@[i] == old(
                        region,
                    )@[i] by {
                        assert(self.contents(region@)[i] == old(self).contents(old(region)@)[i]);
                    }
                }
            }
        }
        result
    }

    /// Extends a vector with contents of a byte slice that fits in the
    /// available capacity.
    pub fn extend_from_slice(&mut self, region: &mut [u8], slice: &[u8])
        requires
            old(self).wf(),
            old(region).len() == old(self)@.capacity,
            slice.len() <= old(self)@.capacity - old(self)@.len,
        ensures
            final(self).wf(),
            final(region).len() == old(region).len(),
            final(self)@ == (OolVecView {
                len: (old(self)@.len + slice.len()) as usize,
                ..old(self)@
            }),
            final(self).contents(final(region)@) == old(self).contents(old(region)@) + slice@,
            forall|i: int|
                final(self)@.len <= i < final(region).len() ==> final(region)@[i] == old(
                    region,
                )@[i],
    {
        let _ = self.try_extend_from_slice(region, slice);
    }

    /// Pushes a byte to the end of a vector that is not full.
    pub fn push(&mut self, region: &mut [u8], value: u8)
        requires
            old(self).wf(),
            old(region).len() == old(self)@.capacity,
            old(self)@.len < old(self)@.capacity,
        ensures
            final(self).wf(),
            final(self)@ == (OolVecView { len: (old(self)@.len + 1) as usize, ..old(self)@ }),
            final(region)@ == old(region)@.update(old(self)@.len as int, value),
            final(self).contents(final(region)@) == old(self).contents(old(region)@).push(value),
    {
        let _ = self.try_push(region, value);
        assert(self.contents(region@) =~= old(self).contents(old(region)@).push(value));
    }

    /// Resizes the vector to a specified length.
    ///
    /// In case the new length is greater than the old one, the difference is filled with the
    /// specified value.
    ///
    /// # Errors
    /// Returns [`NotEnoughCapacity`] error in case the new length is greater than the vector's
    /// capacity.
    pub fn resize(&mut self, region: &mut [u8], new_len: usize, value: u8) -> (result: Result<
        (),
        NotEnoughCapacity,
    >)
        requires
            old(self).wf(),
            old(region).len() == old(self)@.capacity,
        ensures
            final(self).wf(),
            final(region).len() == old(region).len(),
            match result {
                Ok(()) => {
                    &&& new_len <= old(self)@.capacity
                    &&& final(self)@ == (OolVecView { len: new_len, ..old(self)@ })
                    &&& forall|i: int|
                        0 <= i < final(region).len() ==> #[trigger] final(region)@[i] == if old(
                            self,
                        )@.len <= i < new_len {
                            value
                        } else {
                            old(region)@[i]
                        }
                },
                Err(error) => {
                    &&& new_len > old(self)@.capacity
                    &&& error == (NotEnoughCapacity {
                        required_capacity: new_len,
                        available_capacity: old(self)@.capacity,
                    })
                    &&& final(self)@ == old(self)@
                    &&& final(region)@ == old(region)@
                },
            },
    {
        let available_capacity = self.capacity();
        if new_len <= available_capacity {
            let old_len = self.len;
            let mut i: usize = old_len;
            while i < new_len
                invariant
                    old_len == old(self)@.len,
                    new_len <= region.len(),
                    region.len() == old(region).len(),
                    old_len <= i,
                    i <= new_len || i == old_len,
                    forall|j: int|
                        0 <= j < region.len() ==> #[trigger] region@[j] == if old_len <= j < i {
                            value
                        } else {
                            old(region)@[j]
                        },
                decreases new_len - i,
            {
                let ghost before = region@;
                region[i] = value;
                assert forall|j: int| 0 <= j < region.len() implies #[trigger] region@[j] == if old_len
                    <= j < i + 1 {
                    value
                } else {
                    old(region)@[j]
                } by {
                    if j != i {
                        assert(region@[j] == before[j]);
                    }
                }
                i += 1;
            }
            self.len = new_len;
            Ok(())
        } else {
            Err(NotEnoughCapacity { required_capacity: new_len, available_capacity })
        }
    }

    /// Pops a byte from the vector in case it isn't empty.
    pub fn pop(&mut self, region: &[u8]) -> (value: Option<u8>)
        requires
            old(self).wf(),
            region.len() == old(self)@.capacity,
        ensures
            final(self).wf(),
            match value {
                Some(byte) => {
                    &&& old(self)@.len > 0
                    &&& byte == region@[old(self)@.len - 1]
                    &&& final(self)@ == (OolVecView {
                        len: (old(self)@.len - 1) as usize,
                        ..old(self)@
                    })
                },
                None => old(self)@.len == 0 && final(self)@ == old(self)@,
            },
    {
        if self.len == 0 {
            return None;
        }
        let value = region[self.len - 1];
        self.len -= 1;
        Some(value)
    }

    /// The vector is small enough and low enough in the address space for
    /// the rounding to a page size.
    pub open spec fn can_shrink(&self, page_size: usize) -> bool {
        &&& valid_page_size(page_size)
        &&& self@.capacity <= i64::MAX
        &&& self@.address + self@.capacity <= u64::MAX
    }

    /// Whether the vector can be shrunk by the page size given.
    pub fn check_shrink(&self, page_size: usize) -> (can: bool)
        ensures
            can == self.can_shrink(page_size),
    {
        self.buf.check_shrink(page_size)
    }

    /// Shrinks the vector to the smallest capacity that can hold the stored
    /// data, and returns the call that unmaps the pages that it no longer
    /// reaches, if there is one.
    pub fn shrink_to_fit(&mut self, page_size: usize) -> (call: Option<VmDeallocate>)
        requires
            old(self).wf(),
            old(self).can_shrink(page_size),
        ensures
            final(self).wf(),
            final(self)@.len == old(self)@.len,
            final(self)@.capacity == old(self)@.len,
            ({
                let address = old(self)@.address;
                let capacity = old(self)@.capacity;
                let aligned = aligned_capacity(address, capacity, page_size);
                let aligned_target = aligned_capacity(address, old(self)@.len, page_size);
                if aligned_target < aligned {
                    &&& 0 <= aligned_target < capacity
                    &&& call == Some(
                        VmDeallocate {
                            address: (address + aligned_target) as u64,
                            size: (capacity - aligned_target) as u64,
                        },
                    )
                    &&& final(self)@.address == if aligned_target == 0 {
                        DANGLING
                    } else {
                        address
                    }
                } else {
                    &&& call.is_none()
                    &&& final(self)@.address == address
                }
            }),
    {
        self.buf.shrink_to(self.len, page_size)
    }

    /// Converts an [`OolVec`] into an [`OolBuf`] of the vector's length, and
    /// returns with it the call that unmaps the pages that the buffer does
    /// not reach, if there is one.
    pub fn into_buf(self, page_size: usize) -> (converted: (OolBuf, Option<VmDeallocate>))
        requires
            self.wf(),
            self.can_shrink(page_size),
        ensures
            converted.0.wf(),
            converted.0@.capacity == self@.len,
            ({
                let address = self@.address;
                let capacity = self@.capacity;
                let aligned = aligned_capacity(address, capacity, page_size);
                let aligned_target = aligned_capacity(address, self@.len, page_size);
                if aligned_target < aligned {
                    &&& 0 <= aligned_target < capacity
                    &&& converted.1 == Some(
                        VmDeallocate {
                            address: (address + aligned_target) as u64,
                            size: (capacity - aligned_target) as u64,
                        },
                    )
                    &&& converted.0@.address == if aligned_target == 0 {
                        DANGLING
                    } else {
                        address
                    }
                } else {
                    &&& converted.1.is_none()
                    &&& converted.0@.address == address
                }
            }),
    {
        let mut value = self;
        let call = value.shrink_to_fit(page_size);
        (OolBuf(value.buf), call)
    }

    /// The call that unmaps the memory of the vector, which whoever gives the
    /// vector up owes: none for a vector without memory.
    pub fn dealloc(self) -> (call: Option<VmDeallocate>)
        ensures
            call == if self@.capacity > 0 {
                Some(VmDeallocate { address: self@.address, size: self@.capacity as u64 })
            } else {
                None
            },
    {
        self.buf.dealloc()
    }
}

impl Default for OolVec {
    fn default() -> (vec: Self)
        ensures
            vec.wf(),
            vec@ == (OolVecView { address: DANGLING, capacity: 0, len: 0 }),
    {
        OolVec { buf: VmBuf::default(), len: 0 }
    }
}

} // verus!
