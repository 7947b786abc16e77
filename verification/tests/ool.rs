use mach_ports::abi::KERN_SUCCESS;
use mach_ports::kernel::{VmAllocate, VmDeallocate};
use mach_ports::msg::ool::{
    align_up, check_page_size, page_granularity, NotEnoughCapacity, OolBuf, OolVec, VmBuf, DANGLING,
};

#[test]
fn align_up_rounds_to_the_next_multiple() {
    assert_eq!(align_up(0, 4096), 0);
    assert_eq!(align_up(1, 4096), 4096);
    assert_eq!(align_up(4096, 4096), 4096);
    assert_eq!(align_up(4097, 4096), 8192);
    assert_eq!(align_up(5, 4), 8);
    assert_eq!(align_up(8, 4), 8);
    assert_eq!(align_up(7, 1), 7);
    assert_eq!(align_up(10, 3), 12);
}

#[test]
fn page_sizes_are_powers_of_two() {
    assert_eq!(check_page_size(4096), Some(4096));
    assert_eq!(check_page_size(16384), Some(16384));
    assert_eq!(check_page_size(1), Some(1));
    assert_eq!(check_page_size(0), None);
    assert_eq!(check_page_size(3), None);
    assert_eq!(check_page_size(4097), None);
    assert_eq!(check_page_size(12288), None);
    assert_eq!(check_page_size(0x4000_0000_0000_0000), Some(0x4000_0000_0000_0000));
    assert_eq!(check_page_size(0x8000_0000_0000_0000), None);
}

#[test]
fn the_system_reports_a_page_size() {
    let granularity = page_granularity().unwrap();
    assert_eq!(granularity, page_size::get_granularity());
    assert!(granularity.is_power_of_two());
    assert!(granularity >= 512);
}

#[test]
fn allocation_is_asked_for_only_where_there_is_memory() {
    assert_eq!(VmBuf::allocate_call(0), None);
    assert_eq!(VmBuf::allocate_call(100), Some(VmAllocate { size: 100, flags: 3 }));
    let buf = VmBuf::allocate(100, KERN_SUCCESS, 0x10000);
    assert_eq!(buf.as_ptr(), 0x10000);
    assert_eq!(buf.capacity(), 100);
    let empty = VmBuf::allocate(0, 5, 0);
    assert_eq!(empty.as_ptr(), DANGLING);
    assert_eq!(empty.capacity(), 0);
    assert_eq!(empty.dealloc(), None);
    assert_eq!(buf.dealloc(), Some(VmDeallocate { address: 0x10000, size: 100 }));
    let default = VmBuf::default();
    assert_eq!((default.as_ptr(), default.capacity()), (1, 0));
}

#[test]
fn shrink_unmaps_the_pages_that_are_no_longer_reached() {
    let mut buf = VmBuf::from_raw_parts(0x10000, 3 * 4096);
    let call = buf.shrink_to(4097, 4096);
    assert_eq!(call, Some(VmDeallocate { address: 0x10000 + 8192, size: 4096 }));
    assert_eq!(buf.capacity(), 4097);
    assert_eq!(buf.as_ptr(), 0x10000);

    // within the same last page nothing is unmapped
    assert_eq!(buf.shrink_to(4097, 4096), None);
    assert_eq!(buf.shrink_to(4096, 4096), Some(VmDeallocate { address: 0x10000 + 4096, size: 1 }));
    assert_eq!(buf.capacity(), 4096);
    assert_eq!(buf.shrink_to(1, 4096), None);
    assert_eq!(buf.capacity(), 1);
}

#[test]
fn shrink_within_a_page_keeps_the_page() {
    let mut buf = VmBuf::from_raw_parts(0x10000, 4096);
    assert_eq!(buf.shrink_to(1, 4096), None);
    assert_eq!(buf.capacity(), 1);
    assert_eq!(buf.as_ptr(), 0x10000);
}

#[test]
fn shrink_to_nothing_gives_up_the_address() {
    let mut buf = VmBuf::from_raw_parts(0x10000, 3 * 4096);
    let call = buf.shrink_to(0, 4096);
    assert_eq!(call, Some(VmDeallocate { address: 0x10000, size: 3 * 4096 }));
    assert_eq!(buf.capacity(), 0);
    assert_eq!(buf.as_ptr(), DANGLING);
    assert_eq!(buf.dealloc(), None);
}

#[test]
fn shrink_counts_pages_from_where_the_buffer_starts_in_its_page() {
    // 16 bytes into a page: 100 and 10 bytes both end in the first page
    let mut buf = VmBuf::from_raw_parts(0x10010, 100);
    assert_eq!(buf.shrink_to(10, 4096), None);
    assert_eq!(buf.capacity(), 10);

    // 8000 bytes reach the second page, 4000 bytes do not
    let mut buf = VmBuf::from_raw_parts(0x10010, 8000);
    let call = buf.shrink_to(4000, 4096);
    assert_eq!(call, Some(VmDeallocate { address: 0x10010 + 4080, size: 8000 - 4080 }));
    assert_eq!(buf.capacity(), 4000);
    assert_eq!(buf.as_ptr(), 0x10010);

    // an unaligned buffer that shrinks to nothing keeps its first page
    let mut buf = VmBuf::from_raw_parts(0x10010, 8000);
    let call = buf.shrink_to(0, 4096);
    assert_eq!(call, Some(VmDeallocate { address: 0x10010 + 4080, size: 8000 - 4080 }));
    assert_eq!(buf.as_ptr(), 0x10010);
}

#[test]
fn ool_buf_is_its_region() {
    let buf = OolBuf::from_raw_parts(0x20000, 12);
    assert_eq!(buf.as_ptr(), 0x20000);
    assert_eq!(buf.len(), 12);
    assert!(!buf.is_empty());
    assert_eq!(buf.into_raw_parts(), (0x20000, 12));
    let empty = OolBuf::default();
    assert!(empty.is_empty());
    assert_eq!(empty.as_ptr(), DANGLING);
    assert_eq!(empty.dealloc(), None);
    assert_eq!(
        OolBuf::from_raw_parts(0x20000, 12).dealloc(),
        Some(VmDeallocate { address: 0x20000, size: 12 })
    );
}

#[test]
fn buf_and_vec_convert_without_copying() {
    let vec = OolBuf::from_raw_parts(0x20000, 4096).into_vec();
    assert_eq!(vec.as_ptr(), 0x20000);
    assert_eq!(vec.len(), 4096);
    assert_eq!(vec.capacity(), 4096);

    let mut vec = OolVec::from_raw_parts(0x20000, 10, 3 * 4096);
    assert_eq!(vec.len(), 10);
    vec.set_len(5);
    let (buf, call) = vec.into_buf(4096);
    assert_eq!(buf.len(), 5);
    assert_eq!(buf.as_ptr(), 0x20000);
    assert_eq!(call, Some(VmDeallocate { address: 0x20000 + 4096, size: 2 * 4096 }));
}

#[test]
fn push_extend_and_pop() {
    let mut memory = vec![0xeeu8; 8];
    let mut v = OolVec::with_capacity(8, KERN_SUCCESS, 0x30000);
    assert!(v.is_empty());
    assert_eq!(v.capacity(), 8);
    v.push(&mut memory, 1);
    v.push(&mut memory, 2);
    v.push(&mut memory, 3);
    assert_eq!(v.as_slice(&memory), &[1, 2, 3]);
    v.extend_from_slice(&mut memory, &[4, 5, 6]);
    assert_eq!(v.as_slice(&memory), &[1, 2, 3, 4, 5, 6]);
    assert_eq!(v.len(), 6);
    assert_eq!(&memory[6..], &[0xee, 0xee]);

    assert_eq!(v.pop(&memory), Some(6));
    assert_eq!(v.pop(&memory), Some(5));
    assert_eq!(v.len(), 4);
    v.as_slice_mut(&mut memory)[1] = 9;
    assert_eq!(v.as_slice(&memory), &[1, 9, 3, 4]);
    assert_eq!(v.pop(&memory), Some(4));
    assert_eq!(v.pop(&memory), Some(3));
    assert_eq!(v.pop(&memory), Some(9));
    assert_eq!(v.pop(&memory), Some(1));
    assert_eq!(v.pop(&memory), None);
    assert!(v.is_empty());
}

#[test]
fn extending_beyond_the_capacity_is_refused() {
    let mut memory = vec![0u8; 4];
    let mut v = OolVec::with_capacity(4, KERN_SUCCESS, 0x30000);
    assert_eq!(v.try_extend_from_slice(&mut memory, &[1, 2, 3]), Ok(()));
    let error = v.try_extend_from_slice(&mut memory, &[4, 5]).unwrap_err();
    assert_eq!(error.required_capacity, 2);
    assert_eq!(error.available_capacity, 1);
    assert_eq!(v.as_slice(&memory), &[1, 2, 3]);
    assert_eq!(v.try_push(&mut memory, 4), Ok(()));
    let error = v.try_push(&mut memory, 5).unwrap_err();
    assert_eq!((error.required_capacity, error.available_capacity), (1, 0));
    assert_eq!(memory, vec![1, 2, 3, 4]);
    assert_eq!(
        error.to_string(),
        "could not extend OOL buffer with 1 bytes as the available capacity is 0"
    );
}

#[test]
fn not_enough_capacity_in_words() {
    let mut memory = vec![0u8; 1024];
    let mut v = OolVec::with_capacity(1024, KERN_SUCCESS, 0x30000);
    let error: NotEnoughCapacity = v.resize(&mut memory, 70001, 0).unwrap_err();
    assert_eq!(
        error.to_string(),
        "could not extend OOL buffer with 70001 bytes as the available capacity is 1024"
    );
}

#[test]
fn resize_fills_and_truncates() {
    let mut memory = vec![0u8; 1024];
    let mut v = OolVec::with_capacity(1024, KERN_SUCCESS, 0x30000);

    v.resize(&mut memory, 6, 0xAA).unwrap();
    v.resize(&mut memory, 4, 0).unwrap();
    v.resize(&mut memory, 5, 0xBB).unwrap();

    assert_eq!(v.as_slice(&memory), &[0xAA, 0xAA, 0xAA, 0xAA, 0xBB]);
    assert_eq!(memory[5], 0xAA);

    let error = v.resize(&mut memory, 1025, 1).unwrap_err();
    assert_eq!((error.required_capacity, error.available_capacity), (1025, 1024));
    assert_eq!(v.len(), 5);
    v.resize(&mut memory, 1024, 7).unwrap();
    assert_eq!(v.len(), 1024);
    assert_eq!(memory[1023], 7);
    assert_eq!(memory[4], 0xBB);
}

#[test]
fn shrink_to_fit_lowers_the_capacity_to_the_length() {
    let mut v = OolVec::from_raw_parts(0x40000, 3, 1024);
    assert_eq!(v.shrink_to_fit(4096), None);
    assert_eq!(v.capacity(), 3);
    assert_eq!(v.len(), 3);

    let mut v = OolVec::from_raw_parts(0x40000, 0, 2 * 16384);
    let call = v.shrink_to_fit(16384);
    assert_eq!(call, Some(VmDeallocate { address: 0x40000, size: 2 * 16384 }));
    assert_eq!(v.as_ptr(), DANGLING);
    assert_eq!(v.dealloc(), None);
}

#[test]
fn a_vector_without_memory_needs_no_call() {
    let v = OolVec::with_capacity(0, KERN_SUCCESS, 0);
    assert_eq!(v.as_ptr(), DANGLING);
    assert_eq!(v.capacity(), 0);
    let memory: Vec<u8> = Vec::new();
    assert_eq!(v.as_slice(&memory), &[] as &[u8]);
    assert_eq!(v.dealloc(), None);
    let d = OolVec::default();
    assert_eq!((d.as_ptr(), d.len(), d.capacity()), (DANGLING, 0, 0));
}
