use mach_ports::msg::buffer::{Buffer, MachMsgHeader, HEADER_SIZE};
use mach_ports::msg::MachMsgBits;

#[test]
fn with_capacity_is_empty() {
    let buffer = Buffer::with_capacity(16);
    assert_eq!(buffer.capacity(), 16);
    assert_eq!(buffer.body().len(), 0);
    assert_eq!(*buffer.header(), MachMsgHeader::default());
    assert_eq!(buffer.as_slice(), vec![0u8; 24]);
}

#[test]
fn append_within_capacity_keeps_capacity() {
    let mut buffer = Buffer::with_capacity(4);
    buffer.append(&[1, 2, 3]);
    assert_eq!(buffer.capacity(), 4);
    assert_eq!(buffer.body(), &[1, 2, 3]);
    buffer.append(&[4]);
    assert_eq!(buffer.capacity(), 4);
    assert_eq!(buffer.body(), &[1, 2, 3, 4]);
}

#[test]
fn append_across_capacity_keeps_bytes_and_grows() {
    let mut buffer = Buffer::with_capacity(4);
    buffer.append(&[1, 2, 3]);
    buffer.append(&[4, 5, 6]);
    // half of 4 is less than the 3 asked for: 3 + 4
    assert_eq!(buffer.capacity(), 7);
    assert_eq!(buffer.body(), &[1, 2, 3, 4, 5, 6]);
    buffer.append(&[7]);
    assert_eq!(buffer.capacity(), 7);
    buffer.append(&[8; 10]);
    // half of 7 is less than the 10 asked for: 10 + 7
    assert_eq!(buffer.capacity(), 17);
    assert_eq!(&buffer.body()[..7], &[1, 2, 3, 4, 5, 6, 7]);
    assert_eq!(&buffer.body()[7..], &[8; 10]);
    assert!(buffer.capacity() >= buffer.body().len());
}

#[test]
fn growth_is_by_half_where_half_is_more() {
    let mut buffer = Buffer::with_capacity(100);
    buffer.append(&[9; 90]);
    buffer.append(&[7; 20]);
    assert_eq!(buffer.capacity(), 150);
    assert_eq!(buffer.body().len(), 110);
    assert_eq!(buffer.body()[89], 9);
    assert_eq!(buffer.body()[90], 7);
}

#[test]
fn repeated_appends_never_lose_bytes() {
    let mut buffer = Buffer::with_capacity(1);
    let mut expected = Vec::new();
    for i in 0..200u32 {
        let chunk = vec![(i % 251) as u8; (i % 7) as usize];
        buffer.append(&chunk);
        expected.extend_from_slice(&chunk);
        assert!(buffer.capacity() >= buffer.body().len());
        assert_eq!(buffer.body(), expected.as_slice());
    }
}

#[test]
fn reserve_is_a_no_op_where_room_is_left() {
    let mut buffer = Buffer::with_capacity(10);
    buffer.append(&[1, 2, 3, 4]);
    buffer.reserve(6);
    assert_eq!(buffer.capacity(), 10);
    buffer.reserve(7);
    assert_eq!(buffer.capacity(), 17);
    assert_eq!(buffer.body(), &[1, 2, 3, 4]);
}

#[test]
fn insert_shifts_what_follows() {
    let mut buffer = Buffer::with_capacity(16);
    buffer.append(b"0123456");
    buffer.insert(4, b"1337");
    assert_eq!(buffer.body(), b"01231337456");
    buffer.insert(0, b"ab");
    assert_eq!(buffer.body(), b"ab01231337456");
    buffer.insert(13, b"z");
    assert_eq!(buffer.body(), b"ab01231337456z");
    assert_eq!(buffer.capacity(), 16);
}

#[test]
fn insert_grows_like_append() {
    let mut buffer = Buffer::with_capacity(4);
    buffer.append(&[1, 2, 3, 4]);
    buffer.insert(2, &[9, 9, 9]);
    assert_eq!(buffer.capacity(), 7);
    assert_eq!(buffer.body(), &[1, 2, 9, 9, 9, 3, 4]);
}

#[test]
fn insert_of_nothing_changes_nothing() {
    let mut buffer = Buffer::with_capacity(4);
    buffer.append(&[1, 2]);
    buffer.insert(1, &[]);
    assert_eq!(buffer.body(), &[1, 2]);
    assert_eq!(buffer.capacity(), 4);
}

#[test]
fn set_len_drops_and_pads_with_zeros() {
    let mut buffer = Buffer::with_capacity(8);
    buffer.append(&[1, 2, 3, 4]);
    buffer.set_len(2);
    assert_eq!(buffer.body(), &[1, 2]);
    buffer.set_len(5);
    assert_eq!(buffer.body(), &[1, 2, 0, 0, 0]);
    buffer.set_len(8);
    assert_eq!(buffer.body().len(), 8);
    assert_eq!(buffer.capacity(), 8);
}

#[test]
fn header_bytes_are_little_endian_words() {
    let header = MachMsgHeader {
        msgh_bits: 0x8000_1513,
        msgh_size: 40,
        msgh_remote_port: 0x0102_0304,
        msgh_local_port: 0x1203,
        msgh_voucher_port: 0,
        msgh_id: 42,
    };
    assert_eq!(
        header.to_bytes(),
        vec![
            0x13, 0x15, 0x00, 0x80, 40, 0, 0, 0, 0x04, 0x03, 0x02, 0x01, 0x03, 0x12, 0, 0, 0, 0,
            0, 0, 42, 0, 0, 0
        ]
    );
    assert_eq!(MachMsgHeader::from_bytes(&header.to_bytes()), header);
}

#[test]
fn negative_id_is_stored_in_twos_complement() {
    let header = MachMsgHeader { msgh_id: -2, ..MachMsgHeader::default() };
    let bytes = header.to_bytes();
    assert_eq!(&bytes[20..], &[0xfe, 0xff, 0xff, 0xff]);
    assert_eq!(MachMsgHeader::from_bytes(&bytes).msgh_id, -2);
    let lowest = MachMsgHeader { msgh_id: i32::MIN, ..MachMsgHeader::default() };
    assert_eq!(MachMsgHeader::from_bytes(&lowest.to_bytes()).msgh_id, i32::MIN);
}

#[test]
fn store_reads_back_what_as_slice_wrote() {
    let mut buffer = Buffer::with_capacity(32);
    buffer.header_mut().msgh_id = 7;
    buffer.header_mut().msgh_local_port = 99;
    buffer.append(b"payload");
    let bytes = buffer.as_slice();
    assert_eq!(bytes.len(), HEADER_SIZE + 7);

    let mut other = Buffer::with_capacity(64);
    other.store(&bytes);
    assert_eq!(other.header(), buffer.header());
    assert_eq!(other.body(), b"payload");
    assert_eq!(other.capacity(), 64);
}

#[test]
fn body_mut_writes_through() {
    let mut buffer = Buffer::with_capacity(4);
    buffer.append(&[1, 2, 3]);
    buffer.body_mut()[1] = 9;
    assert_eq!(buffer.body(), &[1, 9, 3]);
}

#[test]
fn descriptors_count_follows_the_complex_flag() {
    let mut buffer = Buffer::with_capacity(16);
    buffer.append(&[3, 0, 0, 0, 0xff]);
    assert_eq!(buffer.descriptors_count(), 0);
    buffer.header_mut().msgh_bits = MachMsgBits::new(true, 0, 0, 0).0;
    assert_eq!(buffer.header_bits().0, 0x8000_0000);
    assert_eq!(buffer.descriptors_count(), 3);
}
