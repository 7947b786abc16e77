use mach_ports::msg::buffer::{Buffer, MachMsgHeader};
use mach_ports::msg::descriptor::{OolDescriptor, OolPortsDescriptor, PortDescriptor};
use mach_ports::msg::parser::{
    desc_stands_at, is_receivable_desc, next_desc_impl, parse_desc, size_for_desc_type,
    DescOrBodyParser, MsgParser, ParsedMsgDesc, TransmutedMsgDesc,
};
use mach_ports::rights::AnySendRight;
use mach_ports::traits::AsRawName;

fn port(name: u32, disposition: u8) -> Vec<u8> {
    PortDescriptor { name, pad1: 0, pad2: 0, disposition, type_: 0 }.to_bytes()
}

fn ool(address: u64, size: u32, type_: u8) -> Vec<u8> {
    OolDescriptor { address, deallocate: 0, copy: 1, pad1: 0, type_, size }.to_bytes()
}

/// A buffer that holds a received message with the header bits, the ports
/// and the body given, and the size that fits them.
fn received(bits: u32, remote: u32, voucher: u32, body: &[u8]) -> Buffer {
    let header = MachMsgHeader {
        msgh_bits: bits,
        msgh_size: 24 + body.len() as u32,
        msgh_remote_port: remote,
        msgh_local_port: 0x1203,
        msgh_voucher_port: voucher,
        msgh_id: 77,
    };
    let mut bytes = header.to_bytes();
    bytes.extend_from_slice(body);
    let mut buffer = Buffer::with_capacity(256);
    buffer.store(&bytes);
    buffer
}

fn table(descs: &[Vec<u8>], inline_data: &[u8]) -> Vec<u8> {
    let mut body = (descs.len() as u32).to_le_bytes().to_vec();
    for desc in descs {
        body.extend_from_slice(desc);
    }
    body.extend_from_slice(inline_data);
    body
}

#[test]
fn descriptor_sizes_by_type() {
    assert_eq!(size_for_desc_type(0), 12);
    assert_eq!(size_for_desc_type(1), 16);
    assert_eq!(size_for_desc_type(2), 16);
    assert_eq!(size_for_desc_type(3), 16);
}

#[test]
fn descriptor_bytes_follow_the_kernel_layout() {
    assert_eq!(PortDescriptor::new(0x0102_0304, 17).to_bytes(), vec![4, 3, 2, 1, 0, 0, 0, 0, 0, 0, 17, 0]);
    assert_eq!(
        OolDescriptor::new(0x0102_0304_0506_0708, true, 1, 0x0a0b_0c0d).to_bytes(),
        vec![8, 7, 6, 5, 4, 3, 2, 1, 1, 1, 0, 1, 0x0d, 0x0c, 0x0b, 0x0a]
    );
    assert_eq!(
        OolDescriptor::new(0x10, false, 0, 3).to_bytes(),
        vec![0x10, 0, 0, 0, 0, 0, 0, 0, 0, 0, 0, 1, 3, 0, 0, 0]
    );
    let desc = PortDescriptor { name: 9, pad1: 0x0101_0101, pad2: 0x0202, disposition: 18, type_: 0 };
    assert_eq!(PortDescriptor::from_bytes(&desc.to_bytes()), desc);
    let desc = OolDescriptor { address: u64::MAX, deallocate: 1, copy: 0, pad1: 9, type_: 3, size: 8 };
    assert_eq!(OolDescriptor::from_bytes(&desc.to_bytes()), desc);
    let desc = OolPortsDescriptor {
        address: 0x5000,
        deallocate: 0,
        copy: 1,
        disposition: 17,
        type_: 2,
        count: 3,
    };
    assert_eq!(desc.to_bytes(), vec![0, 0x50, 0, 0, 0, 0, 0, 0, 0, 1, 17, 2, 3, 0, 0, 0]);
    assert_eq!(OolPortsDescriptor::from_bytes(&desc.to_bytes()), desc);
}

#[test]
fn simple_message_goes_straight_to_the_body() {
    let buffer = received(0, 0, 0, b"inline");
    assert!(MsgParser::check(&buffer));
    let (header, parser) = MsgParser::new(buffer).parse_header();
    assert_eq!(header.id, 77);
    assert!(header.reply_right.is_none());
    assert!(header.voucher.is_none());
    match parser {
        DescOrBodyParser::Body(body) => {
            assert_eq!(body.body(), b"inline");
            let buffer = body.into_buffer();
            assert_eq!(buffer.header().msgh_id, 77);
            // the buffer's length is the size in the header
            assert_eq!(buffer.body().len(), 30);
        }
        DescOrBodyParser::Descriptor(_) => panic!("expected a body parser"),
    }
}

#[test]
fn header_rights_follow_the_dispositions() {
    let buffer = received(17 | (19 << 16), 0x2003, 0x2103, b"");
    assert!(MsgParser::check(&buffer));
    let (header, _) = MsgParser::new(buffer).parse_header();
    match header.reply_right {
        Some(AnySendRight::Send(right)) => assert_eq!(right.as_raw_name(), 0x2003),
        _ => panic!("expected a send right"),
    }
    assert_eq!(header.voucher.unwrap().as_raw_name(), 0x2103);

    let buffer = received(18 | (17 << 16), 0x2003, 0x2103, b"");
    let (header, _) = MsgParser::new(buffer).parse_header();
    assert!(matches!(header.reply_right, Some(AnySendRight::SendOnce(_))));
}

#[test]
fn descriptors_come_out_in_order_with_their_classes() {
    let body = table(
        &[port(0x3003, 16), ool(0x7000, 64, 1), port(0x3103, 18), ool(0, 0, 1), port(0x3203, 17)],
        b"rest",
    );
    let buffer = received(0x8000_0000, 0, 0, &body);
    assert!(MsgParser::check(&buffer));
    let (_, parser) = MsgParser::new(buffer).parse_header();
    let DescOrBodyParser::Descriptor(parser) = parser else { panic!("expected descriptors") };

    let (desc, parser) = parser.next();
    match desc {
        ParsedMsgDesc::PortRecv(right) => assert_eq!(right.as_raw_name(), 0x3003),
        _ => panic!("expected a receive right"),
    }
    let DescOrBodyParser::Descriptor(parser) = parser else { panic!("expected descriptors") };
    let (desc, parser) = parser.next();
    match desc {
        ParsedMsgDesc::OolData(buf) => assert_eq!((buf.as_ptr(), buf.len()), (0x7000, 64)),
        _ => panic!("expected a region"),
    }
    let DescOrBodyParser::Descriptor(parser) = parser else { panic!("expected descriptors") };
    let (desc, parser) = parser.next();
    match desc {
        ParsedMsgDesc::PortSendOnce(right) => assert_eq!(right.as_raw_name(), 0x3103),
        _ => panic!("expected a send once right"),
    }
    let DescOrBodyParser::Descriptor(parser) = parser else { panic!("expected descriptors") };
    let (desc, parser) = parser.next();
    match desc {
        // an empty region has the dangling address
        ParsedMsgDesc::OolData(buf) => assert_eq!((buf.as_ptr(), buf.len()), (1, 0)),
        _ => panic!("expected a region"),
    }
    let DescOrBodyParser::Descriptor(parser) = parser else { panic!("expected descriptors") };
    let (desc, parser) = parser.next();
    match desc {
        ParsedMsgDesc::PortSend(right) => assert_eq!(right.as_raw_name(), 0x3203),
        _ => panic!("expected a send right"),
    }
    let DescOrBodyParser::Body(parser) = parser else { panic!("expected the body") };
    assert_eq!(parser.body(), b"rest");
}

#[test]
fn a_parser_that_is_given_up_hands_over_what_is_left() {
    let body = table(&[port(0x3003, 16), ool(0x7000, 64, 1), port(0x3103, 18)], b"rest");

    let buffer = received(0x8000_0000 | 18, 0x2003, 0, &body);
    let (header, owned, buffer) = MsgParser::new(buffer).release();
    assert!(matches!(header.reply_right, Some(AnySendRight::SendOnce(_))));
    assert_eq!(owned.len(), 3);
    assert!(matches!(owned[0], ParsedMsgDesc::PortRecv(_)));
    assert!(matches!(owned[1], ParsedMsgDesc::OolData(_)));
    assert!(matches!(owned[2], ParsedMsgDesc::PortSendOnce(_)));
    assert_eq!(buffer.header().msgh_id, 77);

    let buffer = received(0x8000_0000, 0, 0, &body);
    let (_, parser) = MsgParser::new(buffer).parse_header();
    let DescOrBodyParser::Descriptor(parser) = parser else { panic!("expected descriptors") };
    let (_, parser) = parser.next();
    let (owned, _) = parser.release();
    assert_eq!(owned.len(), 2);
    match &owned[0] {
        ParsedMsgDesc::OolData(buf) => assert_eq!((buf.as_ptr(), buf.len()), (0x7000, 64)),
        _ => panic!("expected a region"),
    }
    match &owned[1] {
        ParsedMsgDesc::PortSendOnce(right) => assert_eq!(right.as_raw_name(), 0x3103),
        _ => panic!("expected a send once right"),
    }

    let buffer = received(0, 0, 0, b"only inline");
    let (_, parser) = MsgParser::new(buffer).parse_header();
    let (owned, _) = parser.release();
    assert!(owned.is_empty());
}

#[test]
fn check_refuses_what_the_parsers_cannot_take_apart() {
    // as a reference, a message that is accepted
    assert!(MsgParser::check(&received(0x8000_0000, 0, 0, &table(&[port(3, 17)], b"x"))));

    // a bit that user code cannot set
    assert!(!MsgParser::check(&received(0x0000_0020, 0, 0, b"")));
    // a reply port with a disposition that is neither moved send nor moved send once
    assert!(!MsgParser::check(&received(19, 0x2003, 0, b"")));
    assert!(!MsgParser::check(&received(0, 0x2003, 0, b"")));
    // a voucher with a disposition that is neither copied nor moved send
    assert!(!MsgParser::check(&received(18 << 16, 0, 0x2103, b"")));
    // dispositions without a port are not looked at
    assert!(MsgParser::check(&received(19 | (18 << 16), 0, 0, b"")));
    // a complex message without room for its count
    assert!(!MsgParser::check(&received(0x8000_0000, 0, 0, &[1, 0, 0])));
    // fewer descriptors than the count says
    assert!(!MsgParser::check(&received(0x8000_0000, 0, 0, &table(&[port(3, 17)], b"")[..15])));
    let mut body = table(&[port(3, 17)], b"");
    body[0] = 2;
    assert!(!MsgParser::check(&received(0x8000_0000, 0, 0, &body)));
    // a type tag that is none of the four
    let mut body = table(&[port(3, 17)], b"");
    body[4 + 11] = 4;
    assert!(!MsgParser::check(&received(0x8000_0000, 0, 0, &body)));
    // a region descriptor that is cut short
    let body = table(&[ool(0x7000, 8, 1)], b"");
    assert!(!MsgParser::check(&received(0x8000_0000, 0, 0, &body[..body.len() - 1])));
    // a right that is copied or made: the kernel hands over moved rights only
    assert!(!MsgParser::check(&received(0x8000_0000, 0, 0, &table(&[port(3, 19)], b""))));
    assert!(!MsgParser::check(&received(0x8000_0000, 0, 0, &table(&[port(3, 20)], b""))));
    // a region of some size without an address
    assert!(!MsgParser::check(&received(0x8000_0000, 0, 0, &table(&[ool(0, 8, 1)], b""))));
    // volatile regions and arrays of ports
    assert!(!MsgParser::check(&received(0x8000_0000, 0, 0, &table(&[ool(0x7000, 8, 3)], b""))));
    assert!(!MsgParser::check(&received(0x8000_0000, 0, 0, &table(&[ool(0x7000, 8, 2)], b""))));
    // the second of two descriptors is bad
    assert!(!MsgParser::check(
        &received(0x8000_0000, 0, 0, &table(&[port(3, 17), port(3, 21)], b""))
    ));
    // a complex message with a count of zero is taken as inline data
    assert!(MsgParser::check(&received(0x8000_0000, 0, 0, &[0, 0, 0, 0, 9])));
}

#[test]
fn check_refuses_sizes_that_do_not_fit() {
    let mut buffer = received(0, 0, 0, b"abc");
    buffer.header_mut().msgh_size = 23;
    assert!(!MsgParser::check(&buffer));
    buffer.header_mut().msgh_size = 28;
    assert!(!MsgParser::check(&buffer));
    buffer.header_mut().msgh_size = 26;
    assert!(MsgParser::check(&buffer));
    let (_, parser) = MsgParser::new(buffer).parse_header();
    let DescOrBodyParser::Body(parser) = parser else { panic!("expected the body") };
    assert_eq!(parser.body(), b"ab");

    // the size counts the header too, and the buffer must have room for it
    let header = MachMsgHeader { msgh_size: 24 + 8, ..MachMsgHeader::default() };
    let mut bytes = header.to_bytes();
    bytes.extend_from_slice(&[0u8; 8]);
    let mut small = Buffer::with_capacity(31);
    small.store(&bytes);
    assert!(!MsgParser::check(&small));
    let mut large = Buffer::with_capacity(32);
    large.store(&bytes);
    assert!(MsgParser::check(&large));
}

#[test]
fn a_complex_message_with_a_count_of_zero_keeps_the_count_in_its_body() {
    let buffer = received(0x8000_0000, 0, 0, &[0, 0, 0, 0, 9]);
    let (_, parser) = MsgParser::new(buffer).parse_header();
    let DescOrBodyParser::Body(parser) = parser else { panic!("expected the body") };
    assert_eq!(parser.body(), &[0, 0, 0, 0, 9]);
}

#[test]
fn descriptors_are_read_where_they_stand() {
    let mut buffer = Buffer::with_capacity(64);
    buffer.append(&table(&[port(0x3003, 20), ool(0x7000, 64, 3)], b"0123456789ab"));
    // not at a multiple of four
    assert!(!desc_stands_at(&buffer, 2, false));
    assert!(!desc_stands_at(&buffer, 5, false));
    assert!(desc_stands_at(&buffer, 4, false));
    assert!(desc_stands_at(&buffer, 16, false));
    // the last twelve bytes have the tag of the letter 'b'
    assert!(!desc_stands_at(&buffer, 32, false));
    assert!(!desc_stands_at(&buffer, 36, false));
    assert!(!desc_stands_at(&buffer, 44, false));

    let mut offset = 4;
    let desc = next_desc_impl(&buffer, &mut offset, false);
    assert_eq!(offset, 16);
    assert_eq!(
        desc,
        TransmutedMsgDesc::Port(PortDescriptor {
            name: 0x3003,
            pad1: 0,
            pad2: 0,
            disposition: 20,
            type_: 0
        })
    );
    assert!(!is_receivable_desc(&desc));
    let desc = next_desc_impl(&buffer, &mut offset, false);
    assert_eq!(offset, 32);
    assert!(matches!(desc, TransmutedMsgDesc::OolVolatile(_)));
    assert!(!is_receivable_desc(&desc));
    assert_eq!(desc.to_bytes(), ool(0x7000, 64, 3));

    let moved = TransmutedMsgDesc::Port(PortDescriptor::new(5, 16));
    assert!(is_receivable_desc(&moved));
    assert!(matches!(parse_desc(moved), ParsedMsgDesc::PortRecv(_)));
}
