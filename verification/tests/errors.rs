use mach_ports::abi::{
    MACH_MSG_IPC_KERNEL, MACH_MSG_IPC_SPACE, MACH_MSG_VM_KERNEL, MACH_MSG_VM_SPACE,
    MACH_RCV_IN_PROGRESS, MACH_RCV_IN_PROGRESS_TIMED, MACH_SEND_INVALID_DEST,
    MACH_SEND_INVALID_RT_OOL_SIZE, MACH_SEND_IN_PROGRESS,
};
use mach_ports::msg::error::{RecvError, RecvErrorKind, SendError, SendErrorKind};

const SEND_KINDS: [(SendErrorKind, i32, &str); 17] = [
    (SendErrorKind::InProgress, 0x1000_0001, "MACH_SEND_IN_PROGRESS"),
    (SendErrorKind::InvalidData, 0x1000_0002, "MACH_SEND_INVALID_DATA"),
    (SendErrorKind::InvalidDest, 0x1000_0003, "MACH_SEND_INVALID_DEST"),
    (SendErrorKind::TimedOut, 0x1000_0004, "MACH_SEND_TIMED_OUT"),
    (SendErrorKind::InvalidVoucher, 0x1000_0005, "MACH_SEND_INVALID_VOUCHER"),
    (SendErrorKind::Interrupted, 0x1000_0007, "MACH_SEND_INTERRUPTED"),
    (SendErrorKind::MsgTooSmall, 0x1000_0008, "MACH_SEND_MSG_TOO_SMALL"),
    (SendErrorKind::InvalidReply, 0x1000_0009, "MACH_SEND_INVALID_REPLY"),
    (SendErrorKind::InvalidRight, 0x1000_000a, "MACH_SEND_INVALID_RIGHT"),
    (SendErrorKind::InvalidNotify, 0x1000_000b, "MACH_SEND_INVALID_NOTIFY"),
    (SendErrorKind::InvalidMemory, 0x1000_000c, "MACH_SEND_INVALID_MEMORY"),
    (SendErrorKind::NoBuffer, 0x1000_000d, "MACH_SEND_NO_BUFFER"),
    (SendErrorKind::TooLarge, 0x1000_000e, "MACH_SEND_TOO_LARGE"),
    (SendErrorKind::InvalidType, 0x1000_000f, "MACH_SEND_INVALID_TYPE"),
    (SendErrorKind::InvalidHeader, 0x1000_0010, "MACH_SEND_INVALID_HEADER"),
    (SendErrorKind::InvalidTrailer, 0x1000_0011, "MACH_SEND_INVALID_TRAILER"),
    (SendErrorKind::InvalidRtOolSize, 0x1000_0015, "MACH_SEND_INVALID_RT_OOL_SIZE"),
];

const RECV_KINDS: [(RecvErrorKind, i32, &str); 16] = [
    (RecvErrorKind::InProgress, 0x1000_4001, "MACH_RCV_IN_PROGRESS"),
    (RecvErrorKind::InvalidName, 0x1000_4002, "MACH_RCV_INVALID_NAME"),
    (RecvErrorKind::TimedOut, 0x1000_4003, "MACH_RCV_TIMED_OUT"),
    (RecvErrorKind::TooLarge, 0x1000_4004, "MACH_RCV_TOO_LARGE"),
    (RecvErrorKind::Interrupted, 0x1000_4005, "MACH_RCV_INTERRUPTED"),
    (RecvErrorKind::PortChanged, 0x1000_4006, "MACH_RCV_PORT_CHANGED"),
    (RecvErrorKind::InvalidNotify, 0x1000_4007, "MACH_RCV_INVALID_NOTIFY"),
    (RecvErrorKind::InvalidData, 0x1000_4008, "MACH_RCV_INVALID_DATA"),
    (RecvErrorKind::PortDied, 0x1000_4009, "MACH_RCV_PORT_DIED"),
    (RecvErrorKind::InSet, 0x1000_400a, "MACH_RCV_IN_SET"),
    (RecvErrorKind::HeaderError, 0x1000_400b, "MACH_RCV_HEADER_ERROR"),
    (RecvErrorKind::BodyError, 0x1000_400c, "MACH_RCV_BODY_ERROR"),
    (RecvErrorKind::InvalidType, 0x1000_400d, "MACH_RCV_INVALID_TYPE"),
    (RecvErrorKind::ScatterSmall, 0x1000_400e, "MACH_RCV_SCATTER_SMALL"),
    (RecvErrorKind::InvalidTrailer, 0x1000_400f, "MACH_RCV_INVALID_TRAILER"),
    (RecvErrorKind::InProgressTimed, 0x1000_4011, "MACH_RCV_IN_PROGRESS_TIMED"),
];

#[test]
fn every_send_kind_has_its_code_and_name() {
    for (kind, code, name) in SEND_KINDS {
        assert_eq!(kind.code(), code);
        assert_eq!(kind.name(), name);
        assert_eq!(SendErrorKind::from_error_code(code), Some(kind));
        assert_eq!(SendError::from_kind(kind).kind(), kind);
        assert_eq!(SendError::from_kind(kind).bits(), code);
        assert_eq!(SendError::from_kind(kind).to_string(), name);
    }
}

#[test]
fn every_recv_kind_has_its_code_and_name() {
    for (kind, code, name) in RECV_KINDS {
        assert_eq!(kind.code(), code);
        assert_eq!(kind.name(), name);
        assert_eq!(RecvErrorKind::from_error_code(code), Some(kind));
        assert_eq!(RecvError::from_kind(kind).kind(), kind);
        assert_eq!(RecvError::from_kind(kind).bits(), code);
        assert_eq!(RecvError::from_kind(kind).to_string(), name);
    }
}

#[test]
fn unknown_codes_have_no_kind() {
    assert_eq!(SendErrorKind::from_error_code(0), None);
    assert_eq!(SendErrorKind::from_error_code(0x1000_0006), None);
    assert_eq!(SendErrorKind::from_error_code(0x1000_0012), None);
    assert_eq!(SendErrorKind::from_error_code(MACH_RCV_IN_PROGRESS), None);
    assert_eq!(RecvErrorKind::from_error_code(0x1000_4010), None);
    assert_eq!(RecvErrorKind::from_error_code(0x1000_4012), None);
    assert_eq!(RecvErrorKind::from_error_code(MACH_SEND_IN_PROGRESS), None);
    assert_eq!(SendError::from_bits(5).try_kind(), None);
    assert_eq!(RecvError::from_bits(-1).try_kind(), None);
}

#[test]
fn kind_ignores_the_flags() {
    let error = SendError::from_bits(MACH_SEND_INVALID_DEST | MACH_MSG_VM_SPACE | MACH_MSG_IPC_KERNEL);
    assert_eq!(error.kind(), SendErrorKind::InvalidDest);
    assert_eq!(error.try_kind(), Some(SendErrorKind::InvalidDest));
    assert!(error.vm_space());
    assert!(!error.vm_kernel());
    assert!(!error.ipc_space());
    assert!(error.ipc_kernel());
}

#[test]
fn flags_are_set_and_reset_one_by_one() {
    let plain = SendError::from_kind(SendErrorKind::InvalidRtOolSize);
    assert_eq!(plain.bits(), MACH_SEND_INVALID_RT_OOL_SIZE);
    assert!(!plain.vm_space() && !plain.vm_kernel() && !plain.ipc_space() && !plain.ipc_kernel());

    let error = plain.set_vm_space(true);
    assert_eq!(error.bits(), MACH_SEND_INVALID_RT_OOL_SIZE | 0x1000);
    let error = error.set_vm_kernel(true);
    assert_eq!(error.bits(), MACH_SEND_INVALID_RT_OOL_SIZE | 0x1400);
    let error = error.set_ipc_space(true);
    assert_eq!(error.bits(), MACH_SEND_INVALID_RT_OOL_SIZE | 0x3400);
    let error = error.set_ipc_kernel(true);
    assert_eq!(error.bits(), MACH_SEND_INVALID_RT_OOL_SIZE | 0x3c00);
    assert_eq!(error.kind(), SendErrorKind::InvalidRtOolSize);
    assert_eq!(error.set_ipc_kernel(true), error);

    let error = error.set_vm_kernel(false);
    assert_eq!(error.bits(), MACH_SEND_INVALID_RT_OOL_SIZE | 0x3800);
    assert!(error.vm_space() && !error.vm_kernel() && error.ipc_space() && error.ipc_kernel());
    let error = error.set_vm_space(false).set_ipc_space(false).set_ipc_kernel(false);
    assert_eq!(error, plain);
    assert_eq!(plain.set_vm_space(false), plain);
}

#[test]
fn recv_flags_are_set_and_reset_one_by_one() {
    let plain = RecvError::from_kind(RecvErrorKind::InProgressTimed);
    assert_eq!(plain.bits(), MACH_RCV_IN_PROGRESS_TIMED);
    let error = plain.set_ipc_space(true).set_vm_kernel(true);
    assert_eq!(error.bits(), MACH_RCV_IN_PROGRESS_TIMED | MACH_MSG_IPC_SPACE | MACH_MSG_VM_KERNEL);
    assert!(!error.vm_space() && error.vm_kernel() && error.ipc_space() && !error.ipc_kernel());
    assert_eq!(error.kind(), RecvErrorKind::InProgressTimed);
    assert_eq!(error.set_ipc_space(false).set_vm_kernel(false), plain);
    assert!(plain.set_vm_space(true).vm_space());
    assert!(plain.set_ipc_kernel(true).ipc_kernel());
}

#[test]
fn errors_in_words_name_the_code_and_the_flags() {
    let error = SendError::from_bits(MACH_SEND_INVALID_DEST);
    assert_eq!(error.to_string(), "MACH_SEND_INVALID_DEST");
    assert_eq!(
        error.set_vm_kernel(true).to_string(),
        "MACH_SEND_INVALID_DEST|MACH_MSG_VM_KERNEL"
    );
    assert_eq!(
        error.set_ipc_kernel(true).set_vm_space(true).set_ipc_space(true).set_vm_kernel(true).to_string(),
        "MACH_SEND_INVALID_DEST|MACH_MSG_VM_SPACE|MACH_MSG_VM_KERNEL|MACH_MSG_IPC_SPACE|MACH_MSG_IPC_KERNEL"
    );
    let error = RecvError::from_kind(RecvErrorKind::PortDied).set_ipc_space(true);
    assert_eq!(error.to_string(), "MACH_RCV_PORT_DIED|MACH_MSG_IPC_SPACE");
}
