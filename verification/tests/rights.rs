use mach_ports::abi::{
    KERN_INVALID_RIGHT, KERN_SUCCESS, MACH_MSG_TYPE_MAKE_SEND, MACH_MSG_TYPE_MOVE_RECEIVE,
    MACH_MSG_TYPE_MOVE_SEND, MACH_MSG_TYPE_MOVE_SEND_ONCE, MACH_PORT_RIGHT_DEAD_NAME,
    MACH_PORT_RIGHT_RECEIVE, MACH_PORT_RIGHT_SEND, MACH_PORT_RIGHT_SEND_ONCE, MACH_RCV_MSG,
    MACH_RCV_TIMED_OUT,
};
use mach_ports::kernel::{InsertRight, ModRefs, MsgCall, PortAllocate};
use mach_ports::msg::buffer::Buffer;
use mach_ports::msg::error::{RecvErrorKind, SendErrorKind};
use mach_ports::rights::{
    mod_refs_retry, mod_refs_wrapper, send_result, AnySendRight, RecvRight, SendOnceRight,
    SendRight,
};
use mach_ports::traits::{AsRawName, BaseRight, BaseSendRight, IntoRawName};

/// Plays the kernel for the calls that give a reference back: answers each
/// call from `answers` and returns the calls as they were made.
fn give_back(first: ModRefs, answer: i32, retry_answer: i32) -> (Vec<ModRefs>, i32) {
    let mut calls = vec![first];
    match mod_refs_retry(first, answer) {
        Some(second) => {
            calls.push(second);
            (calls, retry_answer)
        }
        None => (calls, answer),
    }
}

#[test]
fn rights_test_drop() {
    // the right order
    let recv_right = RecvRight::allocate(KERN_SUCCESS, 0x1203);
    let send_right = recv_right.make_send(KERN_SUCCESS);
    let (calls, result) = give_back(send_right.mod_refs(-1), KERN_SUCCESS, KERN_SUCCESS);
    assert_eq!(calls, vec![ModRefs { name: 0x1203, right: MACH_PORT_RIGHT_SEND, delta: -1 }]);
    assert_eq!(result, KERN_SUCCESS);
    let (calls, result) = give_back(recv_right.mod_refs(-1), KERN_SUCCESS, KERN_SUCCESS);
    assert_eq!(calls, vec![ModRefs { name: 0x1203, right: MACH_PORT_RIGHT_RECEIVE, delta: -1 }]);
    assert_eq!(result, KERN_SUCCESS);

    // the reverse order, will cause KERN_INVALID_RIGHT to be returned during the drop
    let recv_right = RecvRight::allocate(KERN_SUCCESS, 0x1303);
    let send_right = recv_right.make_send(KERN_SUCCESS);
    let (calls, _) = give_back(recv_right.mod_refs(-1), KERN_SUCCESS, KERN_SUCCESS);
    assert_eq!(calls.len(), 1);
    let (calls, result) = give_back(send_right.mod_refs(-1), KERN_INVALID_RIGHT, KERN_SUCCESS);
    assert_eq!(
        calls,
        vec![
            ModRefs { name: 0x1303, right: MACH_PORT_RIGHT_SEND, delta: -1 },
            ModRefs { name: 0x1303, right: MACH_PORT_RIGHT_DEAD_NAME, delta: -1 },
        ]
    );
    assert_eq!(result, KERN_SUCCESS);
}

#[test]
fn retry_only_after_invalid_right() {
    let call = mod_refs_wrapper(7, MACH_PORT_RIGHT_SEND_ONCE, -1);
    assert_eq!(call, ModRefs { name: 7, right: MACH_PORT_RIGHT_SEND_ONCE, delta: -1 });
    assert_eq!(mod_refs_retry(call, KERN_SUCCESS), None);
    assert_eq!(mod_refs_retry(call, 15), None);
    assert_eq!(
        mod_refs_retry(call, KERN_INVALID_RIGHT),
        Some(ModRefs { name: 7, right: MACH_PORT_RIGHT_DEAD_NAME, delta: -1 })
    );
    let up = mod_refs_wrapper(7, MACH_PORT_RIGHT_SEND, 1);
    assert_eq!(
        mod_refs_retry(up, KERN_INVALID_RIGHT),
        Some(ModRefs { name: 7, right: MACH_PORT_RIGHT_DEAD_NAME, delta: 1 })
    );
}

#[test]
fn clone_and_drop_of_a_send_right_balance() {
    let send_right = SendRight::from_raw_name(0x1203);
    let mut held = Vec::new();
    let mut sum = 1;
    for _ in 0..5 {
        let up = send_right.mod_refs(1);
        assert_eq!(up, ModRefs { name: 0x1203, right: MACH_PORT_RIGHT_SEND, delta: 1 });
        sum += up.delta;
        held.push(send_right.clone(KERN_SUCCESS));
    }
    held.push(send_right);
    for right in held {
        assert_eq!(right.as_raw_name(), 0x1203);
        sum += right.mod_refs(-1).delta;
    }
    assert_eq!(sum, 0);
}

#[test]
fn each_class_names_its_own_right() {
    assert_eq!(SendRight::from_raw_name(3).mod_refs(-1).right, MACH_PORT_RIGHT_SEND);
    assert_eq!(SendOnceRight::from_raw_name(3).mod_refs(-1).right, MACH_PORT_RIGHT_SEND_ONCE);
    assert_eq!(RecvRight::from_raw_name(3).mod_refs(-1).right, MACH_PORT_RIGHT_RECEIVE);
    assert_eq!(<SendRight as BaseRight>::msg_type(), MACH_MSG_TYPE_MOVE_SEND);
    assert_eq!(<SendOnceRight as BaseRight>::msg_type(), MACH_MSG_TYPE_MOVE_SEND_ONCE);
    assert_eq!(<RecvRight as BaseRight>::msg_type(), MACH_MSG_TYPE_MOVE_RECEIVE);
    assert_eq!(<SendRight as BaseSendRight>::send_msg_type(), MACH_MSG_TYPE_MOVE_SEND);
    assert_eq!(<SendOnceRight as BaseSendRight>::send_msg_type(), MACH_MSG_TYPE_MOVE_SEND_ONCE);
}

#[test]
fn raw_names_come_back_out() {
    let right = RecvRight::from_raw_name(0x1203);
    assert_eq!(right.as_raw_name(), 0x1203);
    assert_eq!((&right).as_raw_name(), 0x1203);
    assert_eq!(right.into_raw_name(), 0x1203);
    assert_eq!(SendRight::from_raw_name(8).into_raw_name(), 8);
    assert_eq!(SendOnceRight::from_raw_name(9).into_raw_name(), 9);
}

#[test]
fn allocate_and_make_send_describe_their_calls() {
    assert_eq!(RecvRight::allocate_call(), PortAllocate { right: MACH_PORT_RIGHT_RECEIVE });
    let right = RecvRight::allocate(KERN_SUCCESS, 0x1203);
    assert_eq!(
        right.make_send_call(),
        InsertRight { name: 0x1203, poly: 0x1203, poly_type: MACH_MSG_TYPE_MAKE_SEND }
    );
    let send = right.make_send(KERN_SUCCESS);
    let again = right.make_send(KERN_SUCCESS);
    assert_eq!(send.as_raw_name(), 0x1203);
    assert_eq!(again.as_raw_name(), 0x1203);
    assert_eq!(right.as_raw_name(), 0x1203);
}

#[test]
fn any_send_right_wraps_both_classes() {
    assert!(matches!(AnySendRight::from(SendRight::from_raw_name(1)), AnySendRight::Send(_)));
    assert!(matches!(
        AnySendRight::from(SendOnceRight::from_raw_name(1)),
        AnySendRight::SendOnce(_)
    ));
}

#[test]
fn send_result_passes_the_error_on() {
    assert_eq!(send_result(KERN_SUCCESS), Ok(()));
    let error = send_result(0x1000_0003 | 0x2000).unwrap_err();
    assert_eq!(error.bits(), 0x1000_2003);
    assert_eq!(error.kind(), SendErrorKind::InvalidDest);
    assert!(error.ipc_space());
}

#[test]
fn recv_describes_its_call_and_passes_the_error_on() {
    let right = RecvRight::from_raw_name(0x1203);
    assert_eq!(
        right.recv_call(),
        MsgCall {
            option: MACH_RCV_MSG,
            send_size: 0,
            rcv_size: 4096,
            rcv_name: 0x1203,
            timeout: 0,
            notify: 0
        }
    );
    let mut buffer = Buffer::with_capacity(64);
    buffer.append(b"kept");
    let (error, buffer) = right.recv(buffer, MACH_RCV_TIMED_OUT).unwrap_err();
    assert_eq!(error.kind(), RecvErrorKind::TimedOut);
    assert_eq!(error.bits(), MACH_RCV_TIMED_OUT);
    assert_eq!(buffer.body(), b"kept");
}
