//! Tests of status words, syscall-error mapping and the reply encoder.

use apdu_comm::comm::{ApduState, Comm};
use apdu_comm::status::{IntoReply, Reply, StatusWords, SyscallError};

#[test]
fn status_word_values() {
    assert_eq!(StatusWords::OK.value(), 0x9000);
    assert_eq!(StatusWords::NothingReceived.value(), 0x6982);
    assert_eq!(StatusWords::BadCla.value(), 0x6e00);
    assert_eq!(StatusWords::BadIns.value(), 0x6e01);
    assert_eq!(StatusWords::BadP1P2.value(), 0x6e02);
    assert_eq!(StatusWords::BadLen.value(), 0x6e03);
    assert_eq!(StatusWords::UserCancelled.value(), 0x6e04);
    assert_eq!(StatusWords::Unknown.value(), 0x6d00);
    assert_eq!(StatusWords::Panic.value(), 0xe000);
}

#[test]
fn syscall_error_from_code() {
    assert!(matches!(SyscallError::from(2u32), SyscallError::InvalidParameter));
    assert!(matches!(SyscallError::from(4u32), SyscallError::Security));
    assert!(matches!(SyscallError::from(10u32), SyscallError::Timeout));
    assert!(matches!(SyscallError::from(0u32), SyscallError::Unspecified));
    assert!(matches!(SyscallError::from(99u32), SyscallError::Unspecified));
}

#[test]
fn syscall_error_maps_into_status_range() {
    assert_eq!(SyscallError::InvalidParameter.into_reply(), Reply(0x6802));
    assert_eq!(SyscallError::Security.into_reply(), Reply(0x6804));
    assert_eq!(SyscallError::Unspecified.into_reply(), Reply(0x680b));
}

#[test]
fn status_word_into_reply() {
    assert_eq!(StatusWords::OK.into_reply(), Reply(0x9000));
    assert_eq!(Reply(0x1234).into_reply(), Reply(0x1234));
    assert_eq!(Reply::from(StatusWords::BadCla), Reply(0x6e00));
    assert_eq!(Reply::from(SyscallError::Timeout), Reply(0x680a));
}

#[test]
fn reply_ok_writes_status_bytes() {
    let mut c = Comm::new();
    c.apdu_state = ApduState::Raw;
    assert_eq!(c.tx, 0);
    c.reply_ok();
    assert_eq!(c.apdu_buffer[0], 0x90);
    assert_eq!(c.apdu_buffer[1], 0x00);
    assert_eq!(c.tx, 0);
    assert_eq!(c.rx, 0);
    let frame = c.outbox.take().unwrap();
    assert!(matches!(frame.transport, ApduState::Raw));
    assert_eq!(frame.data, vec![0x90, 0x00]);
}

#[test]
fn reply_syscall_security_yields_6804() {
    let mut c = Comm::new();
    c.apdu_state = ApduState::UsbHid;
    c.reply(SyscallError::Security);
    let frame = c.outbox.take().unwrap();
    assert!(matches!(frame.transport, ApduState::UsbHid));
    assert_eq!(frame.data, vec![0x68, 0x04]);
}

#[test]
fn reply_appends_status_after_data() {
    let mut c = Comm::new();
    c.apdu_state = ApduState::Raw;
    c.append(&[0x61, 0x62]);
    c.reply(StatusWords::Unknown);
    let frame = c.outbox.take().unwrap();
    assert_eq!(frame.data, vec![0x61, 0x62, 0x6d, 0x00]);
}

#[test]
fn reply_while_idle_sends_nothing_but_resets() {
    let mut c = Comm::new();
    c.rx = 7;
    c.reply_ok();
    assert!(c.outbox.is_none());
    assert_eq!(c.tx, 0);
    assert_eq!(c.rx, 0);
}
