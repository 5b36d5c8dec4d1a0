//! Tests of the full receive cycle: packet decoding, button edges, the
//! built-in system commands, CLA filtering and application dispatch.

use apdu_comm::buttons::{get_button_event, ButtonEvent, ButtonsState};
use apdu_comm::comm::{ApduHeader, ApduState, Comm, Event, TryFromApdu};
use apdu_comm::seph::Events;
use apdu_comm::status::{Reply, StatusWords};

/// A toy instruction set: accepts INS 0x02 and 0x03, refuses the rest.
#[derive(Debug, PartialEq, Eq)]
enum Instruction {
    Select,
    ReadBinary,
}

impl TryFromApdu for Instruction {
    fn try_from_apdu(header: ApduHeader) -> Result<Self, Reply> {
        match header.ins {
            0x02 => Ok(Instruction::Select),
            0x03 => Ok(Instruction::ReadBinary),
            _ => Err(Reply(StatusWords::BadIns.value())),
        }
    }
}

/// A packet of a command APDU delivered whole: tag, big-endian length,
/// payload, zero-padded to the fixed 128-byte packet size.
fn capdu_packet(payload: &[u8]) -> Vec<u8> {
    let mut pkt = vec![0u8; 128];
    pkt[0] = 0x16;
    pkt[1] = (payload.len() >> 8) as u8;
    pkt[2] = payload.len() as u8;
    pkt[3..3 + payload.len()].copy_from_slice(payload);
    pkt
}

/// A raw button packet carrying one two-bit sample.
fn button_packet(sample: u8) -> Vec<u8> {
    let mut pkt = vec![0u8; 128];
    pkt[0] = 0x05;
    pkt[1] = 0;
    pkt[2] = 1;
    pkt[3] = sample << 1;
    pkt
}

#[test]
fn tag_decoding() {
    assert!(matches!(Events::from_tag(0x05), Events::ButtonPush));
    assert!(matches!(Events::from_tag(0x0e), Events::TickerEvent));
    assert!(matches!(Events::from_tag(0x0f), Events::USBEvent));
    assert!(matches!(Events::from_tag(0x13), Events::USBXFEREvent));
    assert!(matches!(Events::from_tag(0x16), Events::CAPDUEvent));
    assert!(matches!(Events::from_tag(0x18), Events::BLEReceive));
    assert!(matches!(Events::from_tag(0x42), Events::Unknown));
}

#[test]
fn ticker_packet_yields_ticker_event() {
    let mut c = Comm::new();
    let mut pkt = vec![0u8; 128];
    pkt[0] = 0x0e;
    let ev = c.decode_event::<Instruction>(&pkt);
    assert!(matches!(ev, Some(Event::Ticker)));
    assert!(c.outbox.is_none());
}

#[test]
fn unknown_packet_is_ignored() {
    let mut c = Comm::new();
    let mut pkt = vec![0u8; 128];
    pkt[0] = 0x42;
    let ev = c.decode_event::<Instruction>(&pkt);
    assert!(ev.is_none());
    assert!(c.outbox.is_none());
    assert!(matches!(c.apdu_state, ApduState::Idle));
}

#[test]
fn button_press_release_cycle() {
    // sample sequence 00 -> 01 -> 00: exactly one press, one release
    let mut s = ButtonsState::new();
    assert!(get_button_event(&mut s, 0).is_none());
    assert!(matches!(get_button_event(&mut s, 1), Some(ButtonEvent::LeftButtonPress)));
    assert!(get_button_event(&mut s, 1).is_none());
    assert!(matches!(get_button_event(&mut s, 0), Some(ButtonEvent::LeftButtonRelease)));
    assert!(get_button_event(&mut s, 0).is_none());
}

#[test]
fn button_both_pressed_and_released() {
    let mut s = ButtonsState::new();
    assert!(matches!(get_button_event(&mut s, 3), Some(ButtonEvent::BothButtonsPress)));
    assert!(matches!(get_button_event(&mut s, 0), Some(ButtonEvent::BothButtonsRelease)));
    // right button alone
    assert!(matches!(get_button_event(&mut s, 2), Some(ButtonEvent::RightButtonPress)));
    assert!(matches!(get_button_event(&mut s, 0), Some(ButtonEvent::RightButtonRelease)));
}

#[test]
fn button_packets_through_engine() {
    let mut c = Comm::new();
    let idle = c.decode_event::<Instruction>(&button_packet(0));
    assert!(idle.is_none());
    let press = c.decode_event::<Instruction>(&button_packet(1));
    assert!(matches!(press, Some(Event::Button(ButtonEvent::LeftButtonPress))));
    let release = c.decode_event::<Instruction>(&button_packet(0));
    assert!(matches!(release, Some(Event::Button(ButtonEvent::LeftButtonRelease))));
    let idle_again = c.decode_event::<Instruction>(&button_packet(0));
    assert!(idle_again.is_none());
}

#[test]
fn short_command_replied_bad_len() {
    let mut c = Comm::new();
    // only 2 bytes delivered: no complete header
    let ev = c.decode_event::<Instruction>(&capdu_packet(&[0xe0, 0x02]));
    assert!(ev.is_none());
    let frame = c.outbox.take().unwrap();
    assert_eq!(frame.data, vec![0x6e, 0x03]);
}

#[test]
fn inconsistent_length_replied_bad_len() {
    let mut c = Comm::new();
    // header plus a length byte declaring more data than delivered
    let ev = c.decode_event::<Instruction>(&capdu_packet(&[0xe0, 0x02, 0x00, 0x00, 0x09]));
    assert!(ev.is_none());
    let frame = c.outbox.take().unwrap();
    assert_eq!(frame.data, vec![0x6e, 0x03]);
}

#[test]
fn bolos_get_app_info() {
    let mut c = Comm::new();
    c.set_app_identity(&[0x44, 0x65, 0x6d, 0x6f], &[0x31, 0x2e, 0x30]);
    let ev = c.decode_event::<Instruction>(&capdu_packet(&[0xb0, 0x01, 0x00, 0x00]));
    assert!(ev.is_none());
    let frame = c.outbox.take().unwrap();
    assert_eq!(
        frame.data,
        vec![0x01, 4, 0x44, 0x65, 0x6d, 0x6f, 3, 0x31, 0x2e, 0x30, 0x90, 0x00]
    );
    assert!(!c.exit_requested);
}

#[test]
fn bolos_exit_replies_ok_and_requests_exit() {
    let mut c = Comm::new();
    let ev = c.decode_event::<Instruction>(&capdu_packet(&[0xb0, 0xa7, 0x00, 0x00]));
    assert!(ev.is_none());
    assert!(c.exit_requested);
    let frame = c.outbox.take().unwrap();
    assert_eq!(frame.data, vec![0x90, 0x00]);
}

#[test]
fn bolos_unknown_ins_replied_bad_ins() {
    let mut c = Comm::new();
    let ev = c.decode_event::<Instruction>(&capdu_packet(&[0xb0, 0x55, 0x00, 0x00]));
    assert!(ev.is_none());
    let frame = c.outbox.take().unwrap();
    assert_eq!(frame.data, vec![0x6e, 0x01]);
}

#[test]
fn bolos_needs_zero_parameters() {
    // with a non-zero P1 the built-in interceptor stays out of the way and
    // the application decoder sees the command
    let mut c = Comm::new();
    let ev = c.decode_event::<Instruction>(&capdu_packet(&[0xb0, 0x02, 0x01, 0x00]));
    assert!(matches!(ev, Some(Event::Command(Instruction::Select))));
    assert!(c.outbox.is_none());
}

#[test]
fn cla_filter_rejects_other_classes() {
    let mut c = Comm::new().set_expected_cla(0xe0);
    let ev = c.decode_event::<Instruction>(&capdu_packet(&[0xd0, 0x02, 0x00, 0x00]));
    // the application decoder accepts INS 0x02, so a Command event here
    // would mean the decoder ran: it must not
    assert!(ev.is_none());
    let frame = c.outbox.take().unwrap();
    assert_eq!(frame.data, vec![0x6e, 0x00]);
}

#[test]
fn cla_filter_passes_expected_class() {
    let mut c = Comm::new().set_expected_cla(0xe0);
    let ev = c.decode_event::<Instruction>(&capdu_packet(&[0xe0, 0x03, 0x00, 0x00]));
    assert!(matches!(ev, Some(Event::Command(Instruction::ReadBinary))));
}

#[test]
fn decoder_refusal_replied_automatically() {
    let mut c = Comm::new();
    let ev = c.decode_event::<Instruction>(&capdu_packet(&[0xe0, 0x7f, 0x00, 0x00]));
    assert!(ev.is_none());
    let frame = c.outbox.take().unwrap();
    assert_eq!(frame.data, vec![0x6e, 0x01]);
}

#[test]
fn end_to_end_command_and_reply() {
    let mut c = Comm::new();
    let ev = c.decode_event::<Instruction>(&capdu_packet(&[0x01, 0x02, 0x00, 0x00]));
    assert!(matches!(ev, Some(Event::Command(Instruction::Select))));
    assert_eq!(c.rx, 4);
    c.reply_ok();
    let frame = c.outbox.take().unwrap();
    // the reply goes out over the transport that delivered the command
    assert!(matches!(frame.transport, ApduState::Raw));
    assert_eq!(frame.data, vec![0x90, 0x00]);
    assert_eq!(c.tx, 0);
    assert_eq!(c.rx, 0);
    assert!(matches!(c.apdu_state, ApduState::Idle));
}

#[test]
fn command_with_data_end_to_end() {
    let mut c = Comm::new();
    let ev = c.decode_event::<Instruction>(&capdu_packet(&[0xe0, 0x03, 0x00, 0x00, 2, 0xca, 0xfe]));
    assert!(matches!(ev, Some(Event::Command(Instruction::ReadBinary))));
    let d = c.get_data().unwrap().to_vec();
    assert_eq!(d, vec![0xca, 0xfe]);
    c.append(&[0x42]);
    c.reply(StatusWords::OK);
    let frame = c.outbox.take().unwrap();
    assert_eq!(frame.data, vec![0x42, 0x90, 0x00]);
}

#[test]
fn second_capdu_while_pending_is_ignored() {
    let mut c = Comm::new();
    let ev = c.decode_event::<Instruction>(&capdu_packet(&[0xe0, 0x02, 0x00, 0x00]));
    assert!(matches!(ev, Some(Event::Command(Instruction::Select))));
    // while the first command is pending, the engine stays on it
    let ev2 = c.decode_event::<Instruction>(&capdu_packet(&[0xe0, 0x03, 0x00, 0x00]));
    assert!(matches!(ev2, Some(Event::Command(Instruction::Select))));
}
