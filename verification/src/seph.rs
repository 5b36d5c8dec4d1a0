//! Tags of the packets the SE proxy hardware layer delivers: each raw
//! packet is `[tag, len_hi, len_lo, payload...]`, and the tag selects how
//! the engine treats it.

use vstd::prelude::*;

verus! {

/// The recognized transport packet tags; every other tag is `Unknown` and
/// silently ignored by the engine.
#[derive(Copy, Clone, Debug, PartialEq, Eq, Structural)]
pub enum Events {
    /// A raw two-bit button sample.
    ButtonPush,
    /// A generic USB control event, handled by the USB driver.
    USBEvent,
    /// A USB endpoint transfer-progress event, handled by the USB driver.
    USBXFEREvent,
    /// A command APDU delivered whole on the raw channel.
    CAPDUEvent,
    /// An incoming Bluetooth LE write, handled by the BLE driver.
    BLEReceive,
    /// A periodic timer tick.
    TickerEvent,
    /// Any tag the engine does not recognize.
    Unknown,
}

/// Which event a raw packet tag denotes.
pub open spec fn spec_event_from_tag(tag: u8) -> Events {
    match tag {
        0x05u8 => Events::ButtonPush,
        0x0eu8 => Events::TickerEvent,
        0x0fu8 => Events::USBEvent,
        0x13u8 => Events::USBXFEREvent,
        0x16u8 => Events::CAPDUEvent,
        0x18u8 => Events::BLEReceive,
        _ => Events::Unknown,
    }
}

impl Events {
    /// Decode a raw packet tag.
    pub fn from_tag(tag: u8) -> (e: Events)
        ensures
            e == spec_event_from_tag(tag),
    {
        match tag {
            0x05 => Events::ButtonPush,
            0x0e => Events::TickerEvent,
            0x0f => Events::USBEvent,
            0x13 => Events::USBXFEREvent,
            0x16 => Events::CAPDUEvent,
            0x18 => Events::BLEReceive,
            _ => Events::Unknown,
        }
    }
}

} // verus!
