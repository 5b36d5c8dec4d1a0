//! The communication engine: owns the shared 260-byte APDU buffer and its
//! receive/transmit cursors, decodes incoming transport packets, parses the
//! APDU length field, serves the built-in system commands, filters on the
//! expected class byte, and encodes status-word replies.
//!
//! The engine is a pure state machine: the blocking receive of raw packets
//! and the physical transmission are the host shell's work. A frame ready
//! to go out is placed in [`Comm::outbox`] for the shell to send, and a
//! request to terminate the application raises [`Comm::exit_requested`].

use vstd::prelude::*;

use crate::buttons::{get_button_event, ButtonEvent, ButtonsState};
use crate::buttons::{spec_button_event, spec_next_mask};
use crate::seph::{spec_event_from_tag, Events};
use crate::status::{spec_syscall_code, IntoReply, Reply, StatusWords};

verus! {

/// The transport over which the current command arrived, or `Idle` when no
/// command is pending. The reply goes back over the same transport.
#[derive(Copy, Clone, Debug, PartialEq, Eq, Structural)]
pub enum ApduState {
    Idle,
    UsbHid,
    Raw,
    UsbCcid,
    Ble,
}

/// The four raw header bytes of an APDU.
#[derive(Copy, Clone, Debug, PartialEq, Eq, Structural)]
pub struct ApduHeader {
    /// Class
    pub cla: u8,
    /// Instruction
    pub ins: u8,
    /// Parameter 1
    pub p1: u8,
    /// Parameter 2
    pub p2: u8,
}

/// Events returned by the engine to the application.
#[derive(PartialEq, Eq)]
pub enum Event<T> {
    /// A complete application command.
    Command(T),
    /// A button press or release edge.
    Button(ButtonEvent),
    /// A periodic timer tick.
    Ticker,
}

/// An application command type built from the 4-byte APDU header. The
/// conversion may reject headers it does not understand with the status
/// word to reply with.
pub trait TryFromApdu: Sized {
    /// Decode the header, or give the status word that refuses it.
    fn try_from_apdu(header: ApduHeader) -> Result<Self, Reply>;
}

/// A frame handed to the active transport for physical transmission.
pub struct TxPacket {
    /// The transport that must carry the frame.
    pub transport: ApduState,
    /// The frame's bytes: response data followed by the status word.
    pub data: Vec<u8>,
}

/// The mathematical value of a [`TxPacket`].
#[verifier::ext_equal]
pub ghost struct TxView {
    pub transport: ApduState,
    pub data: Seq<u8>,
}

impl View for TxPacket {
    type V = TxView;

    open spec fn view(&self) -> TxView {
        TxView { transport: self.transport, data: self.data@ }
    }
}

/// Manages the communication of the device: decodes incoming events such
/// as button samples and APDU requests, and builds and hands out APDU
/// responses.
pub struct Comm {
    /// The shared buffer holding the received command and, afterwards, the
    /// outgoing response. Always exactly 260 bytes.
    pub apdu_buffer: Vec<u8>,
    /// Number of valid received bytes in the buffer.
    pub rx: usize,
    /// Number of response bytes built so far in the buffer.
    pub tx: usize,
    /// State of the button-edge detector.
    pub buttons: ButtonsState,
    /// Expected value for the APDU CLA byte. If set, the engine replies
    /// `BadCla` on its own to any command with a different class byte; if
    /// `None`, all classes pass through.
    pub expected_cla: Option<u8>,
    /// Which transport delivered the command being processed; `Idle` when
    /// none is pending.
    pub apdu_state: ApduState,
    /// Total length the transport signalled for the delivered command.
    pub apdu_length: usize,
    /// The registered application name, served by the built-in
    /// get-app-info command.
    pub app_name: Vec<u8>,
    /// The registered application version, served alongside the name.
    pub app_version: Vec<u8>,
    /// The most recent frame handed to the transport layer; the host shell
    /// drains it and performs the physical send.
    pub outbox: Option<TxPacket>,
    /// Raised by the built-in exit command; the host shell must then
    /// terminate the application.
    pub exit_requested: bool,
}

/// The mathematical value of a [`Comm`].
#[verifier::ext_equal]
pub ghost struct CommView {
    pub buffer: Seq<u8>,
    pub rx: int,
    pub tx: int,
    pub button_mask: u8,
    pub expected_cla: Option<u8>,
    pub apdu_state: ApduState,
    pub apdu_length: int,
    pub app_name: Seq<u8>,
    pub app_version: Seq<u8>,
    pub outbox: Option<TxView>,
    pub exit_requested: bool,
}

impl View for Comm {
    type V = CommView;

    open spec fn view(&self) -> CommView {
        CommView {
            buffer: self.apdu_buffer@,
            rx: self.rx as int,
            tx: self.tx as int,
            button_mask: self.buttons.button_mask,
            expected_cla: self.expected_cla,
            apdu_state: self.apdu_state,
            apdu_length: self.apdu_length as int,
            app_name: self.app_name@,
            app_version: self.app_version@,
            outbox: match self.outbox {
                Some(p) => Some(p@),
                None => None,
            },
            exit_requested: self.exit_requested,
        }
    }
}

impl CommView {
    /// Well-formedness: the buffer has its fixed capacity and every cursor
    /// and signalled length stays within it; the registered identity is
    /// short enough that the get-app-info response always fits.
    pub open spec fn wf(self) -> bool {
        &&& self.buffer.len() == 260
        &&& 0 <= self.rx <= 260
        &&& 0 <= self.tx <= 260
        &&& 0 <= self.apdu_length <= 260
        &&& self.app_name.len() <= 64
        &&& self.app_version.len() <= 64
    }

    /// The transport has signalled a complete command of positive length.
    pub open spec fn command_ready(self) -> bool {
        self.apdu_state != ApduState::Idle && self.apdu_length > 0
    }
}

impl Comm {
    /// Creates a new engine, which accepts any CLA APDU by default.
    pub fn new() -> (c: Comm)
        ensures
            c@.wf(),
            c@.buffer == Seq::new(260, |i: int| 0u8),
            c@.rx == 0,
            c@.tx == 0,
            c@.button_mask == 0,
            c@.expected_cla is None,
            c@.apdu_state == ApduState::Idle,
            c@.apdu_length == 0,
            c@.app_name == Seq::<u8>::empty(),
            c@.app_version == Seq::<u8>::empty(),
            c@.outbox is None,
            !c@.exit_requested,
    {
        let mut buffer: Vec<u8> = Vec::new();
        let mut i: usize = 0;
        while i < 260
            invariant
                i <= 260,
                buffer@ == Seq::new(i as nat, |j: int| 0u8),
            decreases 260 - i,
        {
            buffer.push(0);
            proof {
                assert(buffer@ =~= Seq::new((i + 1) as nat, |j: int| 0u8));
            }
            i += 1;
        }
        let c = Comm {
            apdu_buffer: buffer,
            rx: 0,
            tx: 0,
            buttons: ButtonsState::new(),
            expected_cla: None,
            apdu_state: ApduState::Idle,
            apdu_length: 0,
            app_name: Vec::new(),
            app_version: Vec::new(),
            outbox: None,
            exit_requested: false,
        };
        c
    }

    /// Defines the expected CLA byte: afterwards the engine replies
    /// `BadCla` on its own to any incoming APDU whose class byte differs.
    pub fn set_expected_cla(self, cla: u8) -> (c: Comm)
        ensures
            c@ == (CommView { expected_cla: Some(cla), ..self@ }),
    {
        let ghost pre = self@;
        let mut c = self;
        c.expected_cla = Some(cla);
        proof {
            assert(c@ =~= (CommView { expected_cla: Some(cla), ..pre }));
        }
        c
    }

    /// Registers the application's name and version, served by the
    /// built-in get-app-info command. On the device these come from the
    /// operating system's application registry.
    pub fn set_app_identity(&mut self, name: &[u8], version: &[u8])
        requires
            name@.len() <= 64,
            version@.len() <= 64,
        ensures
            final(self)@ == (CommView {
                app_name: name@,
                app_version: version@,
                ..old(self)@
            }),
    {
        self.app_name = slice_to_vec_u8(name);
        self.app_version = slice_to_vec_u8(version);
        proof {
            assert(final(self)@ =~= (CommView {
                app_name: name@,
                app_version: version@,
                ..old(self)@
            }));
        }
    }

    /// Return the APDU header: the first four bytes of the buffer.
    pub fn get_apdu_metadata(&self) -> (h: ApduHeader)
        requires
            self@.wf(),
        ensures
            h.cla == self@.buffer[0],
            h.ins == self@.buffer[1],
            h.p1 == self@.buffer[2],
            h.p2 == self@.buffer[3],
    {
        ApduHeader {
            cla: self.apdu_buffer[0],
            ins: self.apdu_buffer[1],
            p1: self.apdu_buffer[2],
            p2: self.apdu_buffer[3],
        }
    }

    /// The buffer bytes from `start` (inclusive) to `end` (exclusive).
    pub fn get(&self, start: usize, end: usize) -> (r: &[u8])
        requires
            self@.wf(),
            start <= end <= 260,
        ensures
            r@ == self@.buffer.subrange(start as int, end as int),
    {
        vstd::slice::slice_subrange(self.apdu_buffer.as_slice(), start, end)
    }

    /// Append bytes to the response under construction, advancing the
    /// transmit cursor past them.
    pub fn append(&mut self, m: &[u8])
        requires
            old(self)@.wf(),
            old(self)@.tx + m@.len() <= 260,
        ensures
            final(self)@ == (CommView {
                buffer: old(self)@.buffer.take(old(self)@.tx)
                    .add(m@)
                    .add(old(self)@.buffer.skip(old(self)@.tx + m@.len())),
                tx: old(self)@.tx + m@.len(),
                ..old(self)@
            }),
    {
        let ghost pre = self@;
        let mut i: usize = 0;
        while i < m.len()
            invariant
                pre.wf(),
                i <= m@.len(),
                pre.tx + m@.len() <= 260,
                self@ == (CommView {
                    buffer: self@.buffer,
                    tx: pre.tx + i,
                    ..pre
                }),
                self@.buffer.len() == 260,
                forall|j: int| 0 <= j < pre.tx ==> self@.buffer[j] == pre.buffer[j],
                forall|j: int| 0 <= j < i ==> self@.buffer[pre.tx + j] == m@[j],
                forall|j: int| pre.tx + m@.len() <= j < 260 ==> self@.buffer[j] == pre.buffer[j],
            decreases m@.len() - i,
        {
            let c = m[i];
            let t = self.tx;
            self.apdu_buffer[t] = c;
            self.tx = t + 1;
            i += 1;
        }
        proof {
            assert(final(self)@.buffer =~= pre.buffer.take(pre.tx)
                .add(m@)
                .add(pre.buffer.skip(pre.tx + m@.len())));
            assert(final(self)@ =~= (CommView {
                buffer: pre.buffer.take(pre.tx).add(m@).add(pre.buffer.skip(pre.tx + m@.len())),
                tx: pre.tx + m@.len(),
                ..pre
            }));
        }
    }

    /// Read byte `i` of the shared buffer.
    pub fn get_byte(&self, i: usize) -> (b: u8)
        requires
            self@.wf(),
            i < 260,
        ensures
            b == self@.buffer[i as int],
    {
        self.apdu_buffer[i]
    }

    /// Write byte `i` of the shared buffer, advancing the transmit cursor
    /// to `i` if it was lower: response bytes may be laid down in any
    /// order.
    pub fn set_byte(&mut self, i: usize, b: u8)
        requires
            old(self)@.wf(),
            i < 260,
        ensures
            final(self)@ == (CommView {
                buffer: old(self)@.buffer.update(i as int, b),
                tx: if i as int > old(self)@.tx { i as int } else { old(self)@.tx },
                ..old(self)@
            }),
    {
        self.tx = if i > self.tx { i } else { self.tx };
        self.apdu_buffer[i] = b;
        proof {
            assert(final(self)@ =~= (CommView {
                buffer: old(self)@.buffer.update(i as int, b),
                tx: if i as int > old(self)@.tx { i as int } else { old(self)@.tx },
                ..old(self)@
            }));
        }
    }
}

/// The data field that a received command of `rx` valid bytes declares,
/// or `None` where the length encoding is absent or inconsistent (the
/// engine then replies `BadLen`).
///
/// A 4-byte command has no data. Otherwise the 5th byte is the first
/// length byte: if it is zero, exactly five bytes are the legacy
/// non-conforming zero-data form, exactly six bytes claim an extended
/// length header that is not there, and more announce the extended
/// encoding, a little-endian 16-bit length in bytes 5 and 6 with the data
/// from offset 7. A non-zero 5th byte is the short encoding: the byte
/// itself is the length and the data starts at offset 5. In both
/// encodings a zero length or one reaching past `rx` is rejected.
pub open spec fn spec_apdu_data(buffer: Seq<u8>, rx: int) -> Option<Seq<u8>> {
    if rx == 4 {
        Some(Seq::empty())
    } else {
        let first = buffer[4] as int;
        if first == 0 {
            if rx == 5 {
                Some(Seq::empty())
            } else if rx == 6 {
                None
            } else {
                let len = buffer[5] as int + 256 * (buffer[6] as int);
                if len == 0 || 7 + len > rx {
                    None
                } else {
                    Some(buffer.subrange(7, 7 + len))
                }
            }
        } else {
            if 5 + first > rx {
                None
            } else {
                Some(buffer.subrange(5, 5 + first))
            }
        }
    }
}

impl Comm {
    /// The data field bounded by `len` and `offset`, or `BadLen` where the
    /// declared length is zero or reaches past the received bytes.
    fn get_data_from_buffer(&self, len: usize, offset: usize) -> (r: Result<&[u8], StatusWords>)
        requires
            self@.wf(),
            offset == 5 || offset == 7,
            len <= 0xffff,
        ensures
            (match r {
                Ok(data) => len != 0 && offset + len <= self@.rx
                    && data@ == self@.buffer.subrange(offset as int, offset + len),
                Err(sw) => sw == StatusWords::BadLen && (len == 0 || offset + len > self@.rx),
            }),
    {
        if len == 0 || len + offset > self.rx {
            Err(StatusWords::BadLen)
        } else {
            Ok(self.get(offset, offset + len))
        }
    }

    /// Parse the data field following the 4-byte header, under the short
    /// and the non-conforming extended length encodings.
    pub fn get_data(&self) -> (r: Result<&[u8], StatusWords>)
        requires
            self@.wf(),
        ensures
            (match r {
                Ok(data) => spec_apdu_data(self@.buffer, self@.rx) == Some(data@),
                Err(sw) => sw == StatusWords::BadLen
                    && spec_apdu_data(self@.buffer, self@.rx) is None,
            }),
    {
        if self.rx == 4 {
            // Conforming zero-data APDU
            Ok(self.get(0, 0))
        } else {
            let first_len_byte = self.apdu_buffer[4] as usize;
            match (first_len_byte, self.rx) {
                (0, 5) => Ok(self.get(0, 0)),  // Non-conforming zero-data APDU
                (0, 6) => Err(StatusWords::BadLen),
                (0, _) => {
                    let len = self.apdu_buffer[5] as usize + 256 * (self.apdu_buffer[6] as usize);
                    self.get_data_from_buffer(len, 7)
                },
                (len, _) => self.get_data_from_buffer(len, 5),
            }
        }
    }
}

/// Law: every 4-byte command has an empty data field, whatever the buffer
/// holds.
pub proof fn lemma_data_conforming_empty(buffer: Seq<u8>, rx: int)
    requires
        rx == 4,
    ensures
        spec_apdu_data(buffer, rx) == Some(Seq::<u8>::empty()),
{
}

/// Law: five received bytes whose length byte is zero are the legacy
/// non-conforming zero-data form, accepted with empty data.
pub proof fn lemma_data_nonconforming_empty(buffer: Seq<u8>)
    requires
        buffer[4] == 0,
    ensures
        spec_apdu_data(buffer, 5) == Some(Seq::<u8>::empty()),
{
}

/// Law: six received bytes whose length byte is zero claim an extended
/// length header with too few bytes behind it, and are rejected.
pub proof fn lemma_data_truncated_extended(buffer: Seq<u8>)
    requires
        buffer[4] == 0,
    ensures
        spec_apdu_data(buffer, 6) is None,
{
}

/// Law: with more than six received bytes and a zero length byte, the
/// little-endian 16-bit length L of bytes 5 and 6 selects bytes 7..7+L,
/// accepted exactly when L is non-zero and 7+L lies within `rx`.
pub proof fn lemma_data_extended(buffer: Seq<u8>, rx: int)
    requires
        rx > 6,
        buffer[4] == 0,
    ensures
        ({
            let len = buffer[5] as int + 256 * (buffer[6] as int);
            spec_apdu_data(buffer, rx) == if len != 0 && 7 + len <= rx {
                Some(buffer.subrange(7, 7 + len))
            } else {
                None::<Seq<u8>>
            }
        }),
{
}

/// Law: a non-zero length byte L is the short encoding and selects bytes
/// 5..5+L, accepted exactly when 5+L lies within `rx`. (A 4-byte command
/// is zero-data before its 5th buffer byte is ever looked at.)
pub proof fn lemma_data_short(buffer: Seq<u8>, rx: int)
    requires
        rx != 4,
        buffer[4] != 0,
    ensures
        ({
            let len = buffer[4] as int;
            spec_apdu_data(buffer, rx) == if 5 + len <= rx {
                Some(buffer.subrange(5, 5 + len))
            } else {
                None::<Seq<u8>>
            }
        }),
{
}

/// High byte of a status word: transmitted first (big-endian).
pub open spec fn sw_hi(sw: u16) -> u8 {
    (sw >> 8) as u8
}

/// Low byte of a status word.
pub open spec fn sw_lo(sw: u16) -> u8 {
    sw as u8
}

/// The engine's state after the status word `sw` has been appended at the
/// transmit cursor of `pre` and the response transmitted: the frame (all
/// response bytes built so far, then the big-endian status word) went out
/// over the transport that delivered the command, and the engine is back
/// to idle with both cursors reset. When no transport delivered a command
/// the frame has nowhere to go and only the reset happens.
pub open spec fn spec_replied(pre: CommView, sw: u16, post: CommView) -> bool {
    &&& post.buffer == pre.buffer.update(pre.tx, sw_hi(sw)).update(pre.tx + 1, sw_lo(sw))
    &&& post.rx == 0
    &&& post.tx == 0
    &&& post.apdu_state == ApduState::Idle
    &&& post.apdu_length == 0
    &&& post.button_mask == pre.button_mask
    &&& post.expected_cla == pre.expected_cla
    &&& post.app_name == pre.app_name
    &&& post.app_version == pre.app_version
    &&& post.exit_requested == pre.exit_requested
    &&& if pre.apdu_state != ApduState::Idle {
        post.outbox matches Some(p) && p.transport == pre.apdu_state && p.data
            == pre.buffer.take(pre.tx).push(sw_hi(sw)).push(sw_lo(sw))
    } else {
        post.outbox == pre.outbox
    }
}

impl Comm {
    /// Hand the response built so far to the transport that delivered the
    /// current command, and reset the engine for the next receive cycle.
    /// With no command pending there is no transport to answer on: only
    /// the reset happens.
    fn apdu_send(&mut self)
        requires
            old(self)@.wf(),
        ensures
            final(self)@.wf(),
            final(self)@.buffer == old(self)@.buffer,
            final(self)@.rx == 0,
            final(self)@.tx == 0,
            final(self)@.apdu_state == ApduState::Idle,
            final(self)@.apdu_length == 0,
            final(self)@.button_mask == old(self)@.button_mask,
            final(self)@.expected_cla == old(self)@.expected_cla,
            final(self)@.app_name == old(self)@.app_name,
            final(self)@.app_version == old(self)@.app_version,
            final(self)@.exit_requested == old(self)@.exit_requested,
            (if old(self)@.apdu_state != ApduState::Idle {
                final(self)@.outbox matches Some(p) && p.transport == old(self)@.apdu_state
                    && p.data == old(self)@.buffer.take(old(self)@.tx)
            } else {
                final(self)@.outbox == old(self)@.outbox
            }),
    {
        if !matches!(self.apdu_state, ApduState::Idle) {
            let frame = slice_to_vec_u8(self.get(0, self.tx));
            let transport = self.apdu_state;
            self.outbox = Some(TxPacket { transport, data: frame });
        }
        self.tx = 0;
        self.rx = 0;
        self.apdu_state = ApduState::Idle;
        self.apdu_length = 0;
    }

    /// Append the status word of `reply` (big-endian) to the response and
    /// transmit it over the transport that delivered the command.
    pub fn reply<T: IntoReply>(&mut self, reply: T)
        requires
            old(self)@.wf(),
            old(self)@.tx + 2 <= 260,
        ensures
            final(self)@.wf(),
            spec_replied(old(self)@, reply.reply_value(), final(self)@),
    {
        let ghost pre = self@;
        let sw = reply.into_reply().0;
        // Append status word
        let t = self.tx;
        self.apdu_buffer[t] = (sw >> 8) as u8;
        self.apdu_buffer[t + 1] = sw as u8;
        self.tx = t + 2;
        // Transmit the response
        self.apdu_send();
        proof {
            assert(final(self)@.buffer =~= pre.buffer.update(pre.tx, sw_hi(sw)).update(
                pre.tx + 1,
                sw_lo(sw),
            ));
            if pre.apdu_state != ApduState::Idle {
                assert(pre.buffer.update(pre.tx, sw_hi(sw)).update(pre.tx + 1, sw_lo(sw)).take(
                    pre.tx + 2,
                ) =~= pre.buffer.take(pre.tx).push(sw_hi(sw)).push(sw_lo(sw)));
            }
        }
    }

    /// Reply with the Ok status word `0x9000` and transmit the response.
    pub fn reply_ok(&mut self)
        requires
            old(self)@.wf(),
            old(self)@.tx + 2 <= 260,
        ensures
            final(self)@.wf(),
            spec_replied(old(self)@, 0x9000, final(self)@),
    {
        self.reply(StatusWords::OK);
    }
}

/// Law: replying with the Ok status on a fresh response (no data bytes
/// built yet) writes exactly 0x90 0x00 at offsets 0 and 1, and the frame
/// that goes out to the transport is exactly those two bytes.
pub proof fn lemma_reply_ok_fresh(pre: CommView, post: CommView)
    requires
        pre.wf(),
        pre.tx == 0,
        spec_replied(pre, 0x9000, post),
    ensures
        post.buffer[0] == 0x90,
        post.buffer[1] == 0x00,
        pre.apdu_state != ApduState::Idle ==> (post.outbox matches Some(p) && p.data =~= seq![
            0x90u8,
            0x00u8,
        ]),
{
    assert(sw_hi(0x9000) == 0x90 && sw_lo(0x9000) == 0x00) by (bit_vector);
    assert(post.buffer[0] == 0x90);
    if pre.apdu_state != ApduState::Idle {
        assert(pre.buffer.take(0).push(0x90u8).push(0x00u8) =~= seq![0x90u8, 0x00u8]);
    }
}

/// Law: a system failure is replied in the reserved 0x68xx range, the
/// status word being 0x6800 plus the failure's numeric code.
pub proof fn lemma_syscall_reply_range(e: crate::status::SyscallError)
    ensures
        e.reply_value() == 0x6800 + spec_syscall_code(e),
        0x6802 <= e.reply_value() <= 0x680b,
{
}

impl Default for Comm {
    /// Same as [`Comm::new`].
    fn default() -> (c: Comm)
        ensures
            c@.wf(),
            c@.buffer == Seq::new(260, |i: int| 0u8),
            c@.rx == 0,
            c@.tx == 0,
            c@.button_mask == 0,
            c@.expected_cla is None,
            c@.apdu_state == ApduState::Idle,
            c@.apdu_length == 0,
            c@.app_name == Seq::<u8>::empty(),
            c@.app_version == Seq::<u8>::empty(),
            c@.outbox is None,
            !c@.exit_requested,
    {
        Comm::new()
    }
}

/// Big-endian 16-bit length field of a raw transport packet
/// `[tag, len_hi, len_lo, payload...]`.
pub open spec fn spec_packet_len(pkt: Seq<u8>) -> int {
    (pkt[1] as int) * 256 + (pkt[2] as int)
}

/// Whether a delivered command packet is taken into the shared buffer: the
/// engine must be idle and the declared payload must be non-empty and lie
/// within both the packet and the buffer.
pub open spec fn spec_capdu_accepted(pre: CommView, pkt: Seq<u8>) -> bool {
    &&& pre.apdu_state == ApduState::Idle
    &&& 1 <= spec_packet_len(pkt)
    &&& 3 + spec_packet_len(pkt) <= pkt.len()
    &&& spec_packet_len(pkt) <= 260
}

/// The engine after a delivered command packet: the payload copied to the
/// front of the buffer and the ready signal set to the raw transport; a
/// packet that is not accepted leaves the engine unchanged.
pub open spec fn spec_after_capdu(pre: CommView, pkt: Seq<u8>) -> CommView {
    if spec_capdu_accepted(pre, pkt) {
        CommView {
            buffer: pkt.subrange(3, 3 + spec_packet_len(pkt)).add(
                pre.buffer.skip(spec_packet_len(pkt)),
            ),
            apdu_state: ApduState::Raw,
            apdu_length: spec_packet_len(pkt),
            ..pre
        }
    } else {
        pre
    }
}

/// The engine after the tag dispatch of one raw packet, for packets that
/// do not short-circuit with an event of their own: a delivered command is
/// taken in, a button sample advances the edge detector, and the
/// housekeeping and unknown tags leave the engine alone (their transport
/// work belongs to the host drivers).
pub open spec fn spec_after_packet(pre: CommView, pkt: Seq<u8>) -> CommView {
    match spec_event_from_tag(pkt[0]) {
        Events::CAPDUEvent => spec_after_capdu(pre, pkt),
        Events::ButtonPush => CommView {
            button_mask: spec_next_mask(pre.button_mask, pkt[3] >> 1),
            ..pre
        },
        _ => pre,
    }
}

/// A packet that neither returns a ticker event nor a button edge: the
/// engine goes on to check whether a complete command is ready.
pub open spec fn spec_packet_proceeds(pre: CommView, pkt: Seq<u8>) -> bool {
    &&& !(spec_event_from_tag(pkt[0]) is TickerEvent)
    &&& !(spec_event_from_tag(pkt[0]) is ButtonPush && spec_button_event(
        pre.button_mask,
        pkt[3] >> 1,
    ) is Some)
}

/// The engine once a ready command's signalled length has been latched
/// into the receive cursor.
pub open spec fn spec_latched(sa: CommView) -> CommView {
    CommView { rx: sa.apdu_length, ..sa }
}

/// The built-in system-command space: class 0xB0 with both parameters
/// zero is intercepted before CLA filtering and application dispatch.
pub open spec fn spec_is_bolos(s: CommView) -> bool {
    s.buffer[0] == 0xb0 && s.buffer[2] == 0x00 && s.buffer[3] == 0x00
}

/// The response of the built-in get-app-info command: a marker byte, the
/// length-prefixed application name, the length-prefixed version, then
/// the Ok status word.
pub open spec fn spec_app_info_frame(name: Seq<u8>, version: Seq<u8>) -> Seq<u8> {
    seq![0x01u8, name.len() as u8].add(name).add(seq![version.len() as u8]).add(version).add(
        seq![0x90u8, 0x00u8],
    )
}

/// The engine's state after the built-in get-app-info command has been
/// served from `pre`: the response frame built at the front of the buffer
/// and transmitted, and the engine reset as after any reply.
pub open spec fn spec_app_info_replied(pre: CommView, post: CommView) -> bool {
    let frame = spec_app_info_frame(pre.app_name, pre.app_version);
    &&& post.buffer == frame.add(pre.buffer.skip(frame.len() as int))
    &&& post.rx == 0
    &&& post.tx == 0
    &&& post.apdu_state == ApduState::Idle
    &&& post.apdu_length == 0
    &&& post.button_mask == pre.button_mask
    &&& post.expected_cla == pre.expected_cla
    &&& post.app_name == pre.app_name
    &&& post.app_version == pre.app_version
    &&& post.exit_requested == pre.exit_requested
    &&& if pre.apdu_state != ApduState::Idle {
        post.outbox matches Some(p) && p.transport == pre.apdu_state && p.data == frame
    } else {
        post.outbox == pre.outbox
    }
}

impl Comm {
    /// Append one response byte at the transmit cursor.
    fn push_byte(&mut self, b: u8)
        requires
            old(self)@.wf(),
            old(self)@.tx < 260,
        ensures
            final(self)@ == (CommView {
                buffer: old(self)@.buffer.update(old(self)@.tx, b),
                tx: old(self)@.tx + 1,
                ..old(self)@
            }),
    {
        let t = self.tx;
        self.apdu_buffer[t] = b;
        self.tx = t + 1;
        proof {
            assert(final(self)@ =~= (CommView {
                buffer: old(self)@.buffer.update(old(self)@.tx, b),
                tx: old(self)@.tx + 1,
                ..old(self)@
            }));
        }
    }

    /// Take one delivered command packet into the shared buffer: the
    /// payload is copied to the front and the ready signal set to the raw
    /// transport. A packet whose declared payload is empty or does not lie
    /// within the packet and the buffer is ignored, as is any packet that
    /// arrives while a command is already pending.
    pub fn handle_capdu_event(&mut self, spi_buffer: &[u8])
        requires
            old(self)@.wf(),
            spi_buffer@.len() >= 3,
        ensures
            final(self)@.wf(),
            final(self)@ == spec_after_capdu(old(self)@, spi_buffer@),
    {
        let ghost pre = self@;
        if matches!(self.apdu_state, ApduState::Idle) {
            let len = (*vstd::slice::slice_index_get(spi_buffer, 1) as usize) * 256 + (
            *vstd::slice::slice_index_get(spi_buffer, 2) as usize);
            if 1 <= len && 3 + len <= spi_buffer.len() && len <= 260 {
                let mut i: usize = 0;
                while i < len
                    invariant
                        pre.wf(),
                        len == spec_packet_len(spi_buffer@),
                        1 <= len <= 260,
                        3 + len <= spi_buffer@.len(),
                        i <= len,
                        self@ == (CommView { buffer: self@.buffer, ..pre }),
                        self@.buffer.len() == 260,
                        forall|j: int| 0 <= j < i ==> self@.buffer[j] == spi_buffer@[3 + j],
                        forall|j: int| i <= j < 260 ==> self@.buffer[j] == pre.buffer[j],
                    decreases len - i,
                {
                    let b = *vstd::slice::slice_index_get(spi_buffer, 3 + i);
                    self.apdu_buffer[i] = b;
                    i += 1;
                }
                self.apdu_length = len;
                self.apdu_state = ApduState::Raw;
                proof {
                    assert(self@.buffer =~= spi_buffer@.subrange(3, 3 + len as int).add(
                        pre.buffer.skip(len as int),
                    ));
                    assert(self@ =~= spec_after_capdu(pre, spi_buffer@));
                }
            }
        }
        proof {
            assert(self@ =~= spec_after_capdu(pre, spi_buffer@));
        }
    }

    /// Serve the built-in get-app-info command: build the marker byte, the
    /// length-prefixed name and version, and transmit them under the Ok
    /// status word.
    fn send_app_info(&mut self)
        requires
            old(self)@.wf(),
            old(self)@.tx == 0,
        ensures
            final(self)@.wf(),
            spec_app_info_replied(old(self)@, final(self)@),
    {
        let ghost pre = self@;
        let nl = self.app_name.len();
        let vl = self.app_version.len();
        self.push_byte(0x01);
        self.push_byte(nl as u8);
        let name_copy = slice_to_vec_u8(self.app_name.as_slice());
        self.append(name_copy.as_slice());
        self.push_byte(vl as u8);
        let version_copy = slice_to_vec_u8(self.app_version.as_slice());
        self.append(version_copy.as_slice());
        let ghost frame = spec_app_info_frame(pre.app_name, pre.app_version);
        proof {
            assert(self@.tx == 3 + pre.app_name.len() + pre.app_version.len());
            assert(forall|j: int|
                0 <= j < self@.tx ==> self@.buffer[j] == frame[j]) by {
                assert(frame.len() == 5 + pre.app_name.len() + pre.app_version.len());
            }
            assert(forall|j: int|
                self@.tx + 2 <= j < 260 ==> self@.buffer[j] == pre.buffer[j]);
        }
        self.reply_ok();
        proof {
            assert(sw_hi(0x9000) == 0x90 && sw_lo(0x9000) == 0x00) by (bit_vector);
            assert(self@.buffer =~= frame.add(pre.buffer.skip(frame.len() as int)));
            if pre.apdu_state != ApduState::Idle {
                assert(self@.outbox matches Some(p) && p.data =~= frame);
            }
        }
    }
}

impl Comm {
    /// Decode one raw transport packet and carry the receive cycle as far
    /// as it can go.
    ///
    /// A ticker packet and a button edge return at once as events. A
    /// delivered command packet is taken into the buffer; the housekeeping
    /// tags are the host drivers' work and leave the engine alone. If
    /// after that a complete command is ready it is checked in order:
    /// commands shorter than 4 bytes and commands with an inconsistent
    /// length field are answered `BadLen`; the built-in system class
    /// (0xB0, both parameters zero) is served before anything else —
    /// get-app-info, exit, or `BadIns`; a configured expected CLA rejects
    /// other classes with `BadCla`; what remains goes to the
    /// application's decoder, whose refusal is replied automatically so
    /// that the caller only ever sees well-formed commands.
    pub fn decode_event<T: TryFromApdu>(&mut self, spi_buffer: &[u8]) -> (ev: Option<Event<T>>)
        requires
            old(self)@.wf(),
            old(self)@.tx == 0,
            spi_buffer@.len() == 128,
        ensures
            final(self)@.wf(),
            (spec_event_from_tag(spi_buffer@[0]) is TickerEvent ==> final(self)@ == old(self)@
                && (ev matches Some(e) && e is Ticker)),
            (spec_event_from_tag(spi_buffer@[0]) is ButtonPush && spec_button_event(
                old(self)@.button_mask,
                spi_buffer@[3] >> 1,
            ) is Some ==> final(self)@ == (CommView {
                button_mask: spec_next_mask(old(self)@.button_mask, spi_buffer@[3] >> 1),
                ..old(self)@
            }) && (ev matches Some(e) && e == Event::<T>::Button(
                spec_button_event(old(self)@.button_mask, spi_buffer@[3] >> 1).unwrap(),
            ))),
            (spec_packet_proceeds(old(self)@, spi_buffer@) ==> ({
                let sa = spec_after_packet(old(self)@, spi_buffer@);
                let sb = spec_latched(sa);
                &&& (!sa.command_ready() ==> final(self)@ == sa && ev is None)
                &&& (sa.command_ready() && sb.rx < 4 ==> ev is None && spec_replied(
                    sb,
                    0x6e03,
                    final(self)@,
                ))
                &&& (sa.command_ready() && sb.rx >= 4 && spec_apdu_data(sb.buffer, sb.rx) is None
                    ==> ev is None && spec_replied(sb, 0x6e03, final(self)@))
                &&& (sa.command_ready() && sb.rx >= 4 && spec_apdu_data(sb.buffer, sb.rx) is Some
                    ==> {
                    &&& (spec_is_bolos(sb) && sb.buffer[1] == 0x01 ==> ev is None
                        && spec_app_info_replied(sb, final(self)@))
                    &&& (spec_is_bolos(sb) && sb.buffer[1] == 0xa7 ==> ev is None
                        && final(self)@.exit_requested && spec_replied(
                        sb,
                        0x9000,
                        (CommView { exit_requested: sb.exit_requested, ..final(self)@ }),
                    ))
                    &&& (spec_is_bolos(sb) && sb.buffer[1] != 0x01 && sb.buffer[1] != 0xa7 ==> ev
                        is None && spec_replied(sb, 0x6e01, final(self)@))
                    &&& (!spec_is_bolos(sb) && (sb.expected_cla matches Some(c) && sb.buffer[0]
                        != c) ==> ev is None && spec_replied(sb, 0x6e00, final(self)@))
                    &&& (!spec_is_bolos(sb) && (sb.expected_cla is None || sb.buffer[0]
                        == sb.expected_cla.unwrap()) ==> ((ev matches Some(e) && e is Command
                        && final(self)@ == sb) || (ev is None && exists|sw: u16|
                        spec_replied(sb, sw, final(self)@))))
                })
            })),
    {
        let ghost pre = self@;
        // message = [ tag, len_hi, len_lo, ... ]
        let tag = *vstd::slice::slice_index_get(spi_buffer, 0);

        // If this is a button push, return with the associated event; if a
        // ticker, return the ticker event. A delivered command goes to the
        // buffer; the USB, transfer and BLE housekeeping tags are handled
        // by the host transport drivers, and any other tag is ignored.
        match Events::from_tag(tag) {
            Events::ButtonPush => {
                let button_info = *vstd::slice::slice_index_get(spi_buffer, 3) >> 1;
                if let Some(btn_evt) = get_button_event(&mut self.buttons, button_info) {
                    proof {
                        assert(self@ =~= (CommView {
                            button_mask: spec_next_mask(pre.button_mask, spi_buffer@[3] >> 1),
                            ..pre
                        }));
                    }
                    return Some(Event::Button(btn_evt));
                }
            },
            Events::USBEvent => {},
            Events::USBXFEREvent => {},
            Events::CAPDUEvent => {
                self.handle_capdu_event(spi_buffer);
            },
            Events::BLEReceive => {},
            Events::TickerEvent => {
                return Some(Event::Ticker);
            },
            Events::Unknown => {},
        }

        let ghost sa = spec_after_packet(pre, spi_buffer@);
        proof {
            assert(self@ =~= sa);
        }

        if !matches!(self.apdu_state, ApduState::Idle) && self.apdu_length > 0 {
            self.rx = self.apdu_length;
            let ghost sb = spec_latched(sa);
            proof {
                assert(self@ =~= sb);
            }

            // Reject incomplete APDUs
            if self.rx < 4 {
                self.reply(StatusWords::BadLen);
                return None;
            }

            // Check the length field by using `get_data`
            if let Err(sw) = self.get_data() {
                self.reply(sw);
                return None;
            }

            // Built-in system command handling
            let apdu_header = self.get_apdu_metadata();
            if apdu_header.cla == 0xb0 && apdu_header.p1 == 0x00 && apdu_header.p2 == 0x00 {
                match apdu_header.ins {
                    0x01 => {
                        self.send_app_info();
                        return None;
                    },
                    0xa7 => {
                        self.reply_ok();
                        let ghost mid = self@;
                        // The host shell must now terminate the application.
                        self.exit_requested = true;
                        proof {
                            assert((CommView { exit_requested: sb.exit_requested, ..self@ })
                                =~= mid);
                        }
                        return None;
                    },
                    _ => {
                        self.reply(StatusWords::BadIns);
                        return None;
                    },
                }
            }

            // If CLA filtering is enabled, automatically reject APDUs with
            // a wrong CLA
            if let Some(cla) = self.expected_cla {
                if self.apdu_buffer[0] != cla {
                    self.reply(StatusWords::BadCla);
                    return None;
                }
            }

            match T::try_from_apdu(apdu_header) {
                Ok(ins) => {
                    return Some(Event::Command(ins));
                },
                Err(sw) => {
                    // An invalid instruction: reply the error on our own,
                    // mask the bad instruction from the application and
                    // just discard this event.
                    let ghost swv = sw.0;
                    self.reply(sw);
                    proof {
                        assert(spec_replied(sb, swv, self@));
                    }
                },
            }
        }
        None
    }
}

/// Copy a byte slice into an owned vector.
fn slice_to_vec_u8(s: &[u8]) -> (v: Vec<u8>)
    ensures
        v@ == s@,
{
    let mut v: Vec<u8> = Vec::new();
    let mut i: usize = 0;
    while i < s.len()
        invariant
            i <= s@.len(),
            v@ == s@.take(i as int),
        decreases s@.len() - i,
    {
        let b = *vstd::slice::slice_index_get(s, i);
        v.push(b);
        proof {
            assert(v@ =~= s@.take(i as int + 1));
        }
        i += 1;
    }
    proof {
        assert(v@ =~= s@);
    }
    v
}

} // verus!
