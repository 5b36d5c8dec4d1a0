//! Status words and the `Reply` type terminating every APDU response.

use vstd::prelude::*;

verus! {

/// Closed enumeration of the 2-byte status codes the engine replies with.
#[derive(Copy, Clone, Debug, PartialEq, Eq, Structural)]
pub enum StatusWords {
    OK,
    NothingReceived,
    BadCla,
    BadIns,
    BadP1P2,
    BadLen,
    UserCancelled,
    Unknown,
    Panic,
}

/// The 2-byte code of each status word.
pub open spec fn spec_status_word(s: StatusWords) -> u16 {
    match s {
        StatusWords::OK => 0x9000,
        StatusWords::NothingReceived => 0x6982,
        StatusWords::BadCla => 0x6e00,
        StatusWords::BadIns => 0x6e01,
        StatusWords::BadP1P2 => 0x6e02,
        StatusWords::BadLen => 0x6e03,
        StatusWords::UserCancelled => 0x6e04,
        StatusWords::Unknown => 0x6d00,
        StatusWords::Panic => 0xe000,
    }
}

impl StatusWords {
    /// The numeric value of this status word.
    pub fn value(&self) -> (v: u16)
        ensures
            v == spec_status_word(*self),
    {
        match *self {
            StatusWords::OK => 0x9000,
            StatusWords::NothingReceived => 0x6982,
            StatusWords::BadCla => 0x6e00,
            StatusWords::BadIns => 0x6e01,
            StatusWords::BadP1P2 => 0x6e02,
            StatusWords::BadLen => 0x6e03,
            StatusWords::UserCancelled => 0x6e04,
            StatusWords::Unknown => 0x6d00,
            StatusWords::Panic => 0xe000,
        }
    }
}

/// Low-level failure codes reported by the underlying system. Each maps to
/// a status word in the reserved 0x68xx range.
#[derive(Copy, Clone, Debug, PartialEq, Eq, Structural)]
pub enum SyscallError {
    InvalidParameter,
    Overflow,
    Security,
    InvalidCrc,
    InvalidChecksum,
    InvalidCounter,
    NotSupported,
    InvalidState,
    Timeout,
    Unspecified,
}

/// The numeric code of each system failure.
pub open spec fn spec_syscall_code(e: SyscallError) -> u16 {
    match e {
        SyscallError::InvalidParameter => 2,
        SyscallError::Overflow => 3,
        SyscallError::Security => 4,
        SyscallError::InvalidCrc => 5,
        SyscallError::InvalidChecksum => 6,
        SyscallError::InvalidCounter => 7,
        SyscallError::NotSupported => 8,
        SyscallError::InvalidState => 9,
        SyscallError::Timeout => 10,
        SyscallError::Unspecified => 11,
    }
}

/// Which `SyscallError` a raw system code denotes; codes outside the table
/// collapse to `Unspecified`.
pub open spec fn spec_syscall_from(e: u32) -> SyscallError {
    match e {
        2u32 => SyscallError::InvalidParameter,
        3u32 => SyscallError::Overflow,
        4u32 => SyscallError::Security,
        5u32 => SyscallError::InvalidCrc,
        6u32 => SyscallError::InvalidChecksum,
        7u32 => SyscallError::InvalidCounter,
        8u32 => SyscallError::NotSupported,
        9u32 => SyscallError::InvalidState,
        10u32 => SyscallError::Timeout,
        _ => SyscallError::Unspecified,
    }
}

impl SyscallError {
    /// The numeric code of this failure.
    pub fn code(&self) -> (c: u16)
        ensures
            c == spec_syscall_code(*self),
    {
        match *self {
            SyscallError::InvalidParameter => 2,
            SyscallError::Overflow => 3,
            SyscallError::Security => 4,
            SyscallError::InvalidCrc => 5,
            SyscallError::InvalidChecksum => 6,
            SyscallError::InvalidCounter => 7,
            SyscallError::NotSupported => 8,
            SyscallError::InvalidState => 9,
            SyscallError::Timeout => 10,
            SyscallError::Unspecified => 11,
        }
    }

}

impl From<u32> for SyscallError {
    /// Classify a raw system error code.
    fn from(e: u32) -> (r: SyscallError) {
        match e {
            2 => SyscallError::InvalidParameter,
            3 => SyscallError::Overflow,
            4 => SyscallError::Security,
            5 => SyscallError::InvalidCrc,
            6 => SyscallError::InvalidChecksum,
            7 => SyscallError::InvalidCounter,
            8 => SyscallError::NotSupported,
            9 => SyscallError::InvalidState,
            10 => SyscallError::Timeout,
            _ => SyscallError::Unspecified,
        }
    }
}

impl vstd::std_specs::convert::FromSpecImpl<u32> for SyscallError {
    open spec fn obeys_from_spec() -> bool {
        true
    }

    open spec fn from_spec(e: u32) -> SyscallError {
        spec_syscall_from(e)
    }
}

/// A 2-byte status word to reply an APDU with, built from either a
/// `StatusWords` value or a `SyscallError`.
#[derive(Copy, Clone, Debug, PartialEq, Eq, Structural)]
pub struct Reply(pub u16);

impl From<StatusWords> for Reply {
    fn from(sw: StatusWords) -> (r: Reply) {
        Reply(sw.value())
    }
}

impl vstd::std_specs::convert::FromSpecImpl<StatusWords> for Reply {
    open spec fn obeys_from_spec() -> bool {
        true
    }

    open spec fn from_spec(sw: StatusWords) -> Reply {
        Reply(spec_status_word(sw))
    }
}

impl From<SyscallError> for Reply {
    fn from(exc: SyscallError) -> (r: Reply) {
        Reply(0x6800 + exc.code())
    }
}

impl vstd::std_specs::convert::FromSpecImpl<SyscallError> for Reply {
    open spec fn obeys_from_spec() -> bool {
        true
    }

    open spec fn from_spec(exc: SyscallError) -> Reply {
        Reply((0x6800 + spec_syscall_code(exc)) as u16)
    }
}

/// Anything the engine can turn into a status-word reply. Every value that
/// converts into [`Reply`] stands for one status word, which the reply
/// encoder's contract names.
pub trait IntoReply: Sized {
    /// The status word this value stands for.
    spec fn reply_value(&self) -> u16;

    /// Convert into the status-word reply.
    fn into_reply(self) -> (r: Reply)
        ensures
            r.0 == self.reply_value(),
    ;
}

impl IntoReply for Reply {
    open spec fn reply_value(&self) -> u16 {
        self.0
    }

    fn into_reply(self) -> (r: Reply)
        ensures
            r.0 == self.reply_value(),
    {
        self
    }
}

impl IntoReply for StatusWords {
    open spec fn reply_value(&self) -> u16 {
        spec_status_word(*self)
    }

    fn into_reply(self) -> (r: Reply)
        ensures
            r.0 == self.reply_value(),
    {
        Reply(self.value())
    }
}

impl IntoReply for SyscallError {
    open spec fn reply_value(&self) -> u16 {
        (0x6800 + spec_syscall_code(*self)) as u16
    }

    fn into_reply(self) -> (r: Reply)
        ensures
            r.0 == self.reply_value(),
    {
        Reply(0x6800 + self.code())
    }
}

} // verus!
