//! The header that precedes every message to the trace daemon, and the
//! numbers by which the daemon knows the kinds of message.

use vstd::prelude::*;
use crate::wire::{get_u32, put_u32, u32_bytes, u32_value, ByteOrder};

pub mod user_control_message;

verus! {

/// Log level of a context whose level has not been set.
pub const DLT_USER_LOG_LEVEL_NOT_SET: i8 = -2;

/// Trace status of a context whose status has not been set.
pub const DLT_USER_TRACE_STATUS_NOT_SET: i8 = -2;

/// Number of bytes of a user header on the wire.
pub const USER_HEADER_SIZE: usize = 8;

/// Kind of a control or data message, as announced in the user header.
#[derive(Debug, Clone, Copy, PartialEq, Eq, Structural)]
pub enum UserMessageType {
    Log,
    RegisterApplication,
    UnRegisterApplication,
    RegisterContext,
    UnRegisterContext,
    LogLevel,
    Injection,
    OverFlow,
    AppLlTs,
    LogShm,
    LogMode,
    LogState,
    Marker,
    NotSupported,
}

impl UserMessageType {
    /// The number by which the daemon knows this message type.
    pub open spec fn code(self) -> u32 {
        match self {
            UserMessageType::Log => 1,
            UserMessageType::RegisterApplication => 2,
            UserMessageType::UnRegisterApplication => 3,
            UserMessageType::RegisterContext => 4,
            UserMessageType::UnRegisterContext => 5,
            UserMessageType::LogLevel => 6,
            UserMessageType::Injection => 7,
            UserMessageType::OverFlow => 8,
            UserMessageType::AppLlTs => 9,
            UserMessageType::LogShm => 10,
            UserMessageType::LogMode => 11,
            UserMessageType::LogState => 12,
            UserMessageType::Marker => 13,
            UserMessageType::NotSupported => 16,
        }
    }
}

impl UserMessageType {
    /// The message type that a number stands for, if it stands for one.
    pub fn from_code(code: u32) -> (kind: Option<UserMessageType>)
        ensures
            match kind {
                Some(k) => k.code() == code,
                None => forall|k: UserMessageType| k.code() != code,
            },
    {
        match code {
            1 => Some(UserMessageType::Log),
            2 => Some(UserMessageType::RegisterApplication),
            3 => Some(UserMessageType::UnRegisterApplication),
            4 => Some(UserMessageType::RegisterContext),
            5 => Some(UserMessageType::UnRegisterContext),
            6 => Some(UserMessageType::LogLevel),
            7 => Some(UserMessageType::Injection),
            8 => Some(UserMessageType::OverFlow),
            9 => Some(UserMessageType::AppLlTs),
            10 => Some(UserMessageType::LogShm),
            11 => Some(UserMessageType::LogMode),
            12 => Some(UserMessageType::LogState),
            13 => Some(UserMessageType::Marker),
            16 => Some(UserMessageType::NotSupported),
            _ => None,
        }
    }

    /// No two message types share a number.
    pub proof fn lemma_code_injective(a: UserMessageType, b: UserMessageType)
        requires
            a.code() == b.code(),
        ensures
            a == b,
    {
    }
}

impl From<UserMessageType> for u32 {
    fn from(value: UserMessageType) -> (code: u32) {
        match value {
            UserMessageType::Log => 1,
            UserMessageType::RegisterApplication => 2,
            UserMessageType::UnRegisterApplication => 3,
            UserMessageType::RegisterContext => 4,
            UserMessageType::UnRegisterContext => 5,
            UserMessageType::LogLevel => 6,
            UserMessageType::Injection => 7,
            UserMessageType::OverFlow => 8,
            UserMessageType::AppLlTs => 9,
            UserMessageType::LogShm => 10,
            UserMessageType::LogMode => 11,
            UserMessageType::LogState => 12,
            UserMessageType::Marker => 13,
            UserMessageType::NotSupported => 16,
        }
    }
}

impl vstd::std_specs::convert::FromSpecImpl<UserMessageType> for u32 {
    open spec fn obeys_from_spec() -> bool {
        true
    }

    open spec fn from_spec(value: UserMessageType) -> u32 {
        value.code()
    }
}

/// The four bytes every user header starts with: `D`, `U`, `H`, 1.
pub open spec fn magic_pattern() -> Seq<u8> {
    seq![0x44u8, 0x55u8, 0x48u8, 1u8]
}

/// Header that precedes every message sent to the daemon.
#[derive(Clone, Copy, Debug)]
pub struct UserHeader {
    pub pattern: [u8; 4],
    pub message_type: u32,
}

impl UserHeader {
    /// The header that announces a message of the given type: the magic
    /// pattern, then the number of the type.
    pub fn new(message_type: UserMessageType) -> (header: Self)
        ensures
            header.pattern@ == magic_pattern(),
            header.message_type == message_type.code(),
    {
        UserHeader { pattern: [0x44, 0x55, 0x48, 1], message_type: message_type.into() }
    }

    /// The eight bytes of the header on the wire: the pattern, then the
    /// message type in the given byte order.
    pub open spec fn wire(self, order: ByteOrder) -> Seq<u8> {
        self.pattern@ + u32_bytes(self.message_type, order)
    }

    /// The header as it goes on the wire.
    pub fn to_bytes(&self, order: ByteOrder) -> (bytes: Vec<u8>)
        ensures
            bytes@ == self.wire(order),
    {
        let mut bytes: Vec<u8> = Vec::new();
        bytes.push(self.pattern[0]);
        bytes.push(self.pattern[1]);
        bytes.push(self.pattern[2]);
        bytes.push(self.pattern[3]);
        put_u32(&mut bytes, self.message_type, order);
        bytes
    }

    /// Reads a header off the wire. There is one exactly when eight bytes
    /// are given and the first four are the magic pattern.
    pub fn from_bytes(bytes: &[u8], order: ByteOrder) -> (header: Option<UserHeader>)
        ensures
            header is Some <==> bytes@.len() == 8 && bytes@.subrange(0, 4) == magic_pattern(),
            header matches Some(h) ==> h.wire(order) == bytes@,
    {
        if bytes.len() != USER_HEADER_SIZE {
            return None;
        }
        if bytes[0] != 0x44 || bytes[1] != 0x55 || bytes[2] != 0x48 || bytes[3] != 1 {
            return None;
        }
        let pattern: [u8; 4] = [bytes[0], bytes[1], bytes[2], bytes[3]];
        let message_type = get_u32(bytes, 4, order);
        let header = UserHeader { pattern, message_type };
        proof {
            assert(pattern@ =~= bytes@.subrange(0, 4));
            crate::wire::lemma_bytes_round_trip(bytes@.subrange(4, 8), order);
        }
        Some(header)
    }

    /// Two headers with the same bytes are the same header.
    pub proof fn lemma_wire_injective(a: Self, b: Self, order: ByteOrder)
        requires
            a.wire(order) == b.wire(order),
        ensures
            a == b,
    {
        crate::wire::lemma_u32_round_trip(b.message_type, order);
        assert(b.wire(order).subrange(0, 4) =~= b.pattern@);
        assert(b.wire(order).subrange(4, 8) =~= u32_bytes(b.message_type, order));
        assert(a.pattern =~= b.pattern);
    }

    /// The header that announces an application is `D`, `U`, `H`, 1 and
    /// then the number 2 in the byte order of the wire.
    pub proof fn lemma_register_application_header(header: UserHeader)
        requires
            header.pattern@ == magic_pattern(),
            header.message_type == UserMessageType::RegisterApplication.code(),
        ensures
            header.wire(ByteOrder::LittleEndian) == magic_pattern() + seq![2u8, 0u8, 0u8, 0u8],
            header.wire(ByteOrder::BigEndian) == magic_pattern() + seq![0u8, 0u8, 0u8, 2u8],
    {
    }

    /// The header of every message type is the magic pattern followed by
    /// the type's number, and reading it back gives that number.
    pub proof fn lemma_header_wire(
        message_type: UserMessageType,
        header: UserHeader,
        order: ByteOrder,
    )
        requires
            header.pattern@ == magic_pattern(),
            header.message_type == message_type.code(),
        ensures
            header.wire(order) == magic_pattern() + u32_bytes(message_type.code(), order),
            header.wire(order).len() == 8,
            header.wire(order).subrange(0, 4) == magic_pattern(),
            u32_value(header.wire(order).subrange(4, 8), order) == message_type.code(),
    {
    }
}

} // verus!
