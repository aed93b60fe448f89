//! Trace records in the daemon's message format, laid out by `dlt_core`.

use dlt_core::dlt::{
    DltTimeStamp, Endianness, ExtendedHeaderConfig, Message, MessageConfig, MessageType,
    PayloadContent, StorageHeader,
};
use vstd::prelude::*;
use vstd::utf8::encode_utf8;
use crate::error::DltUserError;
use crate::text::text_of;
use crate::wire::{le_bytes, u32_bytes, ByteOrder};

verus! {

/// What the payload of a message is made of.
#[derive(Debug, Clone, Copy, PartialEq, Eq, Structural)]
pub enum PayloadKind {
    /// Arguments that describe themselves; none yet.
    Verbose,
    /// Bytes whose meaning the message identifier gives; none yet.
    NonVerbose { message_id: u32 },
}

/// What the extended header of a message says.
pub struct ExtendedInfo {
    /// Kind of the message, three bits.
    pub message_type: u8,
    /// What the kind says further, four bits.
    pub message_type_info: u8,
    pub app_id: String,
    pub context_id: String,
}

/// What an `ExtendedInfo` holds.
pub struct ExtendedInfoView {
    pub message_type: u8,
    pub message_type_info: u8,
    pub app_id: Seq<char>,
    pub context_id: Seq<char>,
}

impl View for ExtendedInfo {
    type V = ExtendedInfoView;

    open spec fn view(&self) -> ExtendedInfoView {
        ExtendedInfoView {
            message_type: self.message_type,
            message_type_info: self.message_type_info,
            app_id: self.app_id@,
            context_id: self.context_id@,
        }
    }
}

/// Everything that decides the bytes of a message with an empty payload.
pub struct FrameSettings {
    pub version: u8,
    pub counter: u8,
    pub order: ByteOrder,
    /// ECU identifier in the standard header, if it is to carry one.
    pub ecu_id: Option<String>,
    /// Session identifier in the standard header, if it is to carry one.
    pub session_id: Option<u32>,
    /// Time stamp in the standard header, if it is to carry one.
    pub timestamp: Option<u32>,
    /// The extended header, if there is to be one.
    pub extended: Option<ExtendedInfo>,
    pub payload: PayloadKind,
    /// Time of the storage header, in milliseconds.
    pub storage_time_ms: u64,
    /// ECU identifier of the storage header.
    pub storage_ecu_id: String,
}

/// What a `FrameSettings` holds.
pub struct Frame {
    pub version: u8,
    pub counter: u8,
    pub order: ByteOrder,
    pub ecu_id: Option<Seq<char>>,
    pub session_id: Option<u32>,
    pub timestamp: Option<u32>,
    pub extended: Option<ExtendedInfoView>,
    pub payload: PayloadKind,
    pub storage_time_ms: u64,
    pub storage_ecu_id: Seq<char>,
}

impl View for FrameSettings {
    type V = Frame;

    open spec fn view(&self) -> Frame {
        Frame {
            version: self.version,
            counter: self.counter,
            order: self.order,
            ecu_id: text_of(self.ecu_id),
            session_id: self.session_id,
            timestamp: self.timestamp,
            extended: match self.extended {
                Some(extended) => Some(extended@),
                None => None,
            },
            payload: self.payload,
            storage_time_ms: self.storage_time_ms,
            storage_ecu_id: self.storage_ecu_id@,
        }
    }
}

/// An identifier as the headers carry it: its bytes, followed by zero bytes
/// where there are fewer than four.
pub open spec fn padded_id(id: Seq<char>) -> Seq<u8> {
    let bytes = encode_utf8(id);
    if bytes.len() < 4 {
        bytes + Seq::new((4 - bytes.len()) as nat, |i: int| 0u8)
    } else {
        bytes
    }
}

/// The storage header: `DLT`, 1, the seconds and the microseconds of the
/// time, both least significant byte first, and the ECU identifier.
pub open spec fn storage_header_bytes(time_ms: u64, ecu_id: Seq<char>) -> Seq<u8> {
    seq![0x44u8, 0x4cu8, 0x54u8, 0x01u8] + le_bytes(((time_ms / 1000) % 0x1_0000_0000) as u32)
        + le_bytes(((time_ms % 1000) * 1000) as u32) + padded_id(ecu_id)
}

/// The bytes of a payload with nothing in it: none for a verbose one, the
/// message identifier for a non-verbose one.
pub open spec fn payload_bytes(payload: PayloadKind, order: ByteOrder) -> Seq<u8> {
    match payload {
        PayloadKind::Verbose => Seq::empty(),
        PayloadKind::NonVerbose { message_id } => u32_bytes(message_id, order),
    }
}

impl Frame {
    /// The first byte of the standard header: one bit each for an extended
    /// header, big-endian payload, ECU identifier, session identifier and
    /// time stamp, and above them the low three bits of the version.
    pub open spec fn header_type(self) -> u8 {
        ((if self.extended is Some {
            1int
        } else {
            0int
        }) + (if self.order == ByteOrder::BigEndian {
            2int
        } else {
            0int
        }) + (if self.ecu_id is Some {
            4int
        } else {
            0int
        }) + (if self.session_id is Some {
            8int
        } else {
            0int
        }) + (if self.timestamp is Some {
            16int
        } else {
            0int
        }) + 32 * (self.version % 8)) as u8
    }

    /// Length of the message without its storage header, counting four
    /// bytes for every identifier whatever its length.
    pub open spec fn overall_length(self) -> int {
        4 + (if self.ecu_id is Some {
            4int
        } else {
            0int
        }) + (if self.session_id is Some {
            4int
        } else {
            0int
        }) + (if self.timestamp is Some {
            4int
        } else {
            0int
        }) + (if self.extended is Some {
            10int
        } else {
            0int
        }) + payload_bytes(self.payload, self.order).len()
    }

    /// The standard header: type, counter, length, and then what the type
    /// announces, every number most significant byte first.
    pub open spec fn standard_header_bytes(self) -> Seq<u8> {
        seq![
            self.header_type(),
            self.counter,
            (self.overall_length() / 256) as u8,
            (self.overall_length() % 256) as u8,
        ] + (match self.ecu_id {
            Some(id) => padded_id(id),
            None => Seq::empty(),
        }) + (match self.session_id {
            Some(id) => u32_bytes(id, ByteOrder::BigEndian),
            None => Seq::empty(),
        }) + (match self.timestamp {
            Some(time) => u32_bytes(time, ByteOrder::BigEndian),
            None => Seq::empty(),
        })
    }

    /// The extended header, where there is one: the message's kind with
    /// the lowest bit set for a verbose payload, the number of arguments,
    /// which is none, and the two identifiers.
    pub open spec fn extended_header_bytes(self) -> Seq<u8> {
        match self.extended {
            Some(extended) => seq![
                ((extended.message_type * 2) % 256) as u8 | ((extended.message_type_info * 16)
                    % 256) as u8 | (if self.payload is Verbose {
                    1u8
                } else {
                    0u8
                }),
                0u8,
            ] + padded_id(extended.app_id) + padded_id(extended.context_id),
            None => Seq::empty(),
        }
    }

    /// The bytes of the message: storage header, standard header, extended
    /// header and payload.
    pub open spec fn bytes(self) -> Seq<u8> {
        storage_header_bytes(self.storage_time_ms, self.storage_ecu_id)
            + self.standard_header_bytes() + self.extended_header_bytes() + payload_bytes(
            self.payload,
            self.order,
        )
    }
}

/// `DltTimeStamp::from_ms`, `Message::new` and `Message::as_bytes` of
/// `dlt_core`: builds the message that the settings describe, with its
/// storage header and an empty payload, and hands out its bytes as
/// `as_bytes` lays them out.
#[verifier::external_body]
fn message_bytes(settings: FrameSettings) -> (bytes: Vec<u8>)
    ensures
        bytes@ == settings@.bytes(),
{
    let endianness = match settings.order {
        ByteOrder::LittleEndian => Endianness::Little,
        ByteOrder::BigEndian => Endianness::Big,
    };
    let payload = match settings.payload {
        PayloadKind::Verbose => PayloadContent::Verbose(Vec::new()),
        PayloadKind::NonVerbose { message_id } => PayloadContent::NonVerbose(message_id, Vec::new()),
    };
    let extended_header_info = settings.extended.map(|e| ExtendedHeaderConfig { message_type: MessageType::Unknown((e.message_type, e.message_type_info)), app_id: e.app_id, context_id: e.context_id });
    let conf = MessageConfig { version: settings.version, counter: settings.counter, endianness, ecu_id: settings.ecu_id, session_id: settings.session_id, timestamp: settings.timestamp, payload, extended_header_info };
    let timestamp = DltTimeStamp::from_ms(settings.storage_time_ms);
    Message::new(conf, Some(StorageHeader { timestamp, ecu_id: settings.storage_ecu_id })).as_bytes()
}

/// What a message context holds.
pub struct MessageSettings {
    pub ecu_id: Seq<char>,
    pub verbose: bool,
}

impl MessageSettings {
    /// The kind of payload that goes with the setting: verbose, or
    /// non-verbose with the message identifier 0.
    pub open spec fn payload(self) -> PayloadKind {
        if self.verbose {
            PayloadKind::Verbose
        } else {
            PayloadKind::NonVerbose { message_id: 0 }
        }
    }

    /// The message of the context: protocol version 1, counter 0,
    /// big-endian, a standard header without ECU identifier, session
    /// identifier and time stamp, no extended header, and a storage header
    /// of time 0 with the context's ECU identifier.
    pub open spec fn frame(self) -> Frame {
        Frame {
            version: 1,
            counter: 0,
            order: ByteOrder::BigEndian,
            ecu_id: None,
            session_id: None,
            timestamp: None,
            extended: None,
            payload: self.payload(),
            storage_time_ms: 0,
            storage_ecu_id: self.ecu_id,
        }
    }

    /// The bytes of the context's message, written out: the storage header
    /// with time 0, then header type 0x22, counter 0 and the length, which
    /// is 4 for a verbose message and 8 for a non-verbose one, whose message
    /// identifier 0 follows.
    pub open spec fn bytes(self) -> Seq<u8> {
        seq![0x44u8, 0x4cu8, 0x54u8, 0x01u8, 0u8, 0u8, 0u8, 0u8, 0u8, 0u8, 0u8, 0u8] + padded_id(
            self.ecu_id,
        ) + (if self.verbose {
            seq![0x22u8, 0u8, 0u8, 4u8]
        } else {
            seq![0x22u8, 0u8, 0u8, 8u8, 0u8, 0u8, 0u8, 0u8]
        })
    }
}

/// The message of a context has the bytes that `MessageSettings::bytes`
/// writes out.
pub proof fn lemma_context_bytes(settings: MessageSettings)
    ensures
        settings.frame().bytes() == settings.bytes(),
{
    let frame = settings.frame();
    assert(le_bytes(0) =~= seq![0u8, 0u8, 0u8, 0u8]);
    assert(storage_header_bytes(0, settings.ecu_id) =~= seq![
        0x44u8,
        0x4cu8,
        0x54u8,
        0x01u8,
        0u8,
        0u8,
        0u8,
        0u8,
        0u8,
        0u8,
        0u8,
        0u8,
    ] + padded_id(settings.ecu_id));
    assert(frame.header_type() == 0x22u8);
    if settings.verbose {
        assert(frame.standard_header_bytes() =~= seq![0x22u8, 0u8, 0u8, 4u8]);
        assert(frame.bytes() =~= settings.bytes());
    } else {
        assert(u32_bytes(0, ByteOrder::BigEndian) =~= seq![0u8, 0u8, 0u8, 0u8]);
        assert(frame.standard_header_bytes() =~= seq![0x22u8, 0u8, 0u8, 8u8]);
        assert(frame.bytes() =~= settings.bytes());
    }
}

/// The frame of a trace record of one ECU: protocol version 1, counter 0,
/// big-endian, stored at time 0, with nothing in its payload yet.
pub struct MessageContext {
    ecu_id: String,
    verbose: bool,
}

impl View for MessageContext {
    type V = MessageSettings;

    closed spec fn view(&self) -> MessageSettings {
        MessageSettings { ecu_id: self.ecu_id@, verbose: self.verbose }
    }
}

impl MessageContext {
    pub fn new(ecu_id: String, verbose: bool) -> (made: Result<Self, DltUserError>)
        ensures
            made matches Ok(context) && context@ == (MessageSettings { ecu_id: ecu_id@, verbose }),
    {
        Ok(MessageContext { ecu_id, verbose })
    }

    /// The bytes of the message, as `dlt_core` lays them out.
    pub fn as_bytes(&self) -> (bytes: Vec<u8>)
        ensures
            bytes@ == self@.bytes(),
    {
        let payload = if self.verbose {
            PayloadKind::Verbose
        } else {
            PayloadKind::NonVerbose { message_id: 0 }
        };
        let settings = FrameSettings {
            version: 1,
            counter: 0,
            order: ByteOrder::BigEndian,
            ecu_id: None,
            session_id: None,
            timestamp: None,
            extended: None,
            payload,
            storage_time_ms: 0,
            storage_ecu_id: self.ecu_id.clone(),
        };
        proof {
            lemma_context_bytes(self@);
            assert(settings@ == self@.frame());
        }
        message_bytes(settings)
    }
}

} // verus!
