//! The control messages that register and unregister applications and
//! logging contexts with the daemon.

use vstd::prelude::*;
use vstd::utf8::encode_utf8;
use crate::client::{ClientView, Context, DltUserInner};
use crate::text::{blank_id, id_of, str_to_u8_4};
use crate::user_header::{DLT_USER_LOG_LEVEL_NOT_SET, DLT_USER_TRACE_STATUS_NOT_SET};
use crate::wire::{
    bits_to_i32, byte_to_i8, get_u32, i32_bits, i32_to_bits, i8_byte, i8_to_byte,
    lemma_bytes_round_trip, lemma_u32_bytes_injective, put_u32, u32_bytes, ByteOrder,
};

verus! {

/// The four-byte identifier of a name that may be absent.
pub fn opt_string_to_u8_4(str: Option<String>) -> (id: [u8; 4])
    ensures
        id@ == match str {
            Some(s) => id_of(s@),
            None => blank_id(),
        },
{
    match str {
        Some(s) => str_to_u8_4(s.as_str()),
        None => {
            let id: [u8; 4] = [0u8; 4];
            id
        },
    }
}

/// The four-byte identifier of the application that a client stands for.
pub open spec fn app_id_of(state: ClientView) -> Seq<u8> {
    match state.app_id {
        Some(name) => id_of(name),
        None => blank_id(),
    }
}

/// The length of a text in bytes, as a 32-bit field carries it: the number
/// of bytes of its UTF-8 form, reduced modulo 2^32.
pub open spec fn wire_length(text: Seq<char>) -> u32 {
    (encode_utf8(text).len() % 0x1_0000_0000) as u32
}

/// The length field holds the exact number of bytes of every text of fewer
/// than 2^32 bytes, which for an ASCII text is its number of characters.
pub proof fn lemma_wire_length_exact(text: Seq<char>)
    requires
        encode_utf8(text).len() <= u32::MAX,
    ensures
        wire_length(text) == encode_utf8(text).len(),
        vstd::utf8::is_ascii_chars(text) ==> wire_length(text) == text.len(),
{
    if vstd::utf8::is_ascii_chars(text) {
        vstd::utf8::is_ascii_chars_encode_utf8(text);
    }
}

fn length_field(text: &str) -> (len: u32)
    ensures
        len == wire_length(text@),
{
    let len: u64 = text.as_bytes().len() as u64;
    (len % 0x1_0000_0000) as u32
}

fn app_id_bytes(dltuserinner: &DltUserInner) -> (id: [u8; 4])
    ensures
        id@ == app_id_of(dltuserinner@),
{
    match dltuserinner.app_id() {
        Some(name) => str_to_u8_4(name.as_str()),
        None => {
            let id: [u8; 4] = [0u8; 4];
            id
        },
    }
}

fn push_id(bytes: &mut Vec<u8>, id: &[u8; 4])
    ensures
        final(bytes)@ == old(bytes)@ + id@,
{
    bytes.push(id[0]);
    bytes.push(id[1]);
    bytes.push(id[2]);
    bytes.push(id[3]);
}

fn read_id(bytes: &[u8], at: usize) -> (id: [u8; 4])
    requires
        at + 4 <= bytes@.len(),
    ensures
        id@ == bytes@.subrange(at as int, at + 4),
{
    let id: [u8; 4] = [bytes[at], bytes[at + 1], bytes[at + 2], bytes[at + 3]];
    id
}

/// Announces an application to the daemon. The description follows the
/// message on the wire.
#[derive(Clone, Copy, Debug)]
pub struct RegisterApplication {
    pub app_id: [u8; 4],
    pub pid: u32,
    pub description_length: u32,
}

impl RegisterApplication {
    pub fn new(dltuserinner: &DltUserInner) -> (message: Self)
        ensures
            message.app_id@ == app_id_of(dltuserinner@),
            message.pid == dltuserinner@.pid,
            message.description_length == wire_length(dltuserinner@.application_description),
    {
        RegisterApplication {
            app_id: app_id_bytes(dltuserinner),
            pid: dltuserinner.pid(),
            description_length: length_field(dltuserinner.application_description()),
        }
    }

    /// The twelve bytes of the message on the wire.
    pub open spec fn wire(self, order: ByteOrder) -> Seq<u8> {
        self.app_id@ + u32_bytes(self.pid, order) + u32_bytes(self.description_length, order)
    }

    /// The message as it goes on the wire.
    pub fn to_bytes(&self, order: ByteOrder) -> (bytes: Vec<u8>)
        ensures
            bytes@ == self.wire(order),
    {
        let mut bytes: Vec<u8> = Vec::new();
        push_id(&mut bytes, &self.app_id);
        put_u32(&mut bytes, self.pid, order);
        put_u32(&mut bytes, self.description_length, order);
        bytes
    }

    /// Reads the message off the wire; there is one exactly when twelve
    /// bytes are given.
    pub fn from_bytes(bytes: &[u8], order: ByteOrder) -> (message: Option<Self>)
        ensures
            message is Some <==> bytes@.len() == 12,
            message matches Some(m) ==> m.wire(order) == bytes@,
    {
        if bytes.len() != 12 {
            return None;
        }
        let message = RegisterApplication {
            app_id: read_id(bytes, 0),
            pid: get_u32(bytes, 4, order),
            description_length: get_u32(bytes, 8, order),
        };
        proof {
            lemma_bytes_round_trip(bytes@.subrange(4, 8), order);
            lemma_bytes_round_trip(bytes@.subrange(8, 12), order);
        }
        Some(message)
    }

    /// Where each field of the message stands on the wire.
    pub proof fn lemma_wire_layout(self, order: ByteOrder)
        ensures
            self.wire(order).len() == 12,
            self.wire(order).subrange(0, 4) == self.app_id@,
            self.wire(order).subrange(4, 8) == u32_bytes(self.pid, order),
            self.wire(order).subrange(8, 12) == u32_bytes(self.description_length, order),
    {
    }

    /// Two messages with the same bytes are the same message.
    pub proof fn lemma_wire_injective(a: Self, b: Self, order: ByteOrder)
        requires
            a.wire(order) == b.wire(order),
        ensures
            a == b,
    {
        a.lemma_wire_layout(order);
        b.lemma_wire_layout(order);
        lemma_u32_bytes_injective(a.pid, b.pid, order);
        lemma_u32_bytes_injective(a.description_length, b.description_length, order);
        assert(a.app_id =~= b.app_id);
    }
}

/// Tells the daemon that an application is gone.
#[derive(Clone, Copy, Debug)]
pub struct UnRegisterApplication {
    pub app_id: [u8; 4],
    pub pid: u32,
}

impl UnRegisterApplication {
    pub fn new(dltuserinner: &DltUserInner) -> (message: Self)
        ensures
            message.app_id@ == app_id_of(dltuserinner@),
            message.pid == dltuserinner@.pid,
    {
        UnRegisterApplication { app_id: app_id_bytes(dltuserinner), pid: dltuserinner.pid() }
    }

    /// The eight bytes of the message on the wire.
    pub open spec fn wire(self, order: ByteOrder) -> Seq<u8> {
        self.app_id@ + u32_bytes(self.pid, order)
    }

    /// The message as it goes on the wire.
    pub fn to_bytes(&self, order: ByteOrder) -> (bytes: Vec<u8>)
        ensures
            bytes@ == self.wire(order),
    {
        let mut bytes: Vec<u8> = Vec::new();
        push_id(&mut bytes, &self.app_id);
        put_u32(&mut bytes, self.pid, order);
        bytes
    }

    /// Reads the message off the wire; there is one exactly when eight
    /// bytes are given.
    pub fn from_bytes(bytes: &[u8], order: ByteOrder) -> (message: Option<Self>)
        ensures
            message is Some <==> bytes@.len() == 8,
            message matches Some(m) ==> m.wire(order) == bytes@,
    {
        if bytes.len() != 8 {
            return None;
        }
        let message = UnRegisterApplication {
            app_id: read_id(bytes, 0),
            pid: get_u32(bytes, 4, order),
        };
        proof {
            lemma_bytes_round_trip(bytes@.subrange(4, 8), order);
        }
        Some(message)
    }

    /// Where each field of the message stands on the wire.
    pub proof fn lemma_wire_layout(self, order: ByteOrder)
        ensures
            self.wire(order).len() == 8,
            self.wire(order).subrange(0, 4) == self.app_id@,
            self.wire(order).subrange(4, 8) == u32_bytes(self.pid, order),
    {
    }

    /// Two messages with the same bytes are the same message.
    pub proof fn lemma_wire_injective(a: Self, b: Self, order: ByteOrder)
        requires
            a.wire(order) == b.wire(order),
        ensures
            a == b,
    {
        a.lemma_wire_layout(order);
        b.lemma_wire_layout(order);
        lemma_u32_bytes_injective(a.pid, b.pid, order);
        assert(a.app_id =~= b.app_id);
    }
}

/// Announces a logging context to the daemon. The description follows the
/// message on the wire.
pub struct RegisterContext {
    pub app_id: [u8; 4],
    pub context_id: [u8; 4],
    pub log_level_pos: i32,
    pub log_level: i8,
    pub trace_status: i8,
    pub pid: u32,
    pub description_length: u32,
}

impl RegisterContext {
    pub fn new(dltuserinner: &DltUserInner, context: &Context) -> (message: Self)
        ensures
            message.app_id@ == app_id_of(dltuserinner@),
            message.context_id@ == context@.context_id,
            message.log_level_pos == 0,
            message.log_level == DLT_USER_LOG_LEVEL_NOT_SET,
            message.trace_status == DLT_USER_TRACE_STATUS_NOT_SET,
            message.pid == dltuserinner@.pid,
            message.description_length == wire_length(context@.description),
    {
        RegisterContext {
            app_id: app_id_bytes(dltuserinner),
            context_id: context.context_id(),
            log_level_pos: 0,
            log_level: DLT_USER_LOG_LEVEL_NOT_SET,
            trace_status: DLT_USER_TRACE_STATUS_NOT_SET,
            pid: dltuserinner.pid(),
            description_length: length_field(context.description()),
        }
    }

    /// The twenty-two bytes of the message on the wire.
    pub open spec fn wire(self, order: ByteOrder) -> Seq<u8> {
        self.app_id@ + self.context_id@ + u32_bytes(i32_bits(self.log_level_pos), order)
            + seq![i8_byte(self.log_level), i8_byte(self.trace_status)] + u32_bytes(
            self.pid,
            order,
        ) + u32_bytes(self.description_length, order)
    }

    /// The message as it goes on the wire.
    pub fn to_bytes(&self, order: ByteOrder) -> (bytes: Vec<u8>)
        ensures
            bytes@ == self.wire(order),
    {
        let mut bytes: Vec<u8> = Vec::new();
        push_id(&mut bytes, &self.app_id);
        push_id(&mut bytes, &self.context_id);
        put_u32(&mut bytes, i32_to_bits(self.log_level_pos), order);
        bytes.push(i8_to_byte(self.log_level));
        bytes.push(i8_to_byte(self.trace_status));
        put_u32(&mut bytes, self.pid, order);
        put_u32(&mut bytes, self.description_length, order);
        bytes
    }

    /// Reads the message off the wire; there is one exactly when
    /// twenty-two bytes are given.
    pub fn from_bytes(bytes: &[u8], order: ByteOrder) -> (message: Option<Self>)
        ensures
            message is Some <==> bytes@.len() == 22,
            message matches Some(m) ==> m.wire(order) == bytes@,
    {
        if bytes.len() != 22 {
            return None;
        }
        let message = RegisterContext {
            app_id: read_id(bytes, 0),
            context_id: read_id(bytes, 4),
            log_level_pos: bits_to_i32(get_u32(bytes, 8, order)),
            log_level: byte_to_i8(bytes[12]),
            trace_status: byte_to_i8(bytes[13]),
            pid: get_u32(bytes, 14, order),
            description_length: get_u32(bytes, 18, order),
        };
        proof {
            lemma_bytes_round_trip(bytes@.subrange(8, 12), order);
            lemma_bytes_round_trip(bytes@.subrange(14, 18), order);
            lemma_bytes_round_trip(bytes@.subrange(18, 22), order);
        }
        Some(message)
    }

    /// Where each field of the message stands on the wire.
    pub proof fn lemma_wire_layout(self, order: ByteOrder)
        ensures
            self.wire(order).len() == 22,
            self.wire(order).subrange(0, 4) == self.app_id@,
            self.wire(order).subrange(4, 8) == self.context_id@,
            self.wire(order).subrange(8, 12) == u32_bytes(i32_bits(self.log_level_pos), order),
            self.wire(order)[12] == i8_byte(self.log_level),
            self.wire(order)[13] == i8_byte(self.trace_status),
            self.wire(order).subrange(14, 18) == u32_bytes(self.pid, order),
            self.wire(order).subrange(18, 22) == u32_bytes(self.description_length, order),
    {
    }

    /// Two messages with the same bytes are the same message.
    pub proof fn lemma_wire_injective(a: Self, b: Self, order: ByteOrder)
        requires
            a.wire(order) == b.wire(order),
        ensures
            a == b,
    {
        a.lemma_wire_layout(order);
        b.lemma_wire_layout(order);
        lemma_u32_bytes_injective(i32_bits(a.log_level_pos), i32_bits(b.log_level_pos), order);
        lemma_u32_bytes_injective(a.pid, b.pid, order);
        lemma_u32_bytes_injective(a.description_length, b.description_length, order);
        assert(a.app_id =~= b.app_id);
        assert(a.context_id =~= b.context_id);
    }
}

/// Tells the daemon that a logging context is gone.
pub struct UnRegisterContext {
    pub app_id: [u8; 4],
    pub context_id: [u8; 4],
    pub pid: u32,
}

impl UnRegisterContext {
    pub fn new(dltuserinner: &DltUserInner, context: &Context) -> (message: Self)
        ensures
            message.app_id@ == app_id_of(dltuserinner@),
            message.context_id@ == context@.context_id,
            message.pid == dltuserinner@.pid,
    {
        UnRegisterContext {
            app_id: app_id_bytes(dltuserinner),
            context_id: context.context_id(),
            pid: dltuserinner.pid(),
        }
    }

    /// The twelve bytes of the message on the wire.
    pub open spec fn wire(self, order: ByteOrder) -> Seq<u8> {
        self.app_id@ + self.context_id@ + u32_bytes(self.pid, order)
    }

    /// The message as it goes on the wire.
    pub fn to_bytes(&self, order: ByteOrder) -> (bytes: Vec<u8>)
        ensures
            bytes@ == self.wire(order),
    {
        let mut bytes: Vec<u8> = Vec::new();
        push_id(&mut bytes, &self.app_id);
        push_id(&mut bytes, &self.context_id);
        put_u32(&mut bytes, self.pid, order);
        bytes
    }

    /// Reads the message off the wire; there is one exactly when twelve
    /// bytes are given.
    pub fn from_bytes(bytes: &[u8], order: ByteOrder) -> (message: Option<Self>)
        ensures
            message is Some <==> bytes@.len() == 12,
            message matches Some(m) ==> m.wire(order) == bytes@,
    {
        if bytes.len() != 12 {
            return None;
        }
        let message = UnRegisterContext {
            app_id: read_id(bytes, 0),
            context_id: read_id(bytes, 4),
            pid: get_u32(bytes, 8, order),
        };
        proof {
            lemma_bytes_round_trip(bytes@.subrange(8, 12), order);
        }
        Some(message)
    }

    /// Where each field of the message stands on the wire.
    pub proof fn lemma_wire_layout(self, order: ByteOrder)
        ensures
            self.wire(order).len() == 12,
            self.wire(order).subrange(0, 4) == self.app_id@,
            self.wire(order).subrange(4, 8) == self.context_id@,
            self.wire(order).subrange(8, 12) == u32_bytes(self.pid, order),
    {
    }

    /// Two messages with the same bytes are the same message.
    pub proof fn lemma_wire_injective(a: Self, b: Self, order: ByteOrder)
        requires
            a.wire(order) == b.wire(order),
        ensures
            a == b,
    {
        a.lemma_wire_layout(order);
        b.lemma_wire_layout(order);
        lemma_u32_bytes_injective(a.pid, b.pid, order);
        assert(a.app_id =~= b.app_id);
        assert(a.context_id =~= b.context_id);
    }
}

} // verus!
