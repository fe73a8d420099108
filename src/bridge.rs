//! Encoding and decoding of host values in the sandbox's linear memory.
use vstd::prelude::*;
use vstd::utf8::{decode_utf8, valid_utf8};
use crate::memory::{in_bounds, written, AccessError, LinearMemory};
use crate::text::utf8_to_string;

verus! {

/// The two message buffers that the sandbox registered: where the host writes
/// a topic and a payload before it hands a message in.
#[derive(Debug, Clone, Copy, PartialEq, Eq, Structural)]
pub struct BufferRegistration {
    pub topic_ptr: i32,
    pub topic_cap: i32,
    pub payload_ptr: i32,
    pub payload_cap: i32,
}

impl BufferRegistration {
    /// No buffers registered yet: every field is zero.
    pub fn new() -> (r: BufferRegistration)
        ensures
            r == (BufferRegistration { topic_ptr: 0, topic_cap: 0, payload_ptr: 0, payload_cap: 0 }),
    {
        BufferRegistration { topic_ptr: 0, topic_cap: 0, payload_ptr: 0, payload_cap: 0 }
    }
}

/// The text of `len` bytes at `at` in `m`, or why there is none.
pub open spec fn text_at(m: Seq<u8>, at: int, len: int) -> Result<Seq<char>, AccessError> {
    if !in_bounds(m.len(), at, len) {
        Err(AccessError::OutOfBounds)
    } else if !valid_utf8(m.subrange(at, at + len)) {
        Err(AccessError::InvalidUtf8)
    } else {
        Ok(decode_utf8(m.subrange(at, at + len)))
    }
}

/// Both message ranges lie inside a memory of `size` bytes.
pub open spec fn message_fits(size: nat, reg: BufferRegistration, topic: Seq<u8>, payload: Seq<u8>) -> bool {
    in_bounds(size, reg.topic_ptr as int, topic.len() as int)
        && in_bounds(size, reg.payload_ptr as int, payload.len() as int)
}

/// Memory after a message is encoded: the topic at the topic buffer, then the
/// payload at the payload buffer.
pub open spec fn with_message(m: Seq<u8>, reg: BufferRegistration, topic: Seq<u8>, payload: Seq<u8>) -> Seq<u8> {
    written(written(m, reg.topic_ptr as int, topic), reg.payload_ptr as int, payload)
}

/// Reads the UTF-8 text of `len` bytes at `at`.
pub fn read_text(memory: &LinearMemory, at: i32, len: u32) -> (r: Result<String, AccessError>)
    ensures
        match r {
            Ok(s) => text_at(memory@, at as int, len as int) == Ok::<Seq<char>, AccessError>(s@),
            Err(e) => text_at(memory@, at as int, len as int) == Err::<Seq<char>, AccessError>(e),
        },
{
    let bytes = match memory.read_range(at, len as usize) {
        Ok(b) => b,
        Err(e) => return Err(e),
    };
    match utf8_to_string(bytes.as_slice()) {
        Some(s) => Ok(s),
        None => Err(AccessError::InvalidUtf8),
    }
}

/// Writes `topic` at the registered topic buffer, then `payload` at the
/// registered payload buffer, and returns their lengths. The registered
/// capacities are not consulted: the sandbox must have registered buffers large
/// enough. A range outside the memory fails before anything is written.
pub fn set_message_buffer(
    memory: &mut LinearMemory,
    reg: &BufferRegistration,
    payload: &[u8],
    topic: &[u8],
) -> (r: Result<(i32, i32), AccessError>)
    requires
        old(memory).wf(),
    ensures
        final(memory).wf(),
        match r {
            Ok((t, p)) => message_fits(old(memory)@.len(), *reg, topic@, payload@)
                && t == topic@.len() && p == payload@.len()
                && final(memory)@ == with_message(old(memory)@, *reg, topic@, payload@),
            Err(e) => e == AccessError::OutOfBounds
                && !message_fits(old(memory)@.len(), *reg, topic@, payload@)
                && final(memory)@ == old(memory)@,
        },
{
    let size = memory.len();
    if reg.topic_ptr < 0 || topic.len() > size || reg.topic_ptr as usize > size - topic.len() {
        return Err(AccessError::OutOfBounds);
    }
    if reg.payload_ptr < 0 || payload.len() > size || reg.payload_ptr as usize > size - payload.len() {
        return Err(AccessError::OutOfBounds);
    }
    let w1 = memory.write_bytes(reg.topic_ptr, topic);
    let w2 = memory.write_bytes(reg.payload_ptr, payload);
    assert(w1.is_ok() && w2.is_ok());
    (Ok((topic.len() as i32, payload.len() as i32)))
}

/// The bundle identifier that the sandbox exposes: one length byte at
/// `len_ptr`, then that many bytes of UTF-8 at `str_ptr`.
pub open spec fn bundle_id_at(m: Seq<u8>, str_ptr: int, len_ptr: int) -> Result<Seq<char>, AccessError> {
    if !in_bounds(m.len(), len_ptr, 1) {
        Err(AccessError::OutOfBounds)
    } else {
        text_at(m, str_ptr, m[len_ptr] as int)
    }
}

/// Decodes the bundle identifier of a freshly initialised sandbox.
pub fn get_bundle_id(memory: &LinearMemory, str_ptr: i32, len_ptr: i32) -> (r: Result<String, AccessError>)
    ensures
        match r {
            Ok(s) => bundle_id_at(memory@, str_ptr as int, len_ptr as int) == Ok::<Seq<char>, AccessError>(s@),
            Err(e) => bundle_id_at(memory@, str_ptr as int, len_ptr as int) == Err::<Seq<char>, AccessError>(e),
        },
{
    let len = match memory.read_byte(len_ptr) {
        Ok(b) => b,
        Err(e) => return Err(e),
    };
    read_text(memory, str_ptr, len as u32)
}

} // verus!
