//! The functions that the sandbox imports from the host. Each one works on the
//! shared linear memory through integer offsets and lengths.
use vstd::prelude::*;
use vstd::string::StringExecFns;
use crate::bridge::{read_text, text_at, BufferRegistration};
use crate::memory::{in_bounds, written, AccessError, LinearMemory};
use crate::queue::FifoQueue;

verus! {

/// Delivery guarantee of an outbound publish.
#[derive(Debug, Clone, Copy, PartialEq, Eq, Structural)]
pub enum Qos {
    AtMostOnce,
    AtLeastOnce,
    ExactlyOnce,
}

/// The guarantee that the sandbox's integer `qos` asks for.
pub open spec fn qos_spec(qos: int) -> Qos {
    if qos == 0 {
        Qos::AtMostOnce
    } else if qos == 1 {
        Qos::AtLeastOnce
    } else {
        Qos::ExactlyOnce
    }
}

pub fn qos_from_level(qos: i32) -> (r: Qos)
    ensures
        r == qos_spec(qos as int),
{
    if qos == 0 {
        Qos::AtMostOnce
    } else if qos == 1 {
        Qos::AtLeastOnce
    } else {
        Qos::ExactlyOnce
    }
}

/// A message that the sandbox asked the host to publish.
pub struct PublishRequest {
    pub topic: String,
    pub payload: String,
    pub qos: Qos,
}

/// A line that the sandbox asked the host to log, with its severity name.
pub struct TraceRecord {
    pub level: String,
    pub message: String,
}

/// The severity name of trace level `level`.
pub open spec fn trace_level_name(level: int) -> Option<Seq<char>> {
    if level == 0 {
        Some(""@)
    } else if level == 1 {
        Some("ERROR"@)
    } else if level == 2 {
        Some("INFO"@)
    } else {
        None
    }
}

/// Decodes the text of a trace call and names its severity.
pub fn eea_trace(memory: &LinearMemory, message: i32, len: u32, level: i32) -> (r: Result<
    TraceRecord,
    AccessError,
>)
    ensures
        match r {
            Ok(t) => text_at(memory@, message as int, len as int) == Ok::<Seq<char>, AccessError>(t.message@)
                && trace_level_name(level as int) == Some(t.level@),
            Err(e) => match text_at(memory@, message as int, len as int) {
                Err(te) => e == te,
                Ok(_) => e == AccessError::UnknownTraceLevel && trace_level_name(level as int) is None,
            },
        },
{
    let text = match read_text(memory, message, len) {
        Ok(s) => s,
        Err(e) => return Err(e),
    };
    let name = if level == 0 {
        String::from_str("")
    } else if level == 1 {
        String::from_str("ERROR")
    } else if level == 2 {
        String::from_str("INFO")
    } else {
        return Err(AccessError::UnknownTraceLevel);
    };
    Ok(TraceRecord { level: name, message: text })
}

/// Decodes topic and payload and queues them for the publisher; never waits on
/// the network. Returns 0.
pub fn eea_send_message(
    memory: &LinearMemory,
    outbound: &mut FifoQueue<PublishRequest>,
    topic: i32,
    topic_len: u32,
    payload: i32,
    payload_len: u32,
    qos: i32,
) -> (r: Result<i32, AccessError>)
    ensures
        match r {
            Ok(code) => code == 0 && final(outbound)@.len() == old(outbound)@.len() + 1
                && final(outbound)@.take(old(outbound)@.len() as int) == old(outbound)@
                && text_at(memory@, topic as int, topic_len as int) == Ok::<Seq<char>, AccessError>(
                    final(outbound)@.last().topic@)
                && text_at(memory@, payload as int, payload_len as int) == Ok::<Seq<char>, AccessError>(
                    final(outbound)@.last().payload@)
                && final(outbound)@.last().qos == qos_spec(qos as int),
            Err(e) => final(outbound)@ == old(outbound)@ && (text_at(memory@, topic as int, topic_len as int)
                == Err::<Seq<char>, AccessError>(e) || (text_at(memory@, topic as int, topic_len as int) is Ok
                && text_at(memory@, payload as int, payload_len as int) == Err::<Seq<char>, AccessError>(e))),
        },
{
    let topic_text = match read_text(memory, topic, topic_len) {
        Ok(s) => s,
        Err(e) => return Err(e),
    };
    let payload_text = match read_text(memory, payload, payload_len) {
        Ok(s) => s,
        Err(e) => return Err(e),
    };
    let request = PublishRequest { topic: topic_text, payload: payload_text, qos: qos_from_level(qos) };
    outbound.push(request);
    assert(final(outbound)@.take(old(outbound)@.len() as int) =~= old(outbound)@);
    Ok(0)
}

/// The `n` low-order bytes of `v`, least significant first.
pub open spec fn le_bytes(v: nat, n: nat) -> Seq<u8>
    decreases n,
{
    if n == 0 {
        Seq::empty()
    } else {
        seq![(v % 256) as u8] + le_bytes(v / 256, (n - 1) as nat)
    }
}

/// The eight little-endian bytes of `v`.
pub fn u64_le_bytes(v: u64) -> (r: Vec<u8>)
    ensures
        r@ == le_bytes(v as nat, 8),
        r@.len() == 8,
{
    let mut out: Vec<u8> = Vec::new();
    let mut cur: u64 = v;
    let mut i: usize = 0;
    while i < 8
        invariant
            i <= 8,
            out@.len() == i,
            out@ + le_bytes(cur as nat, (8 - i) as nat) == le_bytes(v as nat, 8),
        decreases 8 - i,
    {
        let ghost prev = out@;
        out.push((cur % 256) as u8);
        assert(le_bytes(cur as nat, (8 - i) as nat) == seq![(cur % 256) as u8] + le_bytes(
            (cur / 256) as nat,
            (8 - i - 1) as nat,
        ));
        assert(out@ + le_bytes((cur / 256) as nat, (8 - i - 1) as nat) =~= prev + le_bytes(
            cur as nat,
            (8 - i) as nat,
        ));
        cur = cur / 256;
        i = i + 1;
    }
    assert(out@ =~= out@ + le_bytes(cur as nat, 0));
    out
}

/// Writes `now_ms`, the current Unix time in milliseconds, as eight
/// little-endian bytes at `out_timestamp`. Returns 0.
pub fn eea_get_time(memory: &mut LinearMemory, out_timestamp: i32, now_ms: u64) -> (r: Result<i32, AccessError>)
    ensures
        match r {
            Ok(code) => code == 0 && in_bounds(old(memory)@.len(), out_timestamp as int, 8)
                && final(memory)@ == written(old(memory)@, out_timestamp as int, le_bytes(now_ms as nat, 8)),
            Err(e) => e == AccessError::OutOfBounds && !in_bounds(old(memory)@.len(), out_timestamp as int, 8)
                && final(memory)@ == old(memory)@,
        },
{
    let bytes = u64_le_bytes(now_ms);
    match memory.write_bytes(out_timestamp, bytes.as_slice()) {
        Ok(()) => Ok(0),
        Err(e) => Err(e),
    }
}

/// Records the sandbox's message buffers; the last registration wins.
/// Returns 0.
pub fn eea_set_message_buffers(
    registration: &mut BufferRegistration,
    topic: i32,
    topic_len: i32,
    payload: i32,
    payload_len: i32,
) -> (r: i32)
    ensures
        r == 0,
        *final(registration) == (BufferRegistration {
            topic_ptr: topic,
            topic_cap: topic_len,
            payload_ptr: payload,
            payload_cap: payload_len,
        }),
{
    registration.topic_ptr = topic;
    registration.topic_cap = topic_len;
    registration.payload_ptr = payload;
    registration.payload_cap = payload_len;
    0
}

/// Decodes the text that the sandbox asks to store; the caller overwrites the
/// storage file with it.
pub fn eea_storage_save(memory: &LinearMemory, store_values: i32, len: u32) -> (r: Result<String, AccessError>)
    ensures
        match r {
            Ok(s) => text_at(memory@, store_values as int, len as int) == Ok::<Seq<char>, AccessError>(s@),
            Err(e) => text_at(memory@, store_values as int, len as int) == Err::<Seq<char>, AccessError>(e),
        },
{
    read_text(memory, store_values, len)
}

/// Memory after `stored` is copied to `out_id` and its length byte to
/// `out_id_len`.
pub open spec fn with_stored(m: Seq<u8>, stored: Seq<u8>, out_id: int, out_id_len: int) -> Seq<u8> {
    written(m, out_id, stored).update(out_id_len, (stored.len() % 256) as u8)
}

/// Copies the stored bytes to `out_id` and their length, as one byte, to
/// `out_id_len`, and returns 0. Where they are more than `buff_len`, returns 1
/// and writes nothing.
pub fn eea_storage_read(
    memory: &mut LinearMemory,
    stored: &[u8],
    out_id: i32,
    buff_len: i32,
    out_id_len: i32,
) -> (r: Result<i32, AccessError>)
    requires
        old(memory).wf(),
    ensures
        final(memory).wf(),
        stored@.len() > buff_len ==> r == Ok::<i32, AccessError>(1) && final(memory)@ == old(memory)@,
        stored@.len() <= buff_len ==> match r {
            Ok(code) => code == 0 && in_bounds(old(memory)@.len(), out_id as int, stored@.len() as int)
                && in_bounds(old(memory)@.len(), out_id_len as int, 1)
                && final(memory)@ == with_stored(old(memory)@, stored@, out_id as int, out_id_len as int),
            Err(e) => e == AccessError::OutOfBounds && final(memory)@ == old(memory)@
                && !(in_bounds(old(memory)@.len(), out_id as int, stored@.len() as int)
                && in_bounds(old(memory)@.len(), out_id_len as int, 1)),
        },
{
    let len = stored.len();
    if buff_len < 0 || len > buff_len as usize {
        return Ok(1);
    }
    let size = memory.len();
    if out_id < 0 || len > size || out_id as usize > size - len || out_id_len < 0 || out_id_len as usize >= size {
        return Err(AccessError::OutOfBounds);
    }
    let w1 = memory.write_bytes(out_id, stored);
    let w2 = memory.write_byte(out_id_len, (len % 256) as u8);
    assert(w1.is_ok() && w2.is_ok());
    Ok(0)
}

/// Memory after the device identifier is copied into `[out_id, out_id + buff_len)`
/// (as many of its bytes as fit) and `buff_len`, not the identifier's length,
/// is recorded as the length byte.
pub open spec fn with_device_id(m: Seq<u8>, id: Seq<u8>, out_id: int, buff_len: int, out_id_len: int) -> Seq<u8> {
    let n = if id.len() < buff_len { id.len() as int } else { buff_len };
    written(m, out_id, id.take(n)).update(out_id_len, (buff_len % 256) as u8)
}

/// Copies the configured device identifier into the sandbox's buffer of
/// `buff_len` bytes and records `buff_len` as its length. Returns 0.
pub fn eea_get_device_id(
    memory: &mut LinearMemory,
    device_id: &[u8],
    out_id: i32,
    buff_len: i32,
    out_id_len: i32,
) -> (r: Result<i32, AccessError>)
    requires
        old(memory).wf(),
    ensures
        final(memory).wf(),
        match r {
            Ok(code) => code == 0 && in_bounds(old(memory)@.len(), out_id as int, buff_len as int)
                && in_bounds(old(memory)@.len(), out_id_len as int, 1)
                && final(memory)@ == with_device_id(old(memory)@, device_id@, out_id as int, buff_len as int, out_id_len as int),
            Err(e) => e == AccessError::OutOfBounds && final(memory)@ == old(memory)@
                && !(in_bounds(old(memory)@.len(), out_id as int, buff_len as int)
                && in_bounds(old(memory)@.len(), out_id_len as int, 1)),
        },
{
    let size = memory.len();
    if out_id < 0 || buff_len < 0 || buff_len as usize > size || out_id as usize > size - buff_len as usize
        || out_id_len < 0 || out_id_len as usize >= size {
        return Err(AccessError::OutOfBounds);
    }
    let n: usize = if device_id.len() < buff_len as usize { device_id.len() } else { buff_len as usize };
    let mut part: Vec<u8> = Vec::new();
    let mut i: usize = 0;
    while i < n
        invariant
            n <= device_id@.len(),
            i <= n,
            part@ == device_id@.take(i as int),
        decreases n - i,
    {
        part.push(device_id[i]);
        i = i + 1;
        assert(part@ =~= device_id@.take(i as int));
    }
    let w1 = memory.write_bytes(out_id, part.as_slice());
    let w2 = memory.write_byte(out_id_len, (buff_len % 256) as u8);
    assert(w1.is_ok() && w2.is_ok());
    Ok(0)
}

/// Decodes the text that a workflow asks to print on the terminal.
pub fn eea_fn_terminal_print(memory: &LinearMemory, message: i32, len: i32) -> (r: Result<String, AccessError>)
    ensures
        match r {
            Ok(s) => text_at(memory@, message as int, len as int) == Ok::<Seq<char>, AccessError>(s@),
            Err(e) => text_at(memory@, message as int, len as int) == Err::<Seq<char>, AccessError>(e),
        },
{
    if len < 0 {
        return Err(AccessError::OutOfBounds);
    }
    read_text(memory, message, len as u32)
}

} // verus!
