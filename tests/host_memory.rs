use edge_agent::bridge::{get_bundle_id, read_text, set_message_buffer, BufferRegistration};
use edge_agent::host_api::{
    eea_fn_terminal_print, eea_get_device_id, eea_get_time, eea_send_message, eea_set_message_buffers,
    eea_storage_read, eea_storage_save, eea_trace, qos_from_level, u64_le_bytes, PublishRequest, Qos,
};
use edge_agent::memory::{AccessError, LinearMemory};
use edge_agent::queue::FifoQueue;

fn memory_with(size: usize, at: usize, data: &[u8]) -> LinearMemory {
    let mut bytes = vec![0u8; size];
    bytes[at..at + data.len()].copy_from_slice(data);
    LinearMemory::from_bytes(bytes).unwrap()
}

fn registration(topic_ptr: i32, topic_cap: i32, payload_ptr: i32, payload_cap: i32) -> BufferRegistration {
    BufferRegistration { topic_ptr, topic_cap, payload_ptr, payload_cap }
}

#[test]
fn encode_message_writes_topic_then_payload() {
    let mut mem = LinearMemory::new(64);
    let reg = registration(4, 8, 20, 16);
    let r = set_message_buffer(&mut mem, &reg, "hello".as_bytes(), "t".as_bytes());
    assert_eq!(r, Ok((1, 5)));
    let bytes = mem.as_bytes();
    assert_eq!(bytes[4], b't');
    assert_eq!(&bytes[20..25], b"hello");
    assert_eq!(bytes[5], 0);
    assert_eq!(bytes[25], 0);
    assert_eq!(bytes.iter().filter(|b| **b != 0).count(), 6);
}

#[test]
fn encode_message_ignores_registered_capacity() {
    let mut mem = LinearMemory::new(32);
    let reg = registration(0, 1, 10, 1);
    let r = set_message_buffer(&mut mem, &reg, "payload".as_bytes(), "topic".as_bytes());
    assert_eq!(r, Ok((5, 7)));
    assert_eq!(&mem.as_bytes()[0..5], b"topic");
    assert_eq!(&mem.as_bytes()[10..17], b"payload");
}

#[test]
fn encode_message_outside_memory_writes_nothing() {
    let mut mem = LinearMemory::new(16);
    let reg = registration(0, 8, 14, 8);
    let r = set_message_buffer(&mut mem, &reg, "hello".as_bytes(), "t".as_bytes());
    assert_eq!(r, Err(AccessError::OutOfBounds));
    assert!(mem.as_bytes().iter().all(|b| *b == 0));
    let negative = registration(-1, 8, 0, 8);
    assert_eq!(set_message_buffer(&mut mem, &negative, b"", b"t"), Err(AccessError::OutOfBounds));
}

#[test]
fn bundle_id_is_decoded_from_length_byte() {
    let mut mem = memory_with(128, 50, b"bundle-42");
    mem.write_byte(100, 6).unwrap();
    assert_eq!(get_bundle_id(&mem, 50, 100), Ok("bundle".to_string()));
    assert_eq!(get_bundle_id(&mem, 50, 128), Err(AccessError::OutOfBounds));
    let bad = memory_with(16, 0, &[2, 0xff, 0xfe]);
    assert_eq!(get_bundle_id(&bad, 1, 0), Err(AccessError::InvalidUtf8));
}

#[test]
fn read_text_checks_range_and_encoding() {
    let mem = memory_with(16, 2, "héllo".as_bytes());
    assert_eq!(read_text(&mem, 2, 6), Ok("héllo".to_string()));
    assert_eq!(read_text(&mem, 12, 6), Err(AccessError::OutOfBounds));
    assert_eq!(read_text(&mem, 3, 1), Err(AccessError::InvalidUtf8));
}

#[test]
fn storage_read_too_large_returns_one_and_writes_nothing() {
    let mut mem = LinearMemory::new(64);
    let stored = b"0123456789";
    assert_eq!(eea_storage_read(&mut mem, stored, 0, 5, 40), Ok(1));
    assert!(mem.as_bytes().iter().all(|b| *b == 0));
    assert_eq!(eea_storage_read(&mut mem, stored, 0, -1, 40), Ok(1));
    assert!(mem.as_bytes().iter().all(|b| *b == 0));
}

#[test]
fn storage_read_copies_bytes_and_length() {
    let mut mem = LinearMemory::new(64);
    let stored = b"{\"a\":1}";
    assert_eq!(eea_storage_read(&mut mem, stored, 8, 32, 60), Ok(0));
    assert_eq!(&mem.as_bytes()[8..15], stored);
    assert_eq!(mem.as_bytes()[60], 7);
    assert_eq!(eea_storage_read(&mut mem, stored, 60, 32, 0), Err(AccessError::OutOfBounds));
}

#[test]
fn device_id_length_is_requested_capacity() {
    let mut mem = LinearMemory::new(64);
    assert_eq!(eea_get_device_id(&mut mem, b"device-123", 0, 4, 40), Ok(0));
    assert_eq!(&mem.as_bytes()[0..5], b"devi\0");
    assert_eq!(mem.as_bytes()[40], 4);

    let mut mem = LinearMemory::new(64);
    assert_eq!(eea_get_device_id(&mut mem, b"device-123", 0, 20, 40), Ok(0));
    assert_eq!(&mem.as_bytes()[0..10], b"device-123");
    assert_eq!(mem.as_bytes()[10], 0);
    assert_eq!(mem.as_bytes()[40], 20);
}

#[test]
fn device_id_range_outside_memory_fails() {
    let mut mem = LinearMemory::new(16);
    assert_eq!(eea_get_device_id(&mut mem, b"dev", 10, 10, 0), Err(AccessError::OutOfBounds));
    assert_eq!(eea_get_device_id(&mut mem, b"dev", 0, -1, 10), Err(AccessError::OutOfBounds));
    assert!(mem.as_bytes().iter().all(|b| *b == 0));
}

#[test]
fn time_is_written_little_endian() {
    let mut mem = LinearMemory::new(16);
    assert_eq!(eea_get_time(&mut mem, 4, 0x0102_0304_0506_0708), Ok(0));
    assert_eq!(&mem.as_bytes()[4..12], &[8, 7, 6, 5, 4, 3, 2, 1]);
    assert_eq!(eea_get_time(&mut mem, 9, 1), Err(AccessError::OutOfBounds));
    assert_eq!(u64_le_bytes(1_700_000_000_123), 1_700_000_000_123u64.to_le_bytes().to_vec());
}

#[test]
fn message_buffers_last_registration_wins() {
    let mut reg = BufferRegistration::new();
    assert_eq!(reg, registration(0, 0, 0, 0));
    assert_eq!(eea_set_message_buffers(&mut reg, 1, 2, 3, 4), 0);
    assert_eq!(eea_set_message_buffers(&mut reg, 100, 64, 200, 512), 0);
    assert_eq!(reg, registration(100, 64, 200, 512));
}

#[test]
fn send_message_queues_request_with_qos() {
    let mut mem = memory_with(64, 0, b"a/b");
    mem.write_bytes(10, b"{\"x\":1}").unwrap();
    let mut queue: FifoQueue<PublishRequest> = FifoQueue::new();
    assert_eq!(eea_send_message(&mem, &mut queue, 0, 3, 10, 7, 1), Ok(0));
    assert_eq!(eea_send_message(&mem, &mut queue, 0, 1, 10, 0, 7), Ok(0));
    assert_eq!(eea_send_message(&mem, &mut queue, 60, 10, 10, 0, 0), Err(AccessError::OutOfBounds));
    let sent = queue.drain();
    assert_eq!(sent.len(), 2);
    assert_eq!(sent[0].topic, "a/b");
    assert_eq!(sent[0].payload, "{\"x\":1}");
    assert_eq!(sent[0].qos, Qos::AtLeastOnce);
    assert_eq!(sent[1].topic, "a");
    assert_eq!(sent[1].payload, "");
    assert_eq!(sent[1].qos, Qos::ExactlyOnce);
    assert_eq!(queue.len(), 0);
}

#[test]
fn qos_levels_map_to_guarantees() {
    assert_eq!(qos_from_level(0), Qos::AtMostOnce);
    assert_eq!(qos_from_level(1), Qos::AtLeastOnce);
    assert_eq!(qos_from_level(2), Qos::ExactlyOnce);
    assert_eq!(qos_from_level(-3), Qos::ExactlyOnce);
}

#[test]
fn trace_names_its_level() {
    let mem = memory_with(32, 0, b"boom");
    let t = eea_trace(&mem, 0, 4, 1).unwrap();
    assert_eq!(t.level, "ERROR");
    assert_eq!(t.message, "boom");
    assert_eq!(eea_trace(&mem, 0, 4, 2).unwrap().level, "INFO");
    assert_eq!(eea_trace(&mem, 0, 4, 0).unwrap().level, "");
    assert!(matches!(eea_trace(&mem, 0, 4, 3), Err(AccessError::UnknownTraceLevel)));
    assert!(matches!(eea_trace(&mem, 30, 4, 1), Err(AccessError::OutOfBounds)));
}

#[test]
fn storage_save_and_terminal_print_decode_text() {
    let mem = memory_with(32, 3, b"{\"k\":2}");
    assert_eq!(eea_storage_save(&mem, 3, 7), Ok("{\"k\":2}".to_string()));
    assert_eq!(eea_fn_terminal_print(&mem, 3, 7), Ok("{\"k\":2}".to_string()));
    assert_eq!(eea_fn_terminal_print(&mem, 3, -1), Err(AccessError::OutOfBounds));
}

#[test]
fn memory_accessors_are_bounds_checked() {
    let mut mem = LinearMemory::new(8);
    assert_eq!(mem.len(), 8);
    assert_eq!(mem.write_bytes(6, b"abc"), Err(AccessError::OutOfBounds));
    assert_eq!(mem.write_bytes(5, b"abc"), Ok(()));
    assert_eq!(mem.read_range(5, 3), Ok(b"abc".to_vec()));
    assert_eq!(mem.read_range(-1, 1), Err(AccessError::OutOfBounds));
    assert_eq!(mem.read_byte(7), Ok(b'c'));
    assert_eq!(mem.read_byte(8), Err(AccessError::OutOfBounds));
}
