use pros_simulator::lcd::Lcd;
use pros_simulator::memory::{MemoryLocation, RobotMemory};

#[test]
fn fresh_memory_is_zeroed() {
    let mem = RobotMemory::new(64);
    assert_eq!(mem.data.len(), 64);
    assert!(mem.data.iter().all(|b| *b == 0));
    assert_eq!(mem.dealloc_requests.len(), 0);
}

#[test]
fn location_accessors() {
    let loc = MemoryLocation::new(16, 8);
    assert_eq!(loc.as_tuple(), (16, 8));
    assert_eq!(loc.as_wasm_tuple(), (16, 8));
}

#[test]
fn write_then_read_is_identity() {
    let mut mem = RobotMemory::new(64);
    let handle = mem.get(MemoryLocation::new(16, 13));
    let bytes: Vec<u8> = b"Hello, world!".to_vec();
    handle.write(&mut mem, &bytes, 0);
    let back = handle.read(&mem);
    assert_eq!(back, bytes);
    // untouched bytes stay zero
    assert_eq!(mem.data[15], 0);
    assert_eq!(mem.data[29], 0);
}

#[test]
fn write_at_offset_lands_inside_the_range() {
    let mut mem = RobotMemory::new(32);
    let handle = mem.get(MemoryLocation::new(8, 8));
    handle.write(&mut mem, &vec![0xAB, 0xCD], 3);
    assert_eq!(mem.data[11], 0xAB);
    assert_eq!(mem.data[12], 0xCD);
}

#[test]
fn releasing_an_owned_handle_requests_one_deallocation() {
    let mut mem = RobotMemory::new(64);
    let handle = mem.get_owned(MemoryLocation::new(24, 4));
    assert!(handle.should_dealloc);
    handle.release(&mut mem);
    assert_eq!(mem.dealloc_requests, vec![24]);
}

#[test]
fn releasing_a_borrowed_handle_requests_nothing() {
    let mut mem = RobotMemory::new(64);
    let handle = mem.get(MemoryLocation::new(24, 4));
    assert!(!handle.should_dealloc);
    handle.release(&mut mem);
    assert_eq!(mem.dealloc_requests.len(), 0);
}

#[test]
fn into_raw_transfers_ownership_out() {
    let mut mem = RobotMemory::new(64);
    let handle = mem.get_owned(MemoryLocation::new(24, 4));
    let loc = handle.into_raw();
    assert_eq!(loc, MemoryLocation::new(24, 4));
    assert_eq!(mem.dealloc_requests.len(), 0);
    // the duty to free travels with the location
    let again = mem.get_owned(loc);
    again.release(&mut mem);
    assert_eq!(mem.dealloc_requests, vec![24]);
}

#[test]
fn text_round_trips_through_memory_and_display() {
    let mut mem = RobotMemory::new(128);
    let text = "Hello, world!";
    let handle = mem.get(MemoryLocation::new(32, text.len() as u32));
    handle.write(&mut mem, &text.as_bytes().to_vec(), 0);

    let mut lcd = Lcd::new();
    lcd.initialize().unwrap();
    assert_eq!(lcd.set_line_from_memory(&mem, &handle, 0), Ok(()));
    assert_eq!(lcd.lines[0], "Hello, world!");
}

#[test]
fn store_and_echo_is_lossless() {
    let mut mem = RobotMemory::new(128);
    let text = "Hello, world!";
    let handle = mem.get(MemoryLocation::new(64, text.len() as u32));
    let mut lcd = Lcd::new();
    lcd.initialize().unwrap();
    assert_eq!(lcd.store_and_echo(&mut mem, &handle, text, 0), Ok(()));
    assert_eq!(lcd.lines[0], "Hello, world!");
    assert_eq!(handle.read(&mem), text.as_bytes());
}

#[test]
fn echo_requires_an_enabled_display() {
    let mut mem = RobotMemory::new(128);
    let handle = mem.get(MemoryLocation::new(0, 2));
    let mut lcd = Lcd::new();
    assert_eq!(lcd.set_line_from_memory(&mem, &handle, 0), Err(6));
}

#[test]
fn stored_words_read_back_little_endian() {
    let mut mem = RobotMemory::new(32);
    let handle = mem.get(MemoryLocation::new(8, 8));
    handle.write(&mut mem, &vec![0x78, 0x56, 0x34, 0x12], 4);
    assert_eq!(handle.read_u32_le(&mem, 4), 0x1234_5678);
    assert_eq!(handle.read_u32_le(&mem, 0), 0);
}

#[test]
fn invalid_utf8_decodes_to_replacement_characters() {
    let mut mem = RobotMemory::new(16);
    let handle = mem.get(MemoryLocation::new(0, 2));
    handle.write(&mut mem, &vec![0xFF, b'a'], 0);
    assert_eq!(handle.to_text(&mem), "\u{FFFD}a");
}

#[test]
fn to_text_decodes_what_was_stored() {
    let mut mem = RobotMemory::new(32);
    let handle = mem.get(MemoryLocation::new(4, 5));
    handle.write(&mut mem, &b"abcde".to_vec(), 0);
    assert_eq!(handle.to_text(&mem), "abcde");
}
