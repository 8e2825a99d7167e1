use khzeb::bytes::{
    checked_read_cstring, checked_read_pointer, cstring_end, find_terminator, read_cstring,
    read_pointer,
};
use khzeb::runtime::{checked_read_subsystem_description, read_subsystem_description};

fn subsystem_memory() -> Vec<u8> {
    let mut memory = vec![0u8; 2 * 65536];
    memory[1024..1030].copy_from_slice(&[0x10, 0x04, 0x00, 0x00, 0x16, 0x04]);
    memory[1040..1058].copy_from_slice(b"Empty\0Does nothing");
    memory
}

#[test]
fn read_pointer_is_little_endian() {
    let memory = [0x78, 0x56, 0x34, 0x12, 0xff, 0xff, 0xff, 0xff, 0x00];
    assert_eq!(read_pointer(&memory, 0), 0x1234_5678);
    assert_eq!(read_pointer(&memory, 4), u32::MAX);
    assert_eq!(read_pointer(&memory, 1), 0xff12_3456);
    assert_eq!(read_pointer(&memory, 5), 0x00ff_ffff);
}

#[test]
fn read_pointer_undoes_to_le_bytes() {
    for word in [0u32, 1, 255, 256, 65535, 65536, 0x0102_0304, 0x8000_0000, u32::MAX] {
        let mut memory = vec![0xaa, 0xbb];
        memory.extend_from_slice(&word.to_le_bytes());
        assert_eq!(read_pointer(&memory, 2), word);
    }
}

#[test]
fn cstring_ends_at_first_zero() {
    let memory = b"ab\0cd\0\0";
    assert_eq!(cstring_end(memory, 0), 2);
    assert_eq!(cstring_end(memory, 1), 2);
    assert_eq!(cstring_end(memory, 2), 2);
    assert_eq!(cstring_end(memory, 3), 5);
    assert_eq!(cstring_end(memory, 5), 5);
    assert_eq!(cstring_end(memory, 6), 6);
}

#[test]
fn read_cstring_stops_before_terminator() {
    let memory = b"Empty\0Does nothing\0";
    assert_eq!(read_cstring(memory, 0), "Empty");
    assert_eq!(read_cstring(memory, 2), "pty");
    assert_eq!(read_cstring(memory, 5), "");
    assert_eq!(read_cstring(memory, 6), "Does nothing");
}

#[test]
fn read_cstring_decodes_utf8() {
    let mut memory = "zażółć gęślą jaźń 🐝".as_bytes().to_vec();
    memory.push(0);
    assert_eq!(read_cstring(&memory, 0), "zażółć gęślą jaźń 🐝");
}

#[test]
fn read_cstring_replaces_ill_formed_bytes() {
    let memory = [b'a', 0xff, b'b', 0xc3, 0x00];
    assert_eq!(read_cstring(&memory, 0), "a\u{fffd}b\u{fffd}");
}

#[test]
fn subsystem_description_is_read_through_its_pointers() {
    let memory = subsystem_memory();
    let description = read_subsystem_description(&memory, 1024);
    assert_eq!(description.name(), "Empty");
    assert_eq!(description.brief(), "Does nothing");
}

#[test]
fn subsystem_descriptions_compare_by_text() {
    let memory = subsystem_memory();
    let first = read_subsystem_description(&memory, 1024);
    let second = read_subsystem_description(&memory, 1024);
    assert_eq!(first, second);
    assert_eq!(first.clone(), first);

    let mut other = subsystem_memory();
    other[1040] = b'e';
    assert_ne!(read_subsystem_description(&other, 1024), first);
}

#[test]
fn find_terminator_reports_a_missing_one() {
    let memory = b"ab\0cd";
    assert_eq!(find_terminator(memory, 0), Some(2));
    assert_eq!(find_terminator(memory, 2), Some(2));
    assert_eq!(find_terminator(memory, 3), None);
    assert_eq!(find_terminator(memory, 5), None);
    assert_eq!(find_terminator(memory, 500), None);
    assert_eq!(find_terminator(b"", 0), None);
}

#[test]
fn checked_read_pointer_stays_within_the_memory() {
    let memory = [1u8, 0, 0, 0, 2];
    assert_eq!(checked_read_pointer(&memory, 0), Some(1));
    assert_eq!(checked_read_pointer(&memory, 1), Some(0x0200_0000));
    assert_eq!(checked_read_pointer(&memory, 2), None);
    assert_eq!(checked_read_pointer(&memory, 5), None);
    assert_eq!(checked_read_pointer(&memory, u32::MAX), None);
    assert_eq!(checked_read_pointer(&memory[..3], 0), None);
}

#[test]
fn checked_read_cstring_wants_a_terminator() {
    let memory = b"Empty\0open end";
    assert_eq!(checked_read_cstring(memory, 0), Some(String::from("Empty")));
    assert_eq!(checked_read_cstring(memory, 5), Some(String::new()));
    assert_eq!(checked_read_cstring(memory, 6), None);
    assert_eq!(checked_read_cstring(memory, 1000), None);
}

#[test]
fn description_outside_the_memory_is_refused() {
    let memory = subsystem_memory();
    let found = checked_read_subsystem_description(&memory, 1024).unwrap();
    assert_eq!(found, read_subsystem_description(&memory, 1024));

    let end = memory.len() as u32;
    assert_eq!(checked_read_subsystem_description(&memory, end - 7), None);
    assert_eq!(checked_read_subsystem_description(&memory, end), None);
    assert_eq!(checked_read_subsystem_description(&memory, u32::MAX), None);
    assert_eq!(checked_read_subsystem_description(&memory, u32::MAX - 3), None);
    assert!(checked_read_subsystem_description(&memory, end - 8).is_some());
}

#[test]
fn description_with_a_stray_pointer_is_refused() {
    let mut memory = subsystem_memory();
    memory[1024..1028].copy_from_slice(&0x0002_0000u32.to_le_bytes());
    assert_eq!(checked_read_subsystem_description(&memory, 1024), None);

    let mut memory = vec![0xffu8; 64];
    memory[0..4].copy_from_slice(&8u32.to_le_bytes());
    memory[4..8].copy_from_slice(&9u32.to_le_bytes());
    assert_eq!(checked_read_subsystem_description(&memory, 0), None);
    memory[63] = 0;
    let found = checked_read_subsystem_description(&memory, 0).unwrap();
    assert_eq!(found.name().chars().count(), 55);
    assert_eq!(found.brief().chars().count(), 54);
}
