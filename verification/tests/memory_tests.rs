use minivm::error::VmError;
use minivm::memory::Memory;

#[test]
fn new_memory_is_zero_filled() {
    let memory = Memory::new(16);
    assert_eq!(memory.size(), 16);
    for address in 0..16 {
        assert_eq!(memory.read_byte(address), Ok(0));
    }
    assert_eq!(memory.dump_to_bytes(), vec![0u8; 16]);
}

#[test]
fn empty_memory_rejects_every_access() {
    let mut memory = Memory::new(0);
    assert_eq!(memory.size(), 0);
    assert_eq!(memory.read_byte(0), Err(VmError::OutOfBounds { address: 0 }));
    assert_eq!(memory.read_word(0), Err(VmError::OutOfBounds { address: 0 }));
    assert_eq!(memory.write_byte(0, 1), Err(VmError::OutOfBounds { address: 0 }));
    assert_eq!(memory.write_word(0, 1), Err(VmError::OutOfBounds { address: 0 }));
    assert_eq!(memory.dump_to_bytes(), Vec::<u8>::new());
}

#[test]
fn write_byte_then_read_byte() {
    let mut memory = Memory::new(8);
    for address in 0..8usize {
        let value = (address as u8).wrapping_mul(37).wrapping_add(5);
        assert_eq!(memory.write_byte(address, value), Ok(1));
        assert_eq!(memory.read_byte(address), Ok(value));
    }
    assert_eq!(memory.write_byte(3, 0xFF), Ok(1));
    assert_eq!(memory.read_byte(3), Ok(0xFF));
    assert_eq!(memory.read_byte(2), Ok(2u8.wrapping_mul(37).wrapping_add(5)));
    assert_eq!(memory.read_byte(4), Ok(4u8.wrapping_mul(37).wrapping_add(5)));
}

#[test]
fn write_word_then_read_word() {
    let mut memory = Memory::new(8);
    for &word in &[0u16, 1, 0x00FF, 0x0100, 0x1234, 0xABCD, 0xFF00, 0xFFFF] {
        for address in 0..7usize {
            assert_eq!(memory.write_word(address, word), Ok(2));
            assert_eq!(memory.read_word(address), Ok(word));
        }
    }
}

#[test]
fn every_word_round_trips() {
    let mut memory = Memory::new(2);
    for word in 0..=u16::MAX {
        assert_eq!(memory.write_word(0, word), Ok(2));
        assert_eq!(memory.read_word(0), Ok(word));
    }
}

#[test]
fn words_are_little_endian() {
    let mut memory = Memory::new(4);
    assert_eq!(memory.write_word(1, 0x1234), Ok(2));
    assert_eq!(memory.dump_to_bytes(), vec![0x00, 0x34, 0x12, 0x00]);
    assert_eq!(memory.read_byte(1), Ok(0x34));
    assert_eq!(memory.read_byte(2), Ok(0x12));

    let memory = Memory::from_bytes(vec![0xCD, 0xAB, 0x01]);
    assert_eq!(memory.read_word(0), Ok(0xABCD));
    assert_eq!(memory.read_word(1), Ok(0x01AB));
}

#[test]
fn byte_access_is_bounds_checked() {
    let mut memory = Memory::from_bytes(vec![1, 2, 3]);
    assert_eq!(memory.read_byte(2), Ok(3));
    assert_eq!(memory.read_byte(3), Err(VmError::OutOfBounds { address: 3 }));
    assert_eq!(memory.read_byte(usize::MAX), Err(VmError::OutOfBounds { address: usize::MAX }));
    assert_eq!(memory.write_byte(3, 9), Err(VmError::OutOfBounds { address: 3 }));
    assert_eq!(memory.write_byte(100, 9), Err(VmError::OutOfBounds { address: 100 }));
    assert_eq!(memory.dump_to_bytes(), vec![1, 2, 3]);
}

#[test]
fn word_access_is_bounds_checked() {
    let mut memory = Memory::from_bytes(vec![1, 2, 3]);
    assert_eq!(memory.read_word(1), Ok(0x0302));
    assert_eq!(memory.read_word(2), Err(VmError::OutOfBounds { address: 2 }));
    assert_eq!(memory.read_word(3), Err(VmError::OutOfBounds { address: 3 }));
    assert_eq!(memory.read_word(usize::MAX), Err(VmError::OutOfBounds { address: usize::MAX }));
    assert_eq!(memory.write_word(1, 0xBEEF), Ok(2));
    assert_eq!(memory.dump_to_bytes(), vec![1, 0xEF, 0xBE]);
}

#[test]
fn rejected_word_write_changes_nothing() {
    let mut memory = Memory::from_bytes(vec![1, 2, 3]);
    assert_eq!(memory.write_word(2, 0xBEEF), Err(VmError::OutOfBounds { address: 2 }));
    assert_eq!(memory.write_word(3, 0xBEEF), Err(VmError::OutOfBounds { address: 3 }));
    assert_eq!(
        memory.write_word(usize::MAX, 0xBEEF),
        Err(VmError::OutOfBounds { address: usize::MAX })
    );
    assert_eq!(memory.dump_to_bytes(), vec![1, 2, 3]);
}

#[test]
fn one_byte_memory_holds_no_word() {
    let mut memory = Memory::new(1);
    assert_eq!(memory.read_byte(0), Ok(0));
    assert_eq!(memory.read_word(0), Err(VmError::OutOfBounds { address: 0 }));
    assert_eq!(memory.write_word(0, 7), Err(VmError::OutOfBounds { address: 0 }));
    assert_eq!(memory.dump_to_bytes(), vec![0]);
}

#[test]
fn writes_leave_other_addresses_alone() {
    let mut memory = Memory::from_bytes(vec![10, 20, 30, 40, 50]);
    assert_eq!(memory.write_byte(0, 11), Ok(1));
    assert_eq!(memory.dump_to_bytes(), vec![11, 20, 30, 40, 50]);
    assert_eq!(memory.write_word(2, 0x0201), Ok(2));
    assert_eq!(memory.dump_to_bytes(), vec![11, 20, 0x01, 0x02, 50]);
}

#[test]
fn from_bytes_holds_the_bytes() {
    let bytes = vec![0x10, 0x00, 0x05, 0x00, 0x01];
    let memory = Memory::from_bytes(bytes.clone());
    assert_eq!(memory.size(), 5);
    assert_eq!(memory.dump_to_bytes(), bytes);
    for (address, byte) in bytes.iter().enumerate() {
        assert_eq!(memory.read_byte(address), Ok(*byte));
    }
}

#[test]
fn load_from_bytes_replaces_the_buffer() {
    let mut memory = Memory::new(4);
    memory.load_from_bytes(vec![9, 8, 7, 6, 5, 4]);
    assert_eq!(memory.size(), 6);
    assert_eq!(memory.dump_to_bytes(), vec![9, 8, 7, 6, 5, 4]);
    memory.load_from_bytes(vec![1]);
    assert_eq!(memory.size(), 1);
    assert_eq!(memory.read_byte(0), Ok(1));
    assert_eq!(memory.read_byte(1), Err(VmError::OutOfBounds { address: 1 }));
    memory.load_from_bytes(Vec::new());
    assert_eq!(memory.size(), 0);
}

#[test]
fn dump_is_a_copy() {
    let mut memory = Memory::from_bytes(vec![1, 2, 3]);
    let dump = memory.dump_to_bytes();
    assert_eq!(memory.write_byte(0, 99), Ok(1));
    assert_eq!(dump, vec![1, 2, 3]);
    assert_eq!(memory.dump_to_bytes(), vec![99, 2, 3]);
}

#[test]
fn hexdump_pairs_addresses_with_bytes() {
    let memory = Memory::from_bytes(vec![0xAA, 0xBB, 0xCC, 0xDD]);
    assert_eq!(memory.hexdump(1, 3), vec![(1, 0xBB), (2, 0xCC)]);
    assert_eq!(memory.hexdump(0, 4), vec![(0, 0xAA), (1, 0xBB), (2, 0xCC), (3, 0xDD)]);
    assert_eq!(memory.hexdump(2, 2), Vec::<(usize, u8)>::new());
    assert_eq!(memory.hexdump(4, 4), Vec::<(usize, u8)>::new());
}
