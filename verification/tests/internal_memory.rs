use console_memory::internal_memory::InternalMemory;
use console_memory::memory_device::{MemoryError, ReadWrite};

#[test]
fn internal_memory_starts_zeroed() {
    let memory = InternalMemory::new();
    for address in [0xC000usize, 0xCFFF, 0xD000, 0xDFFF, 0xFF80, 0xFFFE, 0xFF0F, 0xFFFF, 0xFF00] {
        assert_eq!(memory.read_byte(address), Ok(0));
    }
}

#[test]
fn internal_memory_claims_its_ranges() {
    let memory = InternalMemory::new();
    for address in [
        0xC000usize, 0xCFFF, 0xD000, 0xDFFF, 0xFF80, 0xFFFE, 0xFF0F, 0xFFFF, 0xFF00, 0xFF07,
        0xFF7F,
    ] {
        assert!(memory.contains(address));
    }
    for address in [0x0000usize, 0x7FFF, 0x8000, 0xA000, 0xBFFF, 0xE000, 0xFEA0, 0xFEFF, 0x10000] {
        assert!(!memory.contains(address));
    }
}

#[test]
fn interrupt_enable_holds_the_byte_written() {
    let mut memory = InternalMemory::new();
    assert_eq!(memory.write_byte(0xFFFF, 0x1F), Ok(()));
    assert_eq!(memory.read_byte(0xFFFF), Ok(0x1F));
}

#[test]
fn interrupt_flag_holds_the_byte_written() {
    let mut memory = InternalMemory::new();
    assert_eq!(memory.write_byte(0xFF0F, 0xE1), Ok(()));
    assert_eq!(memory.read_byte(0xFF0F), Ok(0xE1));
    assert_eq!(memory.read_byte(0xFF0E), Ok(0));
    assert_eq!(memory.read_byte(0xFF10), Ok(0));
}

#[test]
fn unmapped_gap_is_refused() {
    let mut memory = InternalMemory::new();
    assert_eq!(memory.write_byte(0xFEA0, 1), Err(MemoryError::InvalidAddress));
    assert_eq!(memory.read_byte(0xFEA0), Err(MemoryError::InvalidAddress));
    assert_eq!(memory.write_word(0xFEA0, 1), Err(MemoryError::InvalidAddress));
    assert_eq!(memory.read_word(0xFEA0), Err(MemoryError::InvalidAddress));
    assert_eq!(memory.read_byte(0xE000), Err(MemoryError::InvalidAddress));
    assert_eq!(memory.read_byte(0x0000), Err(MemoryError::InvalidAddress));
    assert_eq!(memory.read_byte(usize::MAX), Err(MemoryError::InvalidAddress));
    assert_eq!(memory.read_word(usize::MAX), Err(MemoryError::InvalidAddress));
}

#[test]
fn every_claimed_address_holds_its_own_byte() {
    let mut memory = InternalMemory::new();
    let mut claimed: Vec<usize> = Vec::new();
    for address in 0xC000usize..=0xFFFF {
        if memory.contains(address) {
            claimed.push(address);
            let value = (address % 251) as u8 + 1;
            assert_eq!(memory.write_byte(address, value), Ok(()));
        } else {
            assert_eq!(memory.write_byte(address, 1), Err(MemoryError::InvalidAddress));
        }
    }
    assert_eq!(claimed.len(), 0x1000 + 0x1000 + 0x7F + 2 + 0x7F);
    for address in claimed {
        assert_eq!(memory.read_byte(address), Ok((address % 251) as u8 + 1));
    }
}

#[test]
fn words_round_trip_in_each_array() {
    let mut memory = InternalMemory::new();
    for (address, value) in [
        (0xC000usize, 0x1234u16),
        (0xCFFE, 0xBEEF),
        (0xD000, 0x0001),
        (0xDFFE, 0xFF00),
        (0xFF80, 0x00FF),
        (0xFFFD, 0xA55A),
        (0xFF10, 0x4321),
    ] {
        assert_eq!(memory.write_word(address, value), Ok(()));
        assert_eq!(memory.read_word(address), Ok(value));
        assert_eq!(memory.read_byte(address), Ok((value & 0xFF) as u8));
        assert_eq!(memory.read_byte(address + 1), Ok((value >> 8) as u8));
    }
}

#[test]
fn word_read_pairs_low_then_high() {
    let mut memory = InternalMemory::new();
    assert_eq!(memory.write_byte(0xC010, 0x34), Ok(()));
    assert_eq!(memory.write_byte(0xC011, 0x12), Ok(()));
    assert_eq!(memory.read_word(0xC010), Ok(0x1234));
}

#[test]
fn words_do_not_cross_arrays() {
    let mut memory = InternalMemory::new();
    for address in [0xCFFFusize, 0xDFFF, 0xFFFE, 0xFF0F, 0xFFFF, 0xFF7F] {
        assert_eq!(memory.write_word(address, 0xABCD), Err(MemoryError::InvalidAddress));
        assert_eq!(memory.read_word(address), Err(MemoryError::InvalidAddress));
        assert_eq!(memory.read_byte(address), Ok(0));
    }
    assert_eq!(memory.read_byte(0xD000), Ok(0));
}

#[test]
fn peripheral_registers_answer_through_the_memory() {
    let mut memory = InternalMemory::new();
    assert_eq!(memory.write_byte(0xFF07, 0x05), Ok(()));
    assert_eq!(memory.read_byte(0xFF07), Ok(0x05));
    assert_eq!(memory.read_word(0xFF07), Err(MemoryError::InvalidAddress));
    assert_eq!(memory.write_byte(0xFF46, 0xC1), Ok(()));
    assert_eq!(memory.read_byte(0xFF46), Ok(0xC1));
}
