use console_memory::input_output_registers::InputOutputRegisters;
use console_memory::memory_device::{MemoryError, ReadWrite};
use console_memory::timer::Timer;

#[test]
fn timer_answers_at_its_register_only() {
    let timer = Timer::new();
    assert!(timer.contains(0xFF07));
    assert!(!timer.contains(0xFF06));
    assert!(!timer.contains(0xFF08));
    assert!(!timer.contains(0));
}

#[test]
fn timer_holds_the_byte_written() {
    let mut timer = Timer::new();
    assert_eq!(timer.read_byte(0xFF07), Ok(0));
    assert_eq!(timer.write_byte(0xFF07, 0x05), Ok(()));
    assert_eq!(timer.read_byte(0xFF07), Ok(0x05));
    assert_eq!(timer.write_byte(0xFF07, 0xFF), Ok(()));
    assert_eq!(timer.read_byte(0xFF07), Ok(0xFF));
}

#[test]
fn timer_refuses_other_addresses() {
    let mut timer = Timer::new();
    assert_eq!(timer.read_byte(0xFF06), Err(MemoryError::InvalidAddress));
    assert_eq!(timer.write_byte(0xFF08, 1), Err(MemoryError::InvalidAddress));
    assert_eq!(timer.read_byte(0xFF07), Ok(0));
}

#[test]
fn timer_refuses_words() {
    let mut timer = Timer::new();
    assert_eq!(timer.write_byte(0xFF07, 0x07), Ok(()));
    assert_eq!(timer.read_word(0xFF07), Err(MemoryError::InvalidAddress));
    assert_eq!(timer.write_word(0xFF07, 0x1234), Err(MemoryError::InvalidAddress));
    assert_eq!(timer.read_word(0xFF06), Err(MemoryError::InvalidAddress));
    assert_eq!(timer.read_byte(0xFF07), Ok(0x07));
}

#[test]
fn register_block_claims_its_range_but_the_interrupt_flag() {
    let block = InputOutputRegisters::new();
    assert!(block.contains(0xFF00));
    assert!(block.contains(0xFF07));
    assert!(block.contains(0xFF7F));
    assert!(!block.contains(0xFF0F));
    assert!(!block.contains(0xFEFF));
    assert!(!block.contains(0xFF80));
}

#[test]
fn register_block_holds_bytes() {
    let mut block = InputOutputRegisters::new();
    assert_eq!(block.read_byte(0xFF40), Ok(0));
    assert_eq!(block.write_byte(0xFF40, 0x91), Ok(()));
    assert_eq!(block.read_byte(0xFF40), Ok(0x91));
    assert_eq!(block.read_byte(0xFF41), Ok(0));
    assert_eq!(block.read_byte(0xFF0F), Err(MemoryError::InvalidAddress));
    assert_eq!(block.write_byte(0xFF80, 1), Err(MemoryError::InvalidAddress));
}

#[test]
fn register_block_hands_the_timer_its_register() {
    let mut block = InputOutputRegisters::new();
    assert_eq!(block.write_byte(0xFF07, 0x06), Ok(()));
    assert_eq!(block.read_byte(0xFF07), Ok(0x06));
    assert_eq!(block.read_word(0xFF07), Err(MemoryError::InvalidAddress));
    assert_eq!(block.write_word(0xFF07, 0x0101), Err(MemoryError::InvalidAddress));
    assert_eq!(block.read_byte(0xFF07), Ok(0x06));
    assert_eq!(block.read_byte(0xFF08), Ok(0));
}

#[test]
fn register_block_words_need_two_plain_registers() {
    let mut block = InputOutputRegisters::new();
    assert_eq!(block.write_word(0xFF42, 0xBEEF), Ok(()));
    assert_eq!(block.read_word(0xFF42), Ok(0xBEEF));
    assert_eq!(block.read_byte(0xFF42), Ok(0xEF));
    assert_eq!(block.read_byte(0xFF43), Ok(0xBE));
    assert_eq!(block.write_word(0xFF06, 0x1234), Err(MemoryError::InvalidAddress));
    assert_eq!(block.read_byte(0xFF06), Ok(0));
    assert_eq!(block.write_word(0xFF0E, 0x1234), Err(MemoryError::InvalidAddress));
    assert_eq!(block.read_byte(0xFF0E), Ok(0));
    assert_eq!(block.write_word(0xFF7F, 0x1234), Err(MemoryError::InvalidAddress));
    assert_eq!(block.read_word(0xFF7F), Err(MemoryError::InvalidAddress));
}
