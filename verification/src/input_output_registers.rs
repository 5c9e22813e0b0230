//! The block of memory-mapped peripheral registers, `0xFF00` to `0xFF7F`.
//!
//! The block holds every register of that range as a plain byte, but for two:
//! the timer-control register, which it hands to its [`Timer`], and the
//! interrupt-flag register, which is not its own.

use vstd::prelude::*;
use crate::internal_memory::INTERRUPT_FLAG;
use crate::memory_device::{
    accepted, high_byte, low_byte, make_word, refused, split_word, word_from_bytes, MemoryError,
    ReadWrite, Written,
};
use crate::timer::{Timer, TimerState, TIMER_CONTROL};

verus! {

/// First address of the register block.
pub const IO_START: usize = 0xFF00;

/// Last address of the register block.
pub const IO_END: usize = 0xFF7F;

/// Whether `address` is a register that the block itself holds.
pub open spec fn plain_register(address: int) -> bool {
    &&& IO_START <= address <= IO_END
    &&& address != TIMER_CONTROL
    &&& address != INTERRUPT_FLAG
}

/// The peripheral registers and the timer.
pub struct InputOutputRegisters {
    /// One byte for each address from `0xFF00` to `0xFF7F`.
    registers: [u8; 0x80],
    timer: Timer,
}

/// The state of an [`InputOutputRegisters`] block.
pub struct IoState {
    /// The 128 register bytes; the one at `address` stands at `address - 0xFF00`.
    pub registers: Seq<u8>,
    pub timer: TimerState,
}

impl IoState {
    /// The block holds 128 bytes.
    pub open spec fn wf(self) -> bool {
        self.registers.len() == 0x80
    }

    /// The block after power-on: every register is zero.
    pub open spec fn initial() -> IoState {
        IoState {
            registers: Seq::new(0x80, |i: int| 0u8),
            timer: TimerState { control: 0 },
        }
    }
}

impl View for InputOutputRegisters {
    type V = IoState;

    closed spec fn view(&self) -> IoState {
        IoState { registers: self.registers@, timer: self.timer@ }
    }
}

impl InputOutputRegisters {
    /// A block whose registers are all zero.
    pub fn new() -> (block: InputOutputRegisters)
        ensures
            block@ == IoState::initial(),
    {
        let block = InputOutputRegisters { registers: [0u8; 0x80], timer: Timer::new() };
        assert(block@.registers =~= IoState::initial().registers);
        block
    }

    /// The state of a block always holds its 128 bytes.
    pub proof fn lemma_view_is_wf(&self)
        ensures
            self@.wf(),
    {
    }

    /// Whether the block itself holds the register at `address`.
    fn holds(address: usize) -> (plain: bool)
        ensures
            plain == plain_register(address as int),
    {
        IO_START <= address && address <= IO_END && address != TIMER_CONTROL && address
            != INTERRUPT_FLAG
    }
}

impl ReadWrite for InputOutputRegisters {
    open spec fn claims(state: IoState, address: int) -> bool {
        Timer::claims(state.timer, address) || plain_register(address)
    }

    open spec fn byte_at(state: IoState, address: int) -> Result<u8, MemoryError> {
        if Timer::claims(state.timer, address) {
            Timer::byte_at(state.timer, address)
        } else if plain_register(address) {
            Ok(state.registers[address - IO_START])
        } else {
            Err(MemoryError::InvalidAddress)
        }
    }

    /// A word is two registers of the block side by side.
    open spec fn word_at(state: IoState, address: int) -> Result<u16, MemoryError> {
        if Timer::claims(state.timer, address) {
            Timer::word_at(state.timer, address)
        } else if plain_register(address) && plain_register(address + 1) {
            Ok(
                word_from_bytes(
                    state.registers[address - IO_START],
                    state.registers[address + 1 - IO_START],
                ),
            )
        } else {
            Err(MemoryError::InvalidAddress)
        }
    }

    open spec fn byte_written(state: IoState, address: int, value: u8) -> Written<IoState> {
        if Timer::claims(state.timer, address) {
            let timer = Timer::byte_written(state.timer, address, value);
            Written { state: IoState { timer: timer.state, ..state }, result: timer.result }
        } else if plain_register(address) {
            accepted(
                IoState { registers: state.registers.update(address - IO_START, value), ..state },
            )
        } else {
            refused(state, MemoryError::InvalidAddress)
        }
    }

    open spec fn word_written(state: IoState, address: int, value: u16) -> Written<IoState> {
        if Timer::claims(state.timer, address) {
            let timer = Timer::word_written(state.timer, address, value);
            Written { state: IoState { timer: timer.state, ..state }, result: timer.result }
        } else if plain_register(address) && plain_register(address + 1) {
            accepted(
                IoState {
                    registers: state.registers.update(address - IO_START, low_byte(value)).update(
                        address + 1 - IO_START,
                        high_byte(value),
                    ),
                    ..state
                },
            )
        } else {
            refused(state, MemoryError::InvalidAddress)
        }
    }

    fn contains(&self, address: usize) -> (claimed: bool) {
        self.timer.contains(address) || Self::holds(address)
    }

    fn read_byte(&self, address: usize) -> (result: Result<u8, MemoryError>) {
        if self.timer.contains(address) {
            self.timer.read_byte(address)
        } else if Self::holds(address) {
            Ok(self.registers[address - IO_START])
        } else {
            Err(MemoryError::InvalidAddress)
        }
    }

    fn read_word(&self, address: usize) -> (result: Result<u16, MemoryError>) {
        if self.timer.contains(address) {
            self.timer.read_word(address)
        } else if Self::holds(address) && Self::holds(address + 1) {
            let low: u8 = self.registers[address - IO_START];
            let high: u8 = self.registers[address + 1 - IO_START];
            Ok(make_word(low, high))
        } else {
            Err(MemoryError::InvalidAddress)
        }
    }

    fn write_byte(&mut self, address: usize, value: u8) -> (result: Result<(), MemoryError>) {
        if self.timer.contains(address) {
            self.timer.write_byte(address, value)
        } else if Self::holds(address) {
            self.registers[address - IO_START] = value;
            Ok(())
        } else {
            Err(MemoryError::InvalidAddress)
        }
    }

    fn write_word(&mut self, address: usize, value: u16) -> (result: Result<(), MemoryError>) {
        if self.timer.contains(address) {
            self.timer.write_word(address, value)
        } else if Self::holds(address) && Self::holds(address + 1) {
            let (low, high) = split_word(value);
            self.registers[address - IO_START] = low;
            self.registers[address + 1 - IO_START] = high;
            Ok(())
        } else {
            Err(MemoryError::InvalidAddress)
        }
    }

    proof fn lemma_unclaimed_is_refused(state: IoState, address: int, byte: u8, word: u16) {
    }

    proof fn lemma_how_operations_fail(state: IoState, address: int, byte: u8) {
    }
}

/// Writes keep the block at its 128 bytes.
pub proof fn lemma_io_writes_keep_wf(state: IoState, address: int, byte: u8, word: u16)
    requires
        state.wf(),
    ensures
        InputOutputRegisters::byte_written(state, address, byte).state.wf(),
        InputOutputRegisters::word_written(state, address, word).state.wf(),
{
}

/// The block answers byte reads and byte writes at exactly the addresses it
/// claims, and refuses a write for one reason only: the address.
pub proof fn lemma_io_answers_where_it_claims(state: IoState, address: int, byte: u8, word: u16)
    ensures
        InputOutputRegisters::claims(state, address) <==> InputOutputRegisters::byte_at(
            state,
            address,
        ) is Ok,
        InputOutputRegisters::claims(state, address) <==> InputOutputRegisters::byte_written(
            state,
            address,
            byte,
        ).result is Ok,
        InputOutputRegisters::byte_written(state, address, byte).result matches Err(error)
            ==> error == MemoryError::InvalidAddress,
        InputOutputRegisters::word_written(state, address, word).result matches Err(error)
            ==> error == MemoryError::InvalidAddress,
{
}

/// A byte that the block accepted is the byte read back at that address.
pub proof fn lemma_io_byte_round_trip(state: IoState, address: int, value: u8)
    requires
        state.wf(),
        InputOutputRegisters::byte_written(state, address, value).result is Ok,
    ensures
        InputOutputRegisters::byte_at(
            InputOutputRegisters::byte_written(state, address, value).state,
            address,
        ) == Ok::<u8, MemoryError>(value),
{
}

/// A word that the block accepted is the word read back at that address.
pub proof fn lemma_io_word_round_trip(state: IoState, address: int, value: u16)
    requires
        state.wf(),
        InputOutputRegisters::word_written(state, address, value).result is Ok,
    ensures
        InputOutputRegisters::word_at(
            InputOutputRegisters::word_written(state, address, value).state,
            address,
        ) == Ok::<u16, MemoryError>(value),
{
}

/// A byte write changes what is read at its own address and nowhere else.
pub proof fn lemma_io_byte_write_is_local(state: IoState, address: int, value: u8, other: int)
    requires
        state.wf(),
        other != address,
    ensures
        InputOutputRegisters::byte_at(
            InputOutputRegisters::byte_written(state, address, value).state,
            other,
        ) == InputOutputRegisters::byte_at(state, other),
{
}

} // verus!
