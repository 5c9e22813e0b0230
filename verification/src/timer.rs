//! The timer-control register, a device of one byte.

use vstd::prelude::*;
use crate::memory_device::{accepted, refused, MemoryError, ReadWrite, Written};

verus! {

/// The only address at which the timer answers.
pub const TIMER_CONTROL: usize = 0xFF07;

/// The timer, as far as the address space sees it.
pub struct Timer {
    /// Timer control at `0xFF07`: bit 2 starts and stops the timer, bits 1
    /// and 0 select the input clock.
    tac: u8,
}

/// The state of a [`Timer`]: the byte last written to its control register.
pub struct TimerState {
    pub control: u8,
}

impl View for Timer {
    type V = TimerState;

    closed spec fn view(&self) -> TimerState {
        TimerState { control: self.tac }
    }
}

impl Timer {
    /// A timer whose control register holds zero.
    pub fn new() -> (timer: Timer)
        ensures
            timer@ == (TimerState { control: 0 }),
    {
        Timer { tac: 0 }
    }
}

impl ReadWrite for Timer {
    open spec fn claims(state: TimerState, address: int) -> bool {
        address == TIMER_CONTROL
    }

    open spec fn byte_at(state: TimerState, address: int) -> Result<u8, MemoryError> {
        if address == TIMER_CONTROL {
            Ok(state.control)
        } else {
            Err(MemoryError::InvalidAddress)
        }
    }

    /// A device of one byte holds no word: every word read is refused.
    open spec fn word_at(state: TimerState, address: int) -> Result<u16, MemoryError> {
        Err(MemoryError::InvalidAddress)
    }

    open spec fn byte_written(state: TimerState, address: int, value: u8) -> Written<TimerState> {
        if address == TIMER_CONTROL {
            accepted(TimerState { control: value })
        } else {
            refused(state, MemoryError::InvalidAddress)
        }
    }

    /// A device of one byte takes no word: every word write is refused.
    open spec fn word_written(state: TimerState, address: int, value: u16) -> Written<TimerState> {
        refused(state, MemoryError::InvalidAddress)
    }

    fn contains(&self, address: usize) -> (claimed: bool) {
        address == TIMER_CONTROL
    }

    fn read_byte(&self, address: usize) -> (result: Result<u8, MemoryError>) {
        match address {
            0xFF07 => Ok(self.tac),
            _ => Err(MemoryError::InvalidAddress),
        }
    }

    fn read_word(&self, _address: usize) -> (result: Result<u16, MemoryError>) {
        Err(MemoryError::InvalidAddress)
    }

    fn write_byte(&mut self, address: usize, value: u8) -> (result: Result<(), MemoryError>) {
        match address {
            0xFF07 => {
                self.tac = value;
                Ok(())
            },
            _ => Err(MemoryError::InvalidAddress),
        }
    }

    fn write_word(&mut self, _address: usize, _value: u16) -> (result: Result<(), MemoryError>) {
        Err(MemoryError::InvalidAddress)
    }

    proof fn lemma_unclaimed_is_refused(state: TimerState, address: int, byte: u8, word: u16) {
    }

    proof fn lemma_how_operations_fail(state: TimerState, address: int, byte: u8) {
    }
}

/// The control register gives back the byte last written to it.
pub proof fn lemma_timer_keeps_byte(state: TimerState, value: u8)
    ensures
        Timer::byte_written(state, TIMER_CONTROL as int, value).result is Ok,
        Timer::byte_at(
            Timer::byte_written(state, TIMER_CONTROL as int, value).state,
            TIMER_CONTROL as int,
        ) == Ok::<u8, MemoryError>(value),
{
}

} // verus!
