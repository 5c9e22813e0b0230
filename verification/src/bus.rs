//! The address space as the CPU sees it: the cartridge and the internal
//! memory behind one surface, each answering at its own addresses.

use vstd::prelude::*;
use crate::cartridge::{in_cartridge_ram, lemma_ram_word_round_trip, Cartridge, CartridgeState};
use crate::input_output_registers::{plain_register, InputOutputRegisters};
use crate::internal_memory::{
    in_hram, in_wram0, in_wramn, lemma_internal_word_round_trip, InternalMemory,
    InternalMemoryState, INTERRUPT_ENABLE, INTERRUPT_FLAG,
};
use crate::memory_device::{refused, MemoryError, ReadWrite, Written};
use crate::timer::Timer;

verus! {

/// The devices of the console, asked in a fixed order: the cartridge first,
/// then the internal memory.
pub struct Bus {
    cartridge: Cartridge,
    internal_memory: InternalMemory,
}

/// The state of a [`Bus`]: the states of its devices.
pub struct BusState {
    pub cartridge: CartridgeState,
    pub internal_memory: InternalMemoryState,
}

impl View for Bus {
    type V = BusState;

    closed spec fn view(&self) -> BusState {
        BusState { cartridge: self.cartridge@, internal_memory: self.internal_memory@ }
    }
}

impl Bus {
    /// An address space over `cartridge` and a zeroed internal memory.
    pub fn new(cartridge: Cartridge) -> (bus: Bus)
        ensures
            bus@ == (BusState {
                cartridge: cartridge@,
                internal_memory: InternalMemoryState::initial(),
            }),
    {
        Bus { cartridge, internal_memory: InternalMemory::new() }
    }

    /// The internal memory behind an address space always has its arrays at
    /// their sizes.
    pub proof fn lemma_view_is_wf(&self)
        ensures
            self@.internal_memory.wf(),
    {
        self.internal_memory.lemma_view_is_wf();
    }
}

impl ReadWrite for Bus {
    open spec fn claims(state: BusState, address: int) -> bool {
        Cartridge::claims(state.cartridge, address) || InternalMemory::claims(
            state.internal_memory,
            address,
        )
    }

    /// The first device that claims the address answers.
    open spec fn byte_at(state: BusState, address: int) -> Result<u8, MemoryError> {
        if Cartridge::claims(state.cartridge, address) {
            Cartridge::byte_at(state.cartridge, address)
        } else if InternalMemory::claims(state.internal_memory, address) {
            InternalMemory::byte_at(state.internal_memory, address)
        } else {
            Err(MemoryError::InvalidAddress)
        }
    }

    /// The first device that claims the address of the low byte answers for
    /// the word.
    open spec fn word_at(state: BusState, address: int) -> Result<u16, MemoryError> {
        if Cartridge::claims(state.cartridge, address) {
            Cartridge::word_at(state.cartridge, address)
        } else if InternalMemory::claims(state.internal_memory, address) {
            InternalMemory::word_at(state.internal_memory, address)
        } else {
            Err(MemoryError::InvalidAddress)
        }
    }

    open spec fn byte_written(state: BusState, address: int, value: u8) -> Written<BusState> {
        if Cartridge::claims(state.cartridge, address) {
            let written = Cartridge::byte_written(state.cartridge, address, value);
            Written {
                state: BusState { cartridge: written.state, ..state },
                result: written.result,
            }
        } else if InternalMemory::claims(state.internal_memory, address) {
            let written = InternalMemory::byte_written(state.internal_memory, address, value);
            Written {
                state: BusState { internal_memory: written.state, ..state },
                result: written.result,
            }
        } else {
            refused(state, MemoryError::InvalidAddress)
        }
    }

    open spec fn word_written(state: BusState, address: int, value: u16) -> Written<BusState> {
        if Cartridge::claims(state.cartridge, address) {
            let written = Cartridge::word_written(state.cartridge, address, value);
            Written {
                state: BusState { cartridge: written.state, ..state },
                result: written.result,
            }
        } else if InternalMemory::claims(state.internal_memory, address) {
            let written = InternalMemory::word_written(state.internal_memory, address, value);
            Written {
                state: BusState { internal_memory: written.state, ..state },
                result: written.result,
            }
        } else {
            refused(state, MemoryError::InvalidAddress)
        }
    }

    fn contains(&self, address: usize) -> (claimed: bool) {
        self.cartridge.contains(address) || self.internal_memory.contains(address)
    }

    fn read_byte(&self, address: usize) -> (result: Result<u8, MemoryError>) {
        if self.cartridge.contains(address) {
            self.cartridge.read_byte(address)
        } else if self.internal_memory.contains(address) {
            self.internal_memory.read_byte(address)
        } else {
            Err(MemoryError::InvalidAddress)
        }
    }

    fn read_word(&self, address: usize) -> (result: Result<u16, MemoryError>) {
        if self.cartridge.contains(address) {
            self.cartridge.read_word(address)
        } else if self.internal_memory.contains(address) {
            self.internal_memory.read_word(address)
        } else {
            Err(MemoryError::InvalidAddress)
        }
    }

    fn write_byte(&mut self, address: usize, value: u8) -> (result: Result<(), MemoryError>) {
        if self.cartridge.contains(address) {
            self.cartridge.write_byte(address, value)
        } else if self.internal_memory.contains(address) {
            self.internal_memory.write_byte(address, value)
        } else {
            Err(MemoryError::InvalidAddress)
        }
    }

    fn write_word(&mut self, address: usize, value: u16) -> (result: Result<(), MemoryError>) {
        if self.cartridge.contains(address) {
            self.cartridge.write_word(address, value)
        } else if self.internal_memory.contains(address) {
            self.internal_memory.write_word(address, value)
        } else {
            Err(MemoryError::InvalidAddress)
        }
    }

    proof fn lemma_unclaimed_is_refused(state: BusState, address: int, byte: u8, word: u16) {
    }

    proof fn lemma_how_operations_fail(state: BusState, address: int, byte: u8) {
    }
}

/// No address has two owners. The cartridge and the internal memory never
/// claim the same address; inside the internal memory the peripheral
/// registers claim none of the memory's own arrays and registers; and inside
/// the peripheral registers the timer claims none of the block's own.
pub proof fn lemma_no_address_has_two_owners(state: BusState, address: int)
    ensures
        !(Cartridge::claims(state.cartridge, address) && InternalMemory::claims(
            state.internal_memory,
            address,
        )),
        !(InputOutputRegisters::claims(state.internal_memory.io, address) && (in_wram0(address)
            || in_wramn(address) || in_hram(address) || address == INTERRUPT_FLAG || address
            == INTERRUPT_ENABLE)),
        !(Timer::claims(state.internal_memory.io.timer, address) && plain_register(address)),
{
}

/// The address space hands every operation to the device that claims the
/// address, and to that device alone: the other device keeps its state.
pub proof fn lemma_bus_hands_to_the_owner(state: BusState, address: int, byte: u8, word: u16)
    ensures
        Cartridge::claims(state.cartridge, address) ==> {
            &&& Bus::byte_at(state, address) == Cartridge::byte_at(state.cartridge, address)
            &&& Bus::word_at(state, address) == Cartridge::word_at(state.cartridge, address)
            &&& Bus::byte_written(state, address, byte) == (Written {
                state: BusState {
                    cartridge: Cartridge::byte_written(state.cartridge, address, byte).state,
                    internal_memory: state.internal_memory,
                },
                result: Cartridge::byte_written(state.cartridge, address, byte).result,
            })
            &&& Bus::word_written(state, address, word) == (Written {
                state: BusState {
                    cartridge: Cartridge::word_written(state.cartridge, address, word).state,
                    internal_memory: state.internal_memory,
                },
                result: Cartridge::word_written(state.cartridge, address, word).result,
            })
        },
        InternalMemory::claims(state.internal_memory, address) ==> {
            &&& Bus::byte_at(state, address) == InternalMemory::byte_at(
                state.internal_memory,
                address,
            )
            &&& Bus::word_at(state, address) == InternalMemory::word_at(
                state.internal_memory,
                address,
            )
            &&& Bus::byte_written(state, address, byte) == (Written {
                state: BusState {
                    cartridge: state.cartridge,
                    internal_memory: InternalMemory::byte_written(
                        state.internal_memory,
                        address,
                        byte,
                    ).state,
                },
                result: InternalMemory::byte_written(state.internal_memory, address, byte).result,
            })
            &&& Bus::word_written(state, address, word) == (Written {
                state: BusState {
                    cartridge: state.cartridge,
                    internal_memory: InternalMemory::word_written(
                        state.internal_memory,
                        address,
                        word,
                    ).state,
                },
                result: InternalMemory::word_written(state.internal_memory, address, word).result,
            })
        },
{
}

/// A word that went to memory is the word read back: in the internal memory
/// wherever the write was accepted, and in the cartridge's RAM wherever a
/// cell answers at both of its bytes.
pub proof fn lemma_bus_word_round_trip(state: BusState, address: int, value: u16)
    requires
        state.internal_memory.wf(),
        ({
            ||| InternalMemory::claims(state.internal_memory, address) && Bus::word_written(
                state,
                address,
                value,
            ).result is Ok
            ||| state.cartridge matches CartridgeState::MBC1(cartridge) && in_cartridge_ram(address)
                && in_cartridge_ram(address + 1) && cartridge.ram_answers(address)
                && cartridge.ram_answers(address + 1)
        }),
    ensures
        Bus::word_written(state, address, value).result is Ok,
        Bus::word_at(Bus::word_written(state, address, value).state, address) == Ok::<
            u16,
            MemoryError,
        >(value),
{
    if InternalMemory::claims(state.internal_memory, address) {
        lemma_internal_word_round_trip(state.internal_memory, address, value);
    } else {
        match state.cartridge {
            CartridgeState::MBC1(cartridge) => {
                lemma_ram_word_round_trip(cartridge, address, value);
            },
            CartridgeState::NoMemoryBank(_) => {},
        }
    }
}

} // verus!
