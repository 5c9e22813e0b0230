//! The memory inside the console: two banks of work RAM, the high RAM, the
//! two interrupt registers, and the peripheral registers it delegates to.

use vstd::prelude::*;
use crate::input_output_registers::{InputOutputRegisters, IoState};
use crate::memory_device::{
    accepted, high_byte, low_byte, make_word, refused, split_word, word_from_bytes,
    word_of_reads, MemoryError, ReadWrite, Written,
};

verus! {

/// First address of work RAM bank 0, which ends at `0xCFFF`.
pub const WRAM0_START: usize = 0xC000;

/// First address of the second work RAM bank, which ends at `0xDFFF`.
pub const WRAMN_START: usize = 0xD000;

/// First address of the high RAM, which ends at `0xFFFE`.
pub const HRAM_START: usize = 0xFF80;

/// Address of the interrupt-flag register.
pub const INTERRUPT_FLAG: usize = 0xFF0F;

/// Address of the interrupt-enable register.
pub const INTERRUPT_ENABLE: usize = 0xFFFF;

/// Whether `address` lies in work RAM bank 0.
pub open spec fn in_wram0(address: int) -> bool {
    0xC000 <= address <= 0xCFFF
}

/// Whether `address` lies in the second work RAM bank.
pub open spec fn in_wramn(address: int) -> bool {
    0xD000 <= address <= 0xDFFF
}

/// Whether `address` lies in the high RAM.
pub open spec fn in_hram(address: int) -> bool {
    0xFF80 <= address <= 0xFFFE
}

/// Holds all memory of the console itself: what the running program reads
/// and writes that is neither cartridge nor video memory.
pub struct InternalMemory {
    /// Work RAM bank 0: `0xC000` to `0xCFFF`.
    wram0: [u8; 0x1000],
    /// Work RAM bank n: `0xD000` to `0xDFFF`.
    wramn: [u8; 0x1000],
    /// High RAM (zero page): `0xFF80` to `0xFFFE`.
    hram: [u8; 0x7F],
    /// Interrupt flag (request) register: `0xFF0F`.
    interrupt_flag: u8,
    /// Interrupt enable register: `0xFFFF`.
    interrupt_enable: u8,
    /// Peripheral registers.
    io_reg: InputOutputRegisters,
}

/// The state of an [`InternalMemory`].
pub struct InternalMemoryState {
    /// Work RAM bank 0; the byte at `address` stands at `address - 0xC000`.
    pub wram0: Seq<u8>,
    /// Work RAM bank n; the byte at `address` stands at `address - 0xD000`.
    pub wramn: Seq<u8>,
    /// High RAM; the byte at `address` stands at `address - 0xFF80`.
    pub hram: Seq<u8>,
    pub interrupt_flag: u8,
    pub interrupt_enable: u8,
    pub io: IoState,
}

impl InternalMemoryState {
    /// Each array has the size of its address range.
    pub open spec fn wf(self) -> bool {
        &&& self.wram0.len() == 0x1000
        &&& self.wramn.len() == 0x1000
        &&& self.hram.len() == 0x7F
        &&& self.io.wf()
    }

    /// The memory after power-on: every byte is zero.
    pub open spec fn initial() -> InternalMemoryState {
        InternalMemoryState {
            wram0: Seq::new(0x1000, |i: int| 0u8),
            wramn: Seq::new(0x1000, |i: int| 0u8),
            hram: Seq::new(0x7F, |i: int| 0u8),
            interrupt_flag: 0,
            interrupt_enable: 0,
            io: IoState::initial(),
        }
    }
}

impl View for InternalMemory {
    type V = InternalMemoryState;

    closed spec fn view(&self) -> InternalMemoryState {
        InternalMemoryState {
            wram0: self.wram0@,
            wramn: self.wramn@,
            hram: self.hram@,
            interrupt_flag: self.interrupt_flag,
            interrupt_enable: self.interrupt_enable,
            io: self.io_reg@,
        }
    }
}

impl InternalMemory {
    /// A memory whose bytes and registers are all zero.
    pub fn new() -> (memory: InternalMemory)
        ensures
            memory@ == InternalMemoryState::initial(),
    {
        let memory = InternalMemory {
            wram0: [0u8; 0x1000],
            wramn: [0u8; 0x1000],
            hram: [0u8; 0x7F],
            interrupt_flag: 0,
            interrupt_enable: 0,
            io_reg: InputOutputRegisters::new(),
        };
        assert(memory@.wram0 =~= InternalMemoryState::initial().wram0);
        assert(memory@.wramn =~= InternalMemoryState::initial().wramn);
        assert(memory@.hram =~= InternalMemoryState::initial().hram);
        memory
    }

    /// The state of a memory always has its arrays at their sizes.
    pub proof fn lemma_view_is_wf(&self)
        ensures
            self@.wf(),
    {
        self.io_reg.lemma_view_is_wf();
    }
}

impl ReadWrite for InternalMemory {
    open spec fn claims(state: InternalMemoryState, address: int) -> bool {
        ||| in_wram0(address)
        ||| in_wramn(address)
        ||| in_hram(address)
        ||| address == INTERRUPT_FLAG
        ||| address == INTERRUPT_ENABLE
        ||| InputOutputRegisters::claims(state.io, address)
    }

    /// The peripheral registers answer first; then the address picks the array
    /// or the register.
    open spec fn byte_at(state: InternalMemoryState, address: int) -> Result<u8, MemoryError> {
        if InputOutputRegisters::claims(state.io, address) {
            InputOutputRegisters::byte_at(state.io, address)
        } else if in_wram0(address) {
            Ok(state.wram0[address - WRAM0_START])
        } else if in_wramn(address) {
            Ok(state.wramn[address - WRAMN_START])
        } else if in_hram(address) {
            Ok(state.hram[address - HRAM_START])
        } else if address == INTERRUPT_FLAG {
            Ok(state.interrupt_flag)
        } else if address == INTERRUPT_ENABLE {
            Ok(state.interrupt_enable)
        } else {
            Err(MemoryError::InvalidAddress)
        }
    }

    /// A word lies in one array: both of its bytes in work RAM bank 0, both
    /// in bank n, or both in the high RAM. The interrupt registers hold no word.
    open spec fn word_at(state: InternalMemoryState, address: int) -> Result<u16, MemoryError> {
        if InputOutputRegisters::claims(state.io, address) {
            InputOutputRegisters::word_at(state.io, address)
        } else if in_wram0(address) && in_wram0(address + 1) {
            Ok(
                word_from_bytes(
                    state.wram0[address - WRAM0_START],
                    state.wram0[address - WRAM0_START + 1],
                ),
            )
        } else if in_wramn(address) && in_wramn(address + 1) {
            Ok(
                word_from_bytes(
                    state.wramn[address - WRAMN_START],
                    state.wramn[address - WRAMN_START + 1],
                ),
            )
        } else if in_hram(address) && in_hram(address + 1) {
            Ok(
                word_from_bytes(
                    state.hram[address - HRAM_START],
                    state.hram[address - HRAM_START + 1],
                ),
            )
        } else {
            Err(MemoryError::InvalidAddress)
        }
    }

    open spec fn byte_written(state: InternalMemoryState, address: int, value: u8) -> Written<
        InternalMemoryState,
    > {
        if InputOutputRegisters::claims(state.io, address) {
            let io = InputOutputRegisters::byte_written(state.io, address, value);
            Written { state: InternalMemoryState { io: io.state, ..state }, result: io.result }
        } else if in_wram0(address) {
            accepted(
                InternalMemoryState {
                    wram0: state.wram0.update(address - WRAM0_START, value),
                    ..state
                },
            )
        } else if in_wramn(address) {
            accepted(
                InternalMemoryState {
                    wramn: state.wramn.update(address - WRAMN_START, value),
                    ..state
                },
            )
        } else if in_hram(address) {
            accepted(
                InternalMemoryState {
                    hram: state.hram.update(address - HRAM_START, value),
                    ..state
                },
            )
        } else if address == INTERRUPT_FLAG {
            accepted(InternalMemoryState { interrupt_flag: value, ..state })
        } else if address == INTERRUPT_ENABLE {
            accepted(InternalMemoryState { interrupt_enable: value, ..state })
        } else {
            refused(state, MemoryError::InvalidAddress)
        }
    }

    /// Both bytes go to one array, the low one at `address`; a word that
    /// would reach past the end of its array is refused and nothing is written.
    open spec fn word_written(state: InternalMemoryState, address: int, value: u16) -> Written<
        InternalMemoryState,
    > {
        if InputOutputRegisters::claims(state.io, address) {
            let io = InputOutputRegisters::word_written(state.io, address, value);
            Written { state: InternalMemoryState { io: io.state, ..state }, result: io.result }
        } else if in_wram0(address) && in_wram0(address + 1) {
            accepted(
                InternalMemoryState {
                    wram0: state.wram0.update(address - WRAM0_START, low_byte(value)).update(
                        address - WRAM0_START + 1,
                        high_byte(value),
                    ),
                    ..state
                },
            )
        } else if in_wramn(address) && in_wramn(address + 1) {
            accepted(
                InternalMemoryState {
                    wramn: state.wramn.update(address - WRAMN_START, low_byte(value)).update(
                        address - WRAMN_START + 1,
                        high_byte(value),
                    ),
                    ..state
                },
            )
        } else if in_hram(address) && in_hram(address + 1) {
            accepted(
                InternalMemoryState {
                    hram: state.hram.update(address - HRAM_START, low_byte(value)).update(
                        address - HRAM_START + 1,
                        high_byte(value),
                    ),
                    ..state
                },
            )
        } else {
            refused(state, MemoryError::InvalidAddress)
        }
    }

    fn contains(&self, address: usize) -> (claimed: bool) {
        (0xC000 <= address && address <= 0xCFFF) || (0xD000 <= address && address <= 0xDFFF) || (
        0xFF80 <= address && address <= 0xFFFE) || 0xFF0F == address || 0xFFFF == address
            || self.io_reg.contains(address)
    }

    fn read_byte(&self, address: usize) -> (result: Result<u8, MemoryError>) {
        if self.io_reg.contains(address) {
            return self.io_reg.read_byte(address);
        }
        match address {
            0xC000..=0xCFFF => Ok(self.wram0[address - 0xC000]),
            0xD000..=0xDFFF => Ok(self.wramn[address - 0xD000]),
            0xFF80..=0xFFFE => Ok(self.hram[address - 0xFF80]),
            0xFF0F => Ok(self.interrupt_flag),
            0xFFFF => Ok(self.interrupt_enable),
            _ => Err(MemoryError::InvalidAddress),
        }
    }

    fn read_word(&self, address: usize) -> (result: Result<u16, MemoryError>) {
        if self.io_reg.contains(address) {
            return self.io_reg.read_word(address);
        }
        let (low, high): (u8, u8) = match address {
            0xC000..=0xCFFE => (self.wram0[address - 0xC000], self.wram0[address - 0xC000 + 1]),
            0xD000..=0xDFFE => (self.wramn[address - 0xD000], self.wramn[address - 0xD000 + 1]),
            0xFF80..=0xFFFD => (self.hram[address - 0xFF80], self.hram[address - 0xFF80 + 1]),
            _ => {
                return Err(MemoryError::InvalidAddress);
            },
        };
        Ok(make_word(low, high))
    }

    fn write_byte(&mut self, address: usize, value: u8) -> (result: Result<(), MemoryError>) {
        if self.io_reg.contains(address) {
            return self.io_reg.write_byte(address, value);
        }
        match address {
            0xC000..=0xCFFF => {
                self.wram0[address - 0xC000] = value;
                Ok(())
            },
            0xD000..=0xDFFF => {
                self.wramn[address - 0xD000] = value;
                Ok(())
            },
            0xFF80..=0xFFFE => {
                self.hram[address - 0xFF80] = value;
                Ok(())
            },
            0xFF0F => {
                self.interrupt_flag = value;
                Ok(())
            },
            0xFFFF => {
                self.interrupt_enable = value;
                Ok(())
            },
            _ => Err(MemoryError::InvalidAddress),
        }
    }

    fn write_word(&mut self, address: usize, value: u16) -> (result: Result<(), MemoryError>) {
        if self.io_reg.contains(address) {
            return self.io_reg.write_word(address, value);
        }
        let (low, high) = split_word(value);
        match address {
            0xC000..=0xCFFE => {
                self.wram0[address - 0xC000] = low;
                self.wram0[address - 0xC000 + 1] = high;
                Ok(())
            },
            0xD000..=0xDFFE => {
                self.wramn[address - 0xD000] = low;
                self.wramn[address - 0xD000 + 1] = high;
                Ok(())
            },
            0xFF80..=0xFFFD => {
                self.hram[address - 0xFF80] = low;
                self.hram[address - 0xFF80 + 1] = high;
                Ok(())
            },
            _ => Err(MemoryError::InvalidAddress),
        }
    }

    proof fn lemma_unclaimed_is_refused(
        state: InternalMemoryState,
        address: int,
        byte: u8,
        word: u16,
    ) {
    }

    proof fn lemma_how_operations_fail(state: InternalMemoryState, address: int, byte: u8) {
    }
}

/// Writes keep every array at its size.
pub proof fn lemma_internal_writes_keep_wf(
    state: InternalMemoryState,
    address: int,
    byte: u8,
    word: u16,
)
    requires
        state.wf(),
    ensures
        InternalMemory::byte_written(state, address, byte).state.wf(),
        InternalMemory::word_written(state, address, word).state.wf(),
{
}

/// The memory answers byte reads and byte writes at exactly the addresses it
/// claims, and refuses a write for one reason only: the address. So a write
/// into an unmapped gap, such as `0xFEA0`, fails with `InvalidAddress`.
pub proof fn lemma_internal_answers_where_it_claims(
    state: InternalMemoryState,
    address: int,
    byte: u8,
    word: u16,
)
    ensures
        InternalMemory::claims(state, address) <==> InternalMemory::byte_at(state, address) is Ok,
        InternalMemory::claims(state, address) <==> InternalMemory::byte_written(
            state,
            address,
            byte,
        ).result is Ok,
        InternalMemory::byte_written(state, address, byte).result matches Err(error) ==> error
            == MemoryError::InvalidAddress,
        InternalMemory::word_written(state, address, word).result matches Err(error) ==> error
            == MemoryError::InvalidAddress,
        !InternalMemory::claims(state, 0xFEA0),
{
}

/// A byte written at an address that the memory claims is the byte read back
/// there.
pub proof fn lemma_internal_byte_round_trip(state: InternalMemoryState, address: int, value: u8)
    requires
        state.wf(),
        InternalMemory::claims(state, address),
    ensures
        InternalMemory::byte_written(state, address, value).result is Ok,
        InternalMemory::byte_at(
            InternalMemory::byte_written(state, address, value).state,
            address,
        ) == Ok::<u8, MemoryError>(value),
{
}

/// A word that the memory accepted is the word read back at that address.
pub proof fn lemma_internal_word_round_trip(state: InternalMemoryState, address: int, value: u16)
    requires
        state.wf(),
        InternalMemory::word_written(state, address, value).result is Ok,
    ensures
        InternalMemory::word_at(
            InternalMemory::word_written(state, address, value).state,
            address,
        ) == Ok::<u16, MemoryError>(value),
{
}

/// A word that the memory reads is made of the two bytes that byte reads
/// give at its address and at the next, the low byte first.
pub proof fn lemma_internal_word_is_two_bytes(state: InternalMemoryState, address: int)
    requires
        state.wf(),
        InternalMemory::word_at(state, address) is Ok,
    ensures
        InternalMemory::word_at(state, address) == word_of_reads(
            InternalMemory::byte_at(state, address),
            InternalMemory::byte_at(state, address + 1),
        ),
{
}

/// A byte write changes what is read at its own address and nowhere else.
pub proof fn lemma_internal_byte_write_is_local(
    state: InternalMemoryState,
    address: int,
    value: u8,
    other: int,
)
    requires
        state.wf(),
        other != address,
    ensures
        InternalMemory::byte_at(
            InternalMemory::byte_written(state, address, value).state,
            other,
        ) == InternalMemory::byte_at(state, other),
{
}

} // verus!
