//! The CPU's register file: eight 8-bit registers, three of whose pairs are
//! also read and written as 16-bit values, and the two 16-bit pointers.

use vstd::prelude::*;
use crate::memory_device::{high_byte, low_byte, make_word, split_word, word_from_bytes};

verus! {

/// The four status bits of the CPU.
#[derive(Clone, Copy, Debug, PartialEq, Eq, Structural)]
pub struct CpuFlag {
    pub carry: bool,
    pub half_carry: bool,
    pub negative: bool,
    pub zero: bool,
}

/// The registers of the CPU.
#[derive(Clone, Copy, Debug, PartialEq, Eq, Structural)]
pub struct Registers {
    pub a: u8,
    pub flags: CpuFlag,
    pub b: u8,
    pub c: u8,
    pub d: u8,
    pub e: u8,
    pub h: u8,
    pub l: u8,
    pub program_counter: u16,
    pub stack_pointer: u16,
}

impl Registers {
    /// The registers as the boot ROM leaves them.
    pub open spec fn initial() -> Registers {
        Registers {
            a: 0x01,
            flags: CpuFlag { carry: false, half_carry: false, negative: false, zero: false },
            b: 0x00,
            c: 0x13,
            d: 0x00,
            e: 0xD8,
            h: 0x01,
            l: 0x4D,
            program_counter: 0x0100,
            stack_pointer: 0xFFFE,
        }
    }

    /// The pair `bc` as one value: `b` is its high byte, `c` its low byte.
    pub open spec fn spec_bc(self) -> u16 {
        word_from_bytes(self.c, self.b)
    }

    /// The pair `de` as one value: `d` is its high byte, `e` its low byte.
    pub open spec fn spec_de(self) -> u16 {
        word_from_bytes(self.e, self.d)
    }

    /// The pair `hl` as one value: `h` is its high byte, `l` its low byte.
    pub open spec fn spec_hl(self) -> u16 {
        word_from_bytes(self.l, self.h)
    }

    /// The registers in the state that the boot ROM leaves behind.
    pub fn new() -> (registers: Registers)
        ensures
            registers == Registers::initial(),
    {
        Registers {
            a: 0x01,
            flags: CpuFlag { carry: false, half_carry: false, negative: false, zero: false },
            b: 0x00,
            c: 0x13,
            d: 0x00,
            e: 0xD8,
            h: 0x01,
            l: 0x4D,
            program_counter: 0x0100,
            stack_pointer: 0xFFFE,
        }
    }

    /// Stores the high byte of `value` in `b` and the low byte in `c`.
    pub fn set_bc(&mut self, value: u16)
        ensures
            *final(self) == (Registers { b: high_byte(value), c: low_byte(value), ..*old(self) }),
            final(self).spec_bc() == value,
    {
        let (low, high) = split_word(value);
        self.b = high;
        self.c = low;
    }

    /// The pair `bc`.
    pub fn bc(&self) -> (value: u16)
        ensures
            value == self.spec_bc(),
    {
        make_word(self.c, self.b)
    }

    /// Stores the high byte of `value` in `d` and the low byte in `e`.
    pub fn set_de(&mut self, value: u16)
        ensures
            *final(self) == (Registers { d: high_byte(value), e: low_byte(value), ..*old(self) }),
            final(self).spec_de() == value,
    {
        let (low, high) = split_word(value);
        self.d = high;
        self.e = low;
    }

    /// The pair `de`.
    pub fn de(&self) -> (value: u16)
        ensures
            value == self.spec_de(),
    {
        make_word(self.e, self.d)
    }

    /// Stores the high byte of `value` in `h` and the low byte in `l`.
    pub fn set_hl(&mut self, value: u16)
        ensures
            *final(self) == (Registers { h: high_byte(value), l: low_byte(value), ..*old(self) }),
            final(self).spec_hl() == value,
    {
        let (low, high) = split_word(value);
        self.h = high;
        self.l = low;
    }

    /// The pair `hl`.
    pub fn hl(&self) -> (value: u16)
        ensures
            value == self.spec_hl(),
    {
        make_word(self.l, self.h)
    }
}

/// A pair and its two halves are one storage: the pair read is the value
/// that was set, and setting a pair to what it reads changes nothing.
pub proof fn lemma_pairs_are_views(registers: Registers, value: u16)
    ensures
        (Registers { b: high_byte(value), c: low_byte(value), ..registers }).spec_bc() == value,
        (Registers { d: high_byte(value), e: low_byte(value), ..registers }).spec_de() == value,
        (Registers { h: high_byte(value), l: low_byte(value), ..registers }).spec_hl() == value,
        high_byte(registers.spec_bc()) == registers.b && low_byte(registers.spec_bc())
            == registers.c,
        high_byte(registers.spec_de()) == registers.d && low_byte(registers.spec_de())
            == registers.e,
        high_byte(registers.spec_hl()) == registers.h && low_byte(registers.spec_hl())
            == registers.l,
{
}

} // verus!
