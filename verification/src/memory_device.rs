//! The contract that every addressable device meets, the errors it reports and
//! the little-endian pairing of bytes into words.

use vstd::prelude::*;

verus! {

/// Why a device refused a read or a write.
#[derive(Clone, Copy, Debug, PartialEq, Eq, Structural)]
pub enum MemoryError {
    /// No register or memory cell answers at the address.
    InvalidAddress,
    /// The address is mapped, but the operation is not allowed there.
    InvalidOperation,
}

/// The word whose low byte is `low` and whose high byte is `high`.
pub open spec fn word_from_bytes(low: u8, high: u8) -> u16 {
    (high as int * 256 + low as int) as u16
}

/// The low byte of `value`.
pub open spec fn low_byte(value: u16) -> u8 {
    (value as int % 256) as u8
}

/// The high byte of `value`.
pub open spec fn high_byte(value: u16) -> u8 {
    (value as int / 256) as u8
}

/// Splitting a word and pairing the halves again gives the word back.
pub proof fn lemma_word_round_trip(value: u16)
    ensures
        word_from_bytes(low_byte(value), high_byte(value)) == value,
{
}

/// Pairing two bytes and splitting the word gives the two bytes back.
pub proof fn lemma_bytes_round_trip(low: u8, high: u8)
    ensures
        low_byte(word_from_bytes(low, high)) == low,
        high_byte(word_from_bytes(low, high)) == high,
{
}

/// Pairs two bytes into a word, `low` in bits 0 to 7 and `high` in bits 8 to 15.
pub fn make_word(low: u8, high: u8) -> (word: u16)
    ensures
        word == word_from_bytes(low, high),
{
    let word: u16 = ((high as u16) << 8) | (low as u16);
    assert(word == (high as int * 256 + low as int) as u16) by (bit_vector)
        requires
            word == ((high as u16) << 8) | (low as u16),
    ;
    word
}

/// Splits a word into its low and its high byte, in that order.
pub fn split_word(value: u16) -> (halves: (u8, u8))
    ensures
        halves.0 == low_byte(value),
        halves.1 == high_byte(value),
{
    let low: u8 = (value & 0xFF) as u8;
    let high: u8 = (value >> 8) as u8;
    assert(low == (value as int % 256) as u8) by (bit_vector)
        requires
            low == (value & 0xFF) as u8,
    ;
    assert(high == (value as int / 256) as u8) by (bit_vector)
        requires
            high == (value >> 8) as u8,
    ;
    (low, high)
}

/// What a write leaves behind: the device's state after it, and whether the
/// device accepted it.
pub struct Written<S> {
    pub state: S,
    pub result: Result<(), MemoryError>,
}

/// The outcome of a write that the device accepted, leaving it in `state`.
pub open spec fn accepted<S>(state: S) -> Written<S> {
    Written { state, result: Ok(()) }
}

/// The outcome of a write that the device refused with `error`, leaving it in `state`.
pub open spec fn refused<S>(state: S, error: MemoryError) -> Written<S> {
    Written { state, result: Err(error) }
}

/// The word read as two bytes, the low one first: the first failure wins.
pub open spec fn word_of_reads(
    low: Result<u8, MemoryError>,
    high: Result<u8, MemoryError>,
) -> Result<u16, MemoryError> {
    match low {
        Err(error) => Err(error),
        Ok(low_value) => match high {
            Err(error) => Err(error),
            Ok(high_value) => Ok(word_from_bytes(low_value, high_value)),
        },
    }
}

/// A device that answers at some addresses of the 16-bit address space.
///
/// The view of a device is its state as a mathematical value. Five ghost
/// functions say, for every state, address and value, what the five
/// operations do, and the operations are held to exactly that. Two laws
/// bind every device: away from the addresses it claims it does nothing;
/// and a read fails only for want of a byte at the address, while a byte
/// write that is refused changes nothing.
pub trait ReadWrite: View {
    /// Whether a device in `state` answers at `address`.
    spec fn claims(state: Self::V, address: int) -> bool;

    /// What reading one byte at `address` gives.
    spec fn byte_at(state: Self::V, address: int) -> Result<u8, MemoryError>;

    /// What reading the word at `address` and `address + 1` gives.
    spec fn word_at(state: Self::V, address: int) -> Result<u16, MemoryError>;

    /// What writing `value` at `address` does to a device in `state`.
    spec fn byte_written(state: Self::V, address: int, value: u8) -> Written<Self::V>;

    /// What writing `value` at `address` and `address + 1` does to a device in `state`.
    spec fn word_written(state: Self::V, address: int, value: u16) -> Written<Self::V>;

    /// Tells whether the device answers at `address`. Changes nothing.
    fn contains(&self, address: usize) -> (claimed: bool)
        ensures
            claimed == Self::claims(self@, address as int),
    ;

    /// Reads the byte at `address`.
    fn read_byte(&self, address: usize) -> (result: Result<u8, MemoryError>)
        ensures
            result == Self::byte_at(self@, address as int),
    ;

    /// Reads the little-endian word at `address`.
    fn read_word(&self, address: usize) -> (result: Result<u16, MemoryError>)
        ensures
            result == Self::word_at(self@, address as int),
    ;

    /// Writes `value` at `address`.
    fn write_byte(&mut self, address: usize, value: u8) -> (result: Result<(), MemoryError>)
        ensures
            final(self)@ == Self::byte_written(old(self)@, address as int, value).state,
            result == Self::byte_written(old(self)@, address as int, value).result,
    ;

    /// Writes the little-endian word `value` at `address`.
    fn write_word(&mut self, address: usize, value: u16) -> (result: Result<(), MemoryError>)
        ensures
            final(self)@ == Self::word_written(old(self)@, address as int, value).state,
            result == Self::word_written(old(self)@, address as int, value).result,
    ;

    /// Away from the addresses it claims a device does nothing: it refuses
    /// reads with `InvalidAddress`, refuses writes, and keeps its state.
    proof fn lemma_unclaimed_is_refused(state: Self::V, address: int, byte: u8, word: u16)
        requires
            !Self::claims(state, address),
        ensures
            Self::byte_at(state, address) == Err::<u8, MemoryError>(MemoryError::InvalidAddress),
            Self::word_at(state, address) == Err::<u16, MemoryError>(MemoryError::InvalidAddress),
            Self::byte_written(state, address, byte).result is Err,
            Self::byte_written(state, address, byte).state == state,
            Self::word_written(state, address, word).result is Err,
            Self::word_written(state, address, word).state == state,
    ;

    /// A read fails for one reason only, that no byte answers at the
    /// address; and a byte write that is refused changes nothing.
    proof fn lemma_how_operations_fail(state: Self::V, address: int, byte: u8)
        ensures
            Self::byte_at(state, address) matches Err(error) ==> error
                == MemoryError::InvalidAddress,
            Self::word_at(state, address) matches Err(error) ==> error
                == MemoryError::InvalidAddress,
            Self::byte_written(state, address, byte).result is Err ==> Self::byte_written(
                state,
                address,
                byte,
            ).state == state,
    ;
}

} // verus!
