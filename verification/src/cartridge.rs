//! The cartridge: its ROM image, and for a cartridge with the first bank
//! controller its RAM and the four registers that choose which bank of each
//! the console sees.

use vstd::prelude::*;
use vstd::arithmetic::div_mod::{
    lemma_fundamental_div_mod, lemma_mod_bound, lemma_mod_decreases, lemma_small_mod,
};
use crate::cartridge_header::{
    decoded_header, header_decodable, CartridgeError, CartridgeHeader, HeaderData, MemoryBankType,
};
use crate::memory_device::{
    accepted, high_byte, lemma_word_round_trip, low_byte, make_word, refused, split_word,
    word_of_reads, MemoryError, ReadWrite, Written,
};

verus! {

/// Size of one ROM bank.
pub const ROM_BANK_SIZE: usize = 0x4000;

/// Size of one RAM bank.
pub const RAM_BANK_SIZE: usize = 0x2000;

/// First address of the window onto the cartridge's RAM, which ends at `0xBFFF`.
pub const RAM_START: usize = 0xA000;

/// What a read finds where nothing drives the bus.
pub const OPEN_BUS: u8 = 0xFF;

/// Whether `address` lies in the window of ROM bank 0.
pub open spec fn in_fixed_rom(address: int) -> bool {
    0x0000 <= address <= 0x3FFF
}

/// Whether `address` lies in the window of the switchable ROM bank.
pub open spec fn in_switched_rom(address: int) -> bool {
    0x4000 <= address <= 0x7FFF
}

/// Whether `address` lies in the window onto the cartridge's RAM.
pub open spec fn in_cartridge_ram(address: int) -> bool {
    0xA000 <= address <= 0xBFFF
}

/// A cartridge without a bank controller: the image is mapped as it is.
pub struct NoMBCartridge {
    header: CartridgeHeader,
    /// The image, read at `0x0000` to `0x7FFF`.
    rom: Vec<u8>,
}

/// The state of a [`NoMBCartridge`].
pub struct NoMbcState {
    pub header: HeaderData,
    pub rom: Seq<u8>,
}

impl View for NoMBCartridge {
    type V = NoMbcState;

    closed spec fn view(&self) -> NoMbcState {
        NoMbcState { header: self.header@, rom: self.rom@ }
    }
}

impl NoMBCartridge {
    /// A cartridge that maps `rom` as it is.
    pub fn new(rom: Vec<u8>, header: CartridgeHeader) -> (cartridge: NoMBCartridge)
        ensures
            cartridge@ == (NoMbcState { header: header@, rom: rom@ }),
    {
        NoMBCartridge { header, rom }
    }

    /// The header that the cartridge was made with.
    pub fn header(&self) -> (header: &CartridgeHeader)
        ensures
            header@ == self@.header,
    {
        &self.header
    }
}

impl ReadWrite for NoMBCartridge {
    open spec fn claims(state: NoMbcState, address: int) -> bool {
        in_fixed_rom(address) || in_switched_rom(address)
    }

    /// The byte of the image at `address`; past the end of the image there
    /// is none.
    open spec fn byte_at(state: NoMbcState, address: int) -> Result<u8, MemoryError> {
        if (in_fixed_rom(address) || in_switched_rom(address)) && address < state.rom.len() {
            Ok(state.rom[address])
        } else {
            Err(MemoryError::InvalidAddress)
        }
    }

    open spec fn word_at(state: NoMbcState, address: int) -> Result<u16, MemoryError> {
        word_of_reads(Self::byte_at(state, address), Self::byte_at(state, address + 1))
    }

    /// The cartridge is read-only: every write is refused.
    open spec fn byte_written(state: NoMbcState, address: int, value: u8) -> Written<NoMbcState> {
        refused(state, MemoryError::InvalidOperation)
    }

    /// The cartridge is read-only: every write is refused.
    open spec fn word_written(state: NoMbcState, address: int, value: u16) -> Written<NoMbcState> {
        refused(state, MemoryError::InvalidOperation)
    }

    fn contains(&self, address: usize) -> (claimed: bool) {
        address <= 0x7FFF
    }

    fn read_byte(&self, address: usize) -> (result: Result<u8, MemoryError>) {
        if address <= 0x7FFF && address < self.rom.len() {
            Ok(self.rom[address])
        } else {
            Err(MemoryError::InvalidAddress)
        }
    }

    fn read_word(&self, address: usize) -> (result: Result<u16, MemoryError>) {
        let low: u8 = self.read_byte(address)?;
        let high: u8 = self.read_byte(address + 1)?;
        Ok(make_word(low, high))
    }

    fn write_byte(&mut self, _address: usize, _value: u8) -> (result: Result<(), MemoryError>) {
        Err(MemoryError::InvalidOperation)
    }

    fn write_word(&mut self, _address: usize, _value: u16) -> (result: Result<(), MemoryError>) {
        Err(MemoryError::InvalidOperation)
    }

    proof fn lemma_unclaimed_is_refused(state: NoMbcState, address: int, byte: u8, word: u16) {
    }

    proof fn lemma_how_operations_fail(state: NoMbcState, address: int, byte: u8) {
    }
}

/// What the second bank register of the controller selects.
#[derive(Clone, Copy, Debug, PartialEq, Eq, Structural)]
pub enum BankingMode {
    /// The register gives bits 5 and 6 of the ROM bank number.
    Rom,
    /// The register gives the RAM bank number.
    Ram,
}

/// A cartridge with the first bank controller.
pub struct MBC1 {
    header: CartridgeHeader,
    /// The image, seen through two windows of 16 KiB.
    rom: Vec<u8>,
    /// The cartridge's RAM, seen through one window of 8 KiB.
    ram: Vec<u8>,
    /// Written at `0x0000` to `0x1FFF`: a value whose low four bits are
    /// `0x0A` enables the RAM, any other disables it.
    ram_enable: bool,
    /// Written at `0x6000` to `0x7FFF`: bit 0 chooses what `rambank` selects.
    romram_mode: BankingMode,
    /// Written at `0x2000` to `0x3FFF`: the low five bits of the ROM bank
    /// number, from 1 to 31.
    rombank: usize,
    /// Written at `0x4000` to `0x5FFF`: two bits, the RAM bank number or bits
    /// 5 and 6 of the ROM bank number.
    rambank: usize,
}

/// The state of an [`MBC1`] cartridge.
pub struct Mbc1State {
    pub header: HeaderData,
    pub rom: Seq<u8>,
    pub ram: Seq<u8>,
    pub ram_enabled: bool,
    pub banking_mode: BankingMode,
    /// Low five bits of the ROM bank number.
    pub rom_bank_low: nat,
    /// The two bits of the second bank register.
    pub bank_select: nat,
}

impl Mbc1State {
    /// The registers are in range and the RAM has the size that the header
    /// declares.
    pub open spec fn wf(self) -> bool {
        &&& 1 <= self.rom_bank_low <= 31
        &&& self.bank_select <= 3
        &&& self.ram.len() == self.header.ram_size
    }

    /// The cartridge as it is plugged in: RAM zeroed and disabled, ROM
    /// banking mode, ROM bank 1.
    pub open spec fn initial(header: HeaderData, rom: Seq<u8>) -> Mbc1State {
        Mbc1State {
            header,
            rom,
            ram: Seq::new(header.ram_size, |i: int| 0u8),
            ram_enabled: false,
            banking_mode: BankingMode::Rom,
            rom_bank_low: 1,
            bank_select: 0,
        }
    }

    /// The number of whole banks in the image, and 1 where it holds less
    /// than one.
    pub open spec fn total_rom_banks(self) -> nat {
        if self.rom.len() / (ROM_BANK_SIZE as nat) == 0 {
            1
        } else {
            self.rom.len() / (ROM_BANK_SIZE as nat)
        }
    }

    /// The ROM bank number that the registers spell.
    pub open spec fn selected_rom_bank(self) -> nat {
        match self.banking_mode {
            BankingMode::Rom => self.bank_select * 32 + self.rom_bank_low,
            BankingMode::Ram => self.rom_bank_low,
        }
    }

    /// The ROM bank seen at `0x4000` to `0x7FFF`: the selected one, wrapped
    /// to the banks that the image holds.
    pub open spec fn effective_rom_bank(self) -> nat {
        self.selected_rom_bank() % self.total_rom_banks()
    }

    /// The RAM bank seen at `0xA000` to `0xBFFF`.
    pub open spec fn effective_ram_bank(self) -> nat {
        match self.banking_mode {
            BankingMode::Rom => 0,
            BankingMode::Ram => self.bank_select,
        }
    }

    /// Where in the image the byte seen at `address` of the switchable
    /// window stands.
    pub open spec fn rom_offset(self, address: int) -> int {
        self.effective_rom_bank() * ROM_BANK_SIZE + (address - ROM_BANK_SIZE)
    }

    /// Where in the RAM the byte seen at `address` of the RAM window stands.
    pub open spec fn ram_offset(self, address: int) -> int {
        self.effective_ram_bank() * RAM_BANK_SIZE + (address - RAM_START)
    }

    /// Whether a RAM cell answers at `address` of the RAM window: the RAM is
    /// enabled and reaches that far.
    pub open spec fn ram_answers(self, address: int) -> bool {
        self.ram_enabled && self.ram_offset(address) < self.ram.len()
    }
}

/// The effective ROM bank is one of the banks of the image and no higher
/// than the selected bank, which never exceeds 127.
pub proof fn lemma_effective_rom_bank_in_range(state: Mbc1State)
    requires
        state.wf(),
    ensures
        state.effective_rom_bank() < state.total_rom_banks(),
        state.effective_rom_bank() <= state.selected_rom_bank() <= 127,
        1 <= state.selected_rom_bank(),
        state.selected_rom_bank() < state.total_rom_banks() ==> state.effective_rom_bank()
            == state.selected_rom_bank(),
{
    lemma_mod_bound(state.selected_rom_bank() as int, state.total_rom_banks() as int);
    lemma_mod_decreases(state.selected_rom_bank(), state.total_rom_banks());
    if state.selected_rom_bank() < state.total_rom_banks() {
        lemma_small_mod(state.selected_rom_bank(), state.total_rom_banks());
    }
}

impl View for MBC1 {
    type V = Mbc1State;

    closed spec fn view(&self) -> Mbc1State {
        Mbc1State {
            header: self.header@,
            rom: self.rom@,
            ram: self.ram@,
            ram_enabled: self.ram_enable,
            banking_mode: self.romram_mode,
            rom_bank_low: self.rombank as nat,
            bank_select: self.rambank as nat,
        }
    }
}

impl MBC1 {
    #[verifier::type_invariant]
    spec fn registers_in_range(self) -> bool {
        self@.wf()
    }

    /// A cartridge over `rom`, with zeroed RAM of the size that `header`
    /// declares.
    pub fn new(rom: Vec<u8>, header: CartridgeHeader) -> (cartridge: MBC1)
        ensures
            cartridge@ == Mbc1State::initial(header@, rom@),
            cartridge@.wf(),
    {
        let ram_size: usize = header.ram_in_bytes();
        let cartridge = MBC1 {
            header,
            rom,
            ram: vec![0u8; ram_size],
            ram_enable: false,
            romram_mode: BankingMode::Rom,
            rombank: 1,
            rambank: 0,
        };
        assert(cartridge@.ram =~= Mbc1State::initial(header@, rom@).ram);
        cartridge
    }

    /// The header that the cartridge was made with.
    pub fn header(&self) -> (header: &CartridgeHeader)
        ensures
            header@ == self@.header,
    {
        &self.header
    }

    /// The ROM bank that the switchable window shows.
    pub fn effective_rom_bank(&self) -> (bank: usize)
        ensures
            bank == self@.effective_rom_bank(),
            bank < self@.total_rom_banks(),
            bank <= 127,
    {
        proof {
            use_type_invariant(self);
            lemma_effective_rom_bank_in_range(self@);
        }
        let banks: usize = self.rom.len() / ROM_BANK_SIZE;
        let total: usize = if banks == 0 {
            1
        } else {
            banks
        };
        let selected: usize = match self.romram_mode {
            BankingMode::Rom => self.rambank * 32 + self.rombank,
            BankingMode::Ram => self.rombank,
        };
        selected % total
    }

    /// The RAM bank that the RAM window shows.
    pub fn effective_ram_bank(&self) -> (bank: usize)
        ensures
            bank == self@.effective_ram_bank(),
            bank <= 3,
    {
        proof {
            use_type_invariant(self);
        }
        match self.romram_mode {
            BankingMode::Rom => 0,
            BankingMode::Ram => self.rambank,
        }
    }
}

impl ReadWrite for MBC1 {
    open spec fn claims(state: Mbc1State, address: int) -> bool {
        in_fixed_rom(address) || in_switched_rom(address) || in_cartridge_ram(address)
    }

    /// Bank 0 of the image in the fixed window, the effective bank in the
    /// switchable one, and in the RAM window the cell of the effective RAM
    /// bank, or the open bus where no cell answers. Past the end of the image
    /// there is no byte.
    open spec fn byte_at(state: Mbc1State, address: int) -> Result<u8, MemoryError> {
        if in_fixed_rom(address) {
            if address < state.rom.len() {
                Ok(state.rom[address])
            } else {
                Err(MemoryError::InvalidAddress)
            }
        } else if in_switched_rom(address) {
            if state.rom_offset(address) < state.rom.len() {
                Ok(state.rom[state.rom_offset(address)])
            } else {
                Err(MemoryError::InvalidAddress)
            }
        } else if in_cartridge_ram(address) {
            if state.ram_answers(address) {
                Ok(state.ram[state.ram_offset(address)])
            } else {
                Ok(OPEN_BUS)
            }
        } else {
            Err(MemoryError::InvalidAddress)
        }
    }

    /// Two byte reads, the low byte first.
    open spec fn word_at(state: Mbc1State, address: int) -> Result<u16, MemoryError> {
        word_of_reads(Self::byte_at(state, address), Self::byte_at(state, address + 1))
    }

    /// A write into the ROM windows sets one of the four registers; a write
    /// into the RAM window stores the byte where a cell answers and is
    /// dropped where none does.
    open spec fn byte_written(state: Mbc1State, address: int, value: u8) -> Written<Mbc1State> {
        if 0x0000 <= address <= 0x1FFF {
            accepted(Mbc1State { ram_enabled: value % 16 == 0x0A, ..state })
        } else if 0x2000 <= address <= 0x3FFF {
            accepted(
                Mbc1State {
                    rom_bank_low: if value % 32 == 0 {
                        1
                    } else {
                        (value % 32) as nat
                    },
                    ..state
                },
            )
        } else if 0x4000 <= address <= 0x5FFF {
            accepted(Mbc1State { bank_select: (value % 4) as nat, ..state })
        } else if 0x6000 <= address <= 0x7FFF {
            accepted(
                Mbc1State {
                    banking_mode: if value % 2 == 1 {
                        BankingMode::Ram
                    } else {
                        BankingMode::Rom
                    },
                    ..state
                },
            )
        } else if in_cartridge_ram(address) {
            if state.ram_answers(address) {
                accepted(
                    Mbc1State {
                        ram: state.ram.update(state.ram_offset(address), value),
                        ..state
                    },
                )
            } else {
                accepted(state)
            }
        } else {
            refused(state, MemoryError::InvalidAddress)
        }
    }

    /// Two byte writes, the low byte first; the second is made only where
    /// the first was accepted.
    open spec fn word_written(state: Mbc1State, address: int, value: u16) -> Written<Mbc1State> {
        let first = Self::byte_written(state, address, low_byte(value));
        if first.result is Ok {
            Self::byte_written(first.state, address + 1, high_byte(value))
        } else {
            first
        }
    }

    fn contains(&self, address: usize) -> (claimed: bool) {
        address <= 0x3FFF || (0x4000 <= address && address <= 0x7FFF) || (0xA000 <= address
            && address <= 0xBFFF)
    }

    fn read_byte(&self, address: usize) -> (result: Result<u8, MemoryError>) {
        match address {
            0x0000..=0x3FFF => {
                if address < self.rom.len() {
                    Ok(self.rom[address])
                } else {
                    Err(MemoryError::InvalidAddress)
                }
            },
            0x4000..=0x7FFF => {
                let offset: usize = self.effective_rom_bank() * ROM_BANK_SIZE + (address
                    - ROM_BANK_SIZE);
                if offset < self.rom.len() {
                    Ok(self.rom[offset])
                } else {
                    Err(MemoryError::InvalidAddress)
                }
            },
            0xA000..=0xBFFF => {
                let offset: usize = self.effective_ram_bank() * RAM_BANK_SIZE + (address
                    - RAM_START);
                if self.ram_enable && offset < self.ram.len() {
                    Ok(self.ram[offset])
                } else {
                    Ok(OPEN_BUS)
                }
            },
            _ => Err(MemoryError::InvalidAddress),
        }
    }

    fn read_word(&self, address: usize) -> (result: Result<u16, MemoryError>) {
        let low: u8 = self.read_byte(address)?;
        let high: u8 = self.read_byte(address + 1)?;
        Ok(make_word(low, high))
    }

    fn write_byte(&mut self, address: usize, value: u8) -> (result: Result<(), MemoryError>)
        ensures
            final(self)@.wf(),
    {
        proof {
            use_type_invariant(&*self);
        }
        match address {
            0x0000..=0x1FFF => {
                let low: u8 = value & 0x0F;
                assert(low == value % 16) by (bit_vector)
                    requires
                        low == value & 0x0F,
                ;
                self.ram_enable = low == 0x0A;
                Ok(())
            },
            0x2000..=0x3FFF => {
                let low: u8 = value & 0x1F;
                assert(low == value % 32) by (bit_vector)
                    requires
                        low == value & 0x1F,
                ;
                self.rombank = if low == 0 {
                    1
                } else {
                    low as usize
                };
                Ok(())
            },
            0x4000..=0x5FFF => {
                let low: u8 = value & 0x03;
                assert(low == value % 4) by (bit_vector)
                    requires
                        low == value & 0x03,
                ;
                self.rambank = low as usize;
                Ok(())
            },
            0x6000..=0x7FFF => {
                let low: u8 = value & 0x01;
                assert(low == value % 2) by (bit_vector)
                    requires
                        low == value & 0x01,
                ;
                self.romram_mode = if low == 1 {
                    BankingMode::Ram
                } else {
                    BankingMode::Rom
                };
                Ok(())
            },
            0xA000..=0xBFFF => {
                let offset: usize = self.effective_ram_bank() * RAM_BANK_SIZE + (address
                    - RAM_START);
                if self.ram_enable && offset < self.ram.len() {
                    self.ram[offset] = value;
                }
                Ok(())
            },
            _ => Err(MemoryError::InvalidAddress),
        }
    }

    fn write_word(&mut self, address: usize, value: u16) -> (result: Result<(), MemoryError>)
        ensures
            final(self)@.wf(),
    {
        let (low, high) = split_word(value);
        self.write_byte(address, low)?;
        self.write_byte(address + 1, high)
    }

    proof fn lemma_unclaimed_is_refused(state: Mbc1State, address: int, byte: u8, word: u16) {
    }

    proof fn lemma_how_operations_fail(state: Mbc1State, address: int, byte: u8) {
    }
}

/// A cartridge of either kind.
pub enum Cartridge {
    /// ROM only.
    NoMemoryBank(NoMBCartridge),
    /// ROM and RAM behind the first bank controller.
    MBC1(MBC1),
}

/// The state of a [`Cartridge`].
pub enum CartridgeState {
    NoMemoryBank(NoMbcState),
    MBC1(Mbc1State),
}

impl View for Cartridge {
    type V = CartridgeState;

    open spec fn view(&self) -> CartridgeState {
        match self {
            Cartridge::NoMemoryBank(cartridge) => CartridgeState::NoMemoryBank(cartridge@),
            Cartridge::MBC1(cartridge) => CartridgeState::MBC1(cartridge@),
        }
    }
}

impl ReadWrite for Cartridge {
    open spec fn claims(state: CartridgeState, address: int) -> bool {
        match state {
            CartridgeState::NoMemoryBank(inner) => NoMBCartridge::claims(inner, address),
            CartridgeState::MBC1(inner) => MBC1::claims(inner, address),
        }
    }

    open spec fn byte_at(state: CartridgeState, address: int) -> Result<u8, MemoryError> {
        match state {
            CartridgeState::NoMemoryBank(inner) => NoMBCartridge::byte_at(inner, address),
            CartridgeState::MBC1(inner) => MBC1::byte_at(inner, address),
        }
    }

    open spec fn word_at(state: CartridgeState, address: int) -> Result<u16, MemoryError> {
        match state {
            CartridgeState::NoMemoryBank(inner) => NoMBCartridge::word_at(inner, address),
            CartridgeState::MBC1(inner) => MBC1::word_at(inner, address),
        }
    }

    open spec fn byte_written(state: CartridgeState, address: int, value: u8) -> Written<
        CartridgeState,
    > {
        match state {
            CartridgeState::NoMemoryBank(inner) => {
                let written = NoMBCartridge::byte_written(inner, address, value);
                Written {
                    state: CartridgeState::NoMemoryBank(written.state),
                    result: written.result,
                }
            },
            CartridgeState::MBC1(inner) => {
                let written = MBC1::byte_written(inner, address, value);
                Written { state: CartridgeState::MBC1(written.state), result: written.result }
            },
        }
    }

    open spec fn word_written(state: CartridgeState, address: int, value: u16) -> Written<
        CartridgeState,
    > {
        match state {
            CartridgeState::NoMemoryBank(inner) => {
                let written = NoMBCartridge::word_written(inner, address, value);
                Written {
                    state: CartridgeState::NoMemoryBank(written.state),
                    result: written.result,
                }
            },
            CartridgeState::MBC1(inner) => {
                let written = MBC1::word_written(inner, address, value);
                Written { state: CartridgeState::MBC1(written.state), result: written.result }
            },
        }
    }

    fn contains(&self, address: usize) -> (claimed: bool) {
        match self {
            Cartridge::NoMemoryBank(cartridge) => cartridge.contains(address),
            Cartridge::MBC1(cartridge) => cartridge.contains(address),
        }
    }

    fn read_byte(&self, address: usize) -> (result: Result<u8, MemoryError>) {
        match self {
            Cartridge::NoMemoryBank(cartridge) => cartridge.read_byte(address),
            Cartridge::MBC1(cartridge) => cartridge.read_byte(address),
        }
    }

    fn read_word(&self, address: usize) -> (result: Result<u16, MemoryError>) {
        match self {
            Cartridge::NoMemoryBank(cartridge) => cartridge.read_word(address),
            Cartridge::MBC1(cartridge) => cartridge.read_word(address),
        }
    }

    fn write_byte(&mut self, address: usize, value: u8) -> (result: Result<(), MemoryError>) {
        match self {
            Cartridge::NoMemoryBank(cartridge) => cartridge.write_byte(address, value),
            Cartridge::MBC1(cartridge) => cartridge.write_byte(address, value),
        }
    }

    fn write_word(&mut self, address: usize, value: u16) -> (result: Result<(), MemoryError>) {
        match self {
            Cartridge::NoMemoryBank(cartridge) => cartridge.write_word(address, value),
            Cartridge::MBC1(cartridge) => cartridge.write_word(address, value),
        }
    }

    proof fn lemma_unclaimed_is_refused(state: CartridgeState, address: int, byte: u8, word: u16) {
    }

    proof fn lemma_how_operations_fail(state: CartridgeState, address: int, byte: u8) {
    }
}

/// The cartridge that `image` describes: of the kind that its header names,
/// fresh from the image. An image whose header cannot be decoded, or names
/// another bank controller, describes none.
pub open spec fn cartridge_of(image: Seq<u8>) -> Result<CartridgeState, CartridgeError> {
    if !header_decodable(image) {
        Err(CartridgeError::HeaderDecode)
    } else {
        match decoded_header(image).memory_bank_type {
            MemoryBankType::NoMemoryBank => Ok(
                CartridgeState::NoMemoryBank(
                    NoMbcState { header: decoded_header(image), rom: image },
                ),
            ),
            MemoryBankType::MBC1 => Ok(
                CartridgeState::MBC1(Mbc1State::initial(decoded_header(image), image)),
            ),
            MemoryBankType::Unsupported(code) => Err(CartridgeError::UnsupportedBankingKind(code)),
        }
    }
}

/// Makes the cartridge for an image, the whole content of a ROM file.
pub fn make_cartridge(data: Vec<u8>) -> (result: Result<Cartridge, CartridgeError>)
    ensures
        result matches Ok(cartridge) ==> cartridge_of(data@) == Ok::<
            CartridgeState,
            CartridgeError,
        >(cartridge@),
        result matches Err(error) ==> cartridge_of(data@) == Err::<CartridgeState, CartridgeError>(
            error,
        ),
{
    let header = match CartridgeHeader::new(&data) {
        Ok(header) => header,
        Err(error) => {
            return Err(error);
        },
    };
    match header.memory_bank_type() {
        MemoryBankType::NoMemoryBank => Ok(
            Cartridge::NoMemoryBank(NoMBCartridge::new(data, header)),
        ),
        MemoryBankType::MBC1 => Ok(Cartridge::MBC1(MBC1::new(data, header))),
        MemoryBankType::Unsupported(code) => Err(CartridgeError::UnsupportedBankingKind(code)),
    }
}

/// Every write leaves the registers in range and the RAM at its size: the
/// low ROM bank number is never zero.
pub proof fn lemma_mbc1_writes_keep_wf(state: Mbc1State, address: int, byte: u8, word: u16)
    requires
        state.wf(),
    ensures
        MBC1::byte_written(state, address, byte).state.wf(),
        MBC1::word_written(state, address, word).state.wf(),
{
}

/// A value whose low five bits are zero, written to the ROM bank register,
/// selects bank 1, and any other value selects its low five bits: the
/// register never holds zero. Where the upper bank bits do not count and the
/// image holds a second bank, bank 1 is then the bank seen.
pub proof fn lemma_rom_bank_zero_selects_one(state: Mbc1State, address: int, value: u8)
    requires
        0x2000 <= address <= 0x3FFF,
    ensures
        MBC1::byte_written(state, address, value).result is Ok,
        value % 32 == 0 ==> MBC1::byte_written(state, address, value).state.rom_bank_low == 1,
        value % 32 != 0 ==> MBC1::byte_written(state, address, value).state.rom_bank_low == value
            % 32,
        value % 32 == 0 && state.total_rom_banks() >= 2 && (state.banking_mode
            == BankingMode::Ram || state.bank_select == 0) ==> MBC1::byte_written(
            state,
            address,
            value,
        ).state.effective_rom_bank() == 1,
{
    let next = MBC1::byte_written(state, address, value).state;
    if next.selected_rom_bank() < next.total_rom_banks() {
        lemma_small_mod(next.selected_rom_bank(), next.total_rom_banks());
    }
}

/// Only the RAM window writes to the RAM: the four registers change no byte.
pub proof fn lemma_control_writes_keep_ram(state: Mbc1State, address: int, value: u8)
    requires
        !in_cartridge_ram(address),
    ensures
        MBC1::byte_written(state, address, value).state.ram == state.ram,
{
}

/// In ROM banking mode the RAM window shows bank 0; in either mode the bank
/// it shows is one of four.
pub proof fn lemma_effective_ram_bank_in_range(state: Mbc1State)
    requires
        state.wf(),
    ensures
        state.effective_ram_bank() <= 3,
        state.banking_mode == BankingMode::Rom ==> state.effective_ram_bank() == 0,
        state.banking_mode == BankingMode::Ram ==> state.effective_ram_bank()
            == state.bank_select,
{
}

/// No write changes the image or the header.
pub proof fn lemma_rom_is_never_written(state: Mbc1State, address: int, byte: u8, word: u16)
    ensures
        MBC1::byte_written(state, address, byte).state.rom == state.rom,
        MBC1::byte_written(state, address, byte).state.header == state.header,
        MBC1::word_written(state, address, word).state.rom == state.rom,
        MBC1::word_written(state, address, word).state.header == state.header,
{
}

/// The fixed window always shows bank 0: no write changes what is read there.
pub proof fn lemma_fixed_window_is_fixed(state: Mbc1State, address: int, value: u8, read: int)
    requires
        in_fixed_rom(read),
    ensures
        MBC1::byte_at(MBC1::byte_written(state, address, value).state, read) == MBC1::byte_at(
            state,
            read,
        ),
{
}

/// In an image of at least one whole bank, every address of the switchable
/// window shows a byte of the image.
pub proof fn lemma_switched_window_stays_in_image(state: Mbc1State, address: int)
    requires
        state.wf(),
        state.rom.len() >= ROM_BANK_SIZE,
        in_switched_rom(address),
    ensures
        0 <= state.rom_offset(address) < state.rom.len(),
        MBC1::byte_at(state, address) == Ok::<u8, MemoryError>(
            state.rom[state.rom_offset(address)],
        ),
{
    lemma_effective_rom_bank_in_range(state);
    let banks = state.rom.len() / (ROM_BANK_SIZE as nat);
    assert(banks * ROM_BANK_SIZE <= state.rom.len()) by {
        lemma_fundamental_div_mod(state.rom.len() as int, ROM_BANK_SIZE as int);
    }
    assert((state.effective_rom_bank() + 1) * ROM_BANK_SIZE <= banks * ROM_BANK_SIZE)
        by (nonlinear_arith)
        requires
            state.effective_rom_bank() + 1 <= banks,
    ;
}

/// While the RAM is disabled the RAM window is inert: every write there is
/// accepted and changes nothing, and every read gives the open-bus value.
pub proof fn lemma_disabled_ram_is_inert(state: Mbc1State, address: int, value: u8)
    requires
        !state.ram_enabled,
        in_cartridge_ram(address),
    ensures
        MBC1::byte_written(state, address, value) == accepted(state),
        MBC1::byte_at(state, address) == Ok::<u8, MemoryError>(OPEN_BUS),
{
}

/// Where the RAM does not reach, the RAM window is as inert as when the RAM
/// is disabled; a cartridge without RAM never answers there.
pub proof fn lemma_missing_ram_is_inert(state: Mbc1State, address: int, value: u8)
    requires
        in_cartridge_ram(address),
        state.ram_offset(address) >= state.ram.len(),
    ensures
        MBC1::byte_written(state, address, value) == accepted(state),
        MBC1::byte_at(state, address) == Ok::<u8, MemoryError>(OPEN_BUS),
{
}

/// Where a RAM cell answers, the byte written is the byte read back.
pub proof fn lemma_ram_byte_round_trip(state: Mbc1State, address: int, value: u8)
    requires
        in_cartridge_ram(address),
        state.ram_answers(address),
    ensures
        MBC1::byte_written(state, address, value).result is Ok,
        MBC1::byte_at(MBC1::byte_written(state, address, value).state, address) == Ok::<
            u8,
            MemoryError,
        >(value),
{
}

/// Where RAM cells answer at both bytes of a word, the word written is the
/// word read back.
pub proof fn lemma_ram_word_round_trip(state: Mbc1State, address: int, value: u16)
    requires
        in_cartridge_ram(address),
        in_cartridge_ram(address + 1),
        state.ram_answers(address),
        state.ram_answers(address + 1),
    ensures
        MBC1::word_written(state, address, value).result is Ok,
        MBC1::word_at(MBC1::word_written(state, address, value).state, address) == Ok::<
            u16,
            MemoryError,
        >(value),
{
    lemma_word_round_trip(value);
}

/// The cartridge accepts a byte write at exactly the addresses it claims, and
/// refuses a write for one reason only: the address.
pub proof fn lemma_mbc1_accepts_where_it_claims(
    state: Mbc1State,
    address: int,
    byte: u8,
    word: u16,
)
    ensures
        MBC1::claims(state, address) <==> MBC1::byte_written(state, address, byte).result is Ok,
        MBC1::byte_written(state, address, byte).result matches Err(error) ==> error
            == MemoryError::InvalidAddress,
        MBC1::word_written(state, address, word).result matches Err(error) ==> error
            == MemoryError::InvalidAddress,
{
}

/// A cartridge without a bank controller shows the image as it is: every
/// address below `0x8000` that the image reaches reads as the byte of the
/// image there, and every write is refused with `InvalidOperation` and
/// changes nothing.
pub proof fn lemma_plain_cartridge_is_its_image(
    state: NoMbcState,
    address: int,
    byte: u8,
    word: u16,
)
    ensures
        0 <= address <= 0x7FFF && address < state.rom.len() ==> NoMBCartridge::byte_at(
            state,
            address,
        ) == Ok::<u8, MemoryError>(state.rom[address]),
        NoMBCartridge::byte_written(state, address, byte) == refused(
            state,
            MemoryError::InvalidOperation,
        ),
        NoMBCartridge::word_written(state, address, word) == refused(
            state,
            MemoryError::InvalidOperation,
        ),
{
}

} // verus!
