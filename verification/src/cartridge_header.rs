//! The header of a cartridge image: the fixed block of metadata that ends at
//! offset `0x150` and names the game, the bank controller and the size of the
//! cartridge's RAM.

use vstd::prelude::*;
use vstd::utf8::{decode_utf8, valid_utf8};

verus! {

/// Length of the header block: the image must hold at least this many bytes.
pub const HEADER_LEN: usize = 0x150;

/// Offset of the first byte of the title field.
pub const TITLE_START: usize = 0x134;

/// Offset just past the last byte of the title field.
pub const TITLE_END: usize = 0x144;

/// Offset of the byte that names the bank controller.
pub const BANKING_KIND_OFFSET: usize = 0x147;

/// Offset of the byte that gives the size of the cartridge's RAM.
pub const RAM_SIZE_OFFSET: usize = 0x149;

/// The bank controller that a cartridge carries.
#[derive(Clone, Copy, Debug, PartialEq, Eq, Structural)]
pub enum MemoryBankType {
    /// ROM only, no controller.
    NoMemoryBank,
    /// The first bank controller, with or without RAM and battery.
    MBC1,
    /// Any other controller, with the code that the header gave.
    Unsupported(u8),
}

/// Why a cartridge image was turned down.
#[derive(Clone, Copy, Debug, PartialEq, Eq, Structural)]
pub enum CartridgeError {
    /// The image is shorter than a header, or its title is not valid text.
    HeaderDecode,
    /// The header names a bank controller that is not supported; the code is
    /// the one the header gave.
    UnsupportedBankingKind(u8),
}

/// The number of bytes of `field` that stand before its first zero byte; all
/// of them where it holds none.
pub open spec fn text_length(field: Seq<u8>) -> nat
    decreases field.len(),
{
    if field.len() == 0 || field[0] == 0 {
        0
    } else {
        1 + text_length(field.drop_first())
    }
}

/// The title field of `image`, a block of 16 bytes.
pub open spec fn title_field(image: Seq<u8>) -> Seq<u8> {
    image.subrange(TITLE_START as int, TITLE_END as int)
}

/// The bytes of the title: the title field up to its first zero byte.
pub open spec fn title_bytes(image: Seq<u8>) -> Seq<u8> {
    title_field(image).subrange(0, text_length(title_field(image)) as int)
}

/// The bank controller that the code at offset `0x147` stands for.
pub open spec fn bank_type_of(code: u8) -> MemoryBankType {
    if code == 0x00 {
        MemoryBankType::NoMemoryBank
    } else if 0x01 <= code <= 0x03 {
        MemoryBankType::MBC1
    } else {
        MemoryBankType::Unsupported(code)
    }
}

/// The size in bytes of the cartridge's RAM that the code at offset `0x149`
/// stands for. A code outside the table declares no RAM.
pub open spec fn ram_size_of(code: u8) -> nat {
    if code == 0x01 {
        0x800
    } else if code == 0x02 {
        0x2000
    } else if code == 0x03 {
        0x8000
    } else if code == 0x04 {
        0x20000
    } else if code == 0x05 {
        0x10000
    } else {
        0
    }
}

/// Whether `image` holds a header that can be decoded: it is long enough and
/// its title is valid UTF-8.
pub open spec fn header_decodable(image: Seq<u8>) -> bool {
    image.len() >= HEADER_LEN && valid_utf8(title_bytes(image))
}

/// What a header says.
pub struct HeaderData {
    pub title: Seq<char>,
    pub memory_bank_type: MemoryBankType,
    pub ram_size: nat,
}

/// What the header of `image` says, where it can be decoded.
pub open spec fn decoded_header(image: Seq<u8>) -> HeaderData
    recommends
        header_decodable(image),
{
    HeaderData {
        title: decode_utf8(title_bytes(image)),
        memory_bank_type: bank_type_of(image[BANKING_KIND_OFFSET as int]),
        ram_size: ram_size_of(image[RAM_SIZE_OFFSET as int]),
    }
}

/// The metadata of a cartridge, fixed once read.
pub struct CartridgeHeader {
    title: String,
    memory_bank_type: MemoryBankType,
    ram_size: usize,
}

impl View for CartridgeHeader {
    type V = HeaderData;

    closed spec fn view(&self) -> HeaderData {
        HeaderData {
            title: self.title@,
            memory_bank_type: self.memory_bank_type,
            ram_size: self.ram_size as nat,
        }
    }
}

/// The error of `String::from_utf8`, which tells where the bytes go wrong.
/// Nothing is claimed of it.
#[verifier::external_type_specification]
#[verifier::external_body]
pub struct ExFromUtf8Error(std::string::FromUtf8Error);

/// `String::from_utf8` of the standard library gives a string exactly when
/// the bytes are valid UTF-8, and the string then holds the characters that
/// the bytes encode.
pub assume_specification[ String::from_utf8 ](vec: Vec<u8>) -> (result: Result<
    String,
    std::string::FromUtf8Error,
>)
    ensures
        result is Ok <==> valid_utf8(vec@),
        result matches Ok(text) ==> text@ == decode_utf8(vec@),
;

/// The bank controller for a code of the header.
fn bank_type(code: u8) -> (kind: MemoryBankType)
    ensures
        kind == bank_type_of(code),
{
    match code {
        0x00 => MemoryBankType::NoMemoryBank,
        0x01 | 0x02 | 0x03 => MemoryBankType::MBC1,
        _ => MemoryBankType::Unsupported(code),
    }
}

/// The RAM size in bytes for a code of the header.
fn ram_size(code: u8) -> (size: usize)
    ensures
        size == ram_size_of(code),
{
    match code {
        0x01 => 0x800,
        0x02 => 0x2000,
        0x03 => 0x8000,
        0x04 => 0x20000,
        0x05 => 0x10000,
        _ => 0,
    }
}

/// The text of a field is its longest prefix without a zero byte: no byte
/// of it is zero, and it ends at the end of the field or before a zero byte.
pub proof fn lemma_text_precedes_first_zero(field: Seq<u8>)
    ensures
        text_length(field) <= field.len(),
        forall|i: int| 0 <= i < text_length(field) ==> field[i] != 0,
        text_length(field) < field.len() ==> field[text_length(field) as int] == 0,
    decreases field.len(),
{
    if field.len() == 0 || field[0] == 0 {
    } else {
        let rest = field.drop_first();
        lemma_text_precedes_first_zero(rest);
        assert forall|i: int| 0 <= i < text_length(field) implies field[i] != 0 by {
            if i > 0 {
                assert(field[i] == rest[i - 1]);
            }
        }
        if text_length(field) < field.len() {
            assert(field[text_length(field) as int] == rest[text_length(rest) as int]);
        }
    }
}

/// Only one length fits: a prefix of `field` without a zero byte that ends at
/// the end of the field or before a zero byte is the text of the field.
pub proof fn lemma_text_length_is(field: Seq<u8>, length: int)
    requires
        0 <= length <= field.len(),
        forall|i: int| 0 <= i < length ==> field[i] != 0,
        length < field.len() ==> field[length] == 0,
    ensures
        text_length(field) == length,
{
    lemma_text_precedes_first_zero(field);
    let found = text_length(field) as int;
    if found < length {
        assert(field[found] == 0);
    } else if length < found {
        assert(field[length] == 0);
    }
}

impl CartridgeHeader {
    /// Reads the header of a cartridge image.
    ///
    /// The title is the title field up to its first zero byte, decoded as
    /// UTF-8. The image is turned down where it is shorter than a header, or
    /// where the title is not valid UTF-8.
    pub fn new(data: &Vec<u8>) -> (result: Result<CartridgeHeader, CartridgeError>)
        ensures
            result is Ok <==> header_decodable(data@),
            result matches Ok(header) ==> header@ == decoded_header(data@),
            result matches Err(error) ==> error == CartridgeError::HeaderDecode,
    {
        if data.len() < HEADER_LEN {
            return Err(CartridgeError::HeaderDecode);
        }
        let ghost field = title_field(data@);
        let mut text: Vec<u8> = Vec::new();
        let mut end: usize = TITLE_START;
        while end < TITLE_END && data[end] != 0
            invariant
                TITLE_START <= end <= TITLE_END,
                data.len() >= HEADER_LEN,
                field == title_field(data@),
                text@ == field.subrange(0, end - TITLE_START),
                forall|i: int| 0 <= i < end - TITLE_START ==> field[i] != 0,
            decreases TITLE_END - end,
        {
            text.push(data[end]);
            end = end + 1;
            assert(text@ == field.subrange(0, end - TITLE_START));
        }
        proof {
            lemma_text_length_is(field, end - TITLE_START);
        }
        match String::from_utf8(text) {
            Ok(title) => Ok(
                CartridgeHeader {
                    title,
                    memory_bank_type: bank_type(data[BANKING_KIND_OFFSET]),
                    ram_size: ram_size(data[RAM_SIZE_OFFSET]),
                },
            ),
            Err(_) => Err(CartridgeError::HeaderDecode),
        }
    }

    /// The title of the game.
    pub fn title(&self) -> (title: &String)
        ensures
            title@ == self@.title,
    {
        &self.title
    }

    /// The bank controller of the cartridge.
    pub fn memory_bank_type(&self) -> (kind: MemoryBankType)
        ensures
            kind == self@.memory_bank_type,
    {
        self.memory_bank_type
    }

    /// The size of the cartridge's RAM in bytes.
    pub fn ram_in_bytes(&self) -> (size: usize)
        ensures
            size == self@.ram_size,
    {
        self.ram_size
    }
}

} // verus!
