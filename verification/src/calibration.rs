//! The factory calibration constants and their register encoding.

use vstd::prelude::*;
use crate::bus::{
    byte_of, complete_run, is_complete_run, replies_at_rest, word_of, Reply, Request,
};
use crate::register::Register;

verus! {

/// The value of a byte read as a two's-complement number.
pub open spec fn signed8(byte: u8) -> int {
    if byte < 0x80 {
        byte as int
    } else {
        byte - 0x100
    }
}

/// The value of a sixteen-bit word read as a two's-complement number.
pub open spec fn signed16(word: u16) -> int {
    if word < 0x8000 {
        word as int
    } else {
        word - 0x1_0000
    }
}

/// Whether `value` fits a signed twelve-bit field.
pub open spec fn fits_twelve_bits(value: int) -> bool {
    -2048 <= value <= 2047
}

/// Reads a byte as a two's-complement number.
pub fn byte_as_signed(byte: u8) -> (value: i8)
    ensures
        value == signed8(byte),
{
    if byte < 0x80 {
        byte as i8
    } else {
        (byte as i16 - 0x100) as i8
    }
}

/// Reads a word as a two's-complement number.
pub fn word_as_signed(word: u16) -> (value: i16)
    ensures
        value == signed16(word),
{
    if word < 0x8000 {
        word as i16
    } else {
        (word as i32 - 0x1_0000) as i16
    }
}

/// The twelve-bit constant whose upper eight bits are `high` and whose
/// lower four bits are the low nibble of `shared`.
pub open spec fn spec_unpack_low_nibble(high: u8, shared: u8) -> int {
    signed8(high) * 16 + shared % 16
}

/// The twelve-bit constant whose upper eight bits are `high` and whose
/// lower four bits are the high nibble of `shared`.
pub open spec fn spec_unpack_high_nibble(high: u8, shared: u8) -> int {
    signed8(high) * 16 + shared / 16
}

/// Rebuilds the signed twelve-bit constant stored in `high` and in the low
/// nibble of `shared`.
///
/// The byte is moved to the top of a 32-bit word and shifted back
/// arithmetically, which extends its sign.
pub fn unpack_low_nibble(high: u8, shared: u8) -> (value: i32)
    ensures
        value == spec_unpack_low_nibble(high, shared),
        fits_twelve_bits(value as int),
{
    let wide: i32 = high as i32;
    let extended: i32 = (wide << 24) >> 20;
    let nibble: i32 = (shared & 0x0F) as i32;
    let value: i32 = extended | nibble;
    assert(value == signed8(high) * 16 + shared % 16) by (bit_vector)
        requires
            wide == high,
            extended == (wide << 24) >> 20,
            nibble == (shared & 0x0F) as i32,
            value == extended | nibble,
    ;
    value
}

/// Rebuilds the signed twelve-bit constant stored in `high` and in the high
/// nibble of `shared`.
pub fn unpack_high_nibble(high: u8, shared: u8) -> (value: i32)
    ensures
        value == spec_unpack_high_nibble(high, shared),
        fits_twelve_bits(value as int),
{
    let wide: i32 = high as i32;
    let extended: i32 = (wide << 24) >> 20;
    let nibble: i32 = ((shared >> 4) & 0x0F) as i32;
    let value: i32 = extended | nibble;
    assert(value == signed8(high) * 16 + shared / 16) by (bit_vector)
        requires
            wide == high,
            extended == (wide << 24) >> 20,
            nibble == ((shared >> 4) & 0x0F) as i32,
            value == extended | nibble,
    ;
    value
}

/// The upper eight bits of a twelve-bit constant, as the register holds
/// them.
pub open spec fn spec_high_byte(value: int) -> u8 {
    ((value / 16) % 256) as u8
}

/// The lower four bits of a twelve-bit constant.
pub open spec fn spec_low_bits(value: int) -> u8 {
    (value % 16) as u8
}

/// The contents of the three registers that hold the two twelve-bit
/// humidity constants: the upper byte of the first, the byte that the two
/// share (the first in its low nibble, the second in its high nibble), and
/// the upper byte of the second.
pub open spec fn spec_pack_pair(first: int, second: int) -> (u8, u8, u8) {
    (
        spec_high_byte(first),
        (spec_low_bits(first) + 16 * spec_low_bits(second)) as u8,
        spec_high_byte(second),
    )
}

/// The upper eight bits of a twelve-bit constant.
fn high_byte(value: i32) -> (byte: u8)
    requires
        fits_twelve_bits(value as int),
    ensures
        byte == spec_high_byte(value as int),
{
    let bits: i32 = (value >> 4) & 0xFF;
    assert(0 <= bits < 256 && bits == (value as int / 16) % 256) by (bit_vector)
        requires
            bits == (value >> 4) & 0xFF,
            -2048 <= value <= 2047,
    ;
    bits as u8
}

/// The lower four bits of a twelve-bit constant.
fn low_bits(value: i32) -> (bits: u8)
    requires
        fits_twelve_bits(value as int),
    ensures
        bits == spec_low_bits(value as int),
        bits < 16,
{
    let bits: i32 = value & 0x0F;
    assert(0 <= bits < 16 && bits == (value as int) % 16) by (bit_vector)
        requires
            bits == value & 0x0F,
            -2048 <= value <= 2047,
    ;
    bits as u8
}

/// Lays two signed twelve-bit constants out as the sensor stores them.
pub fn pack_pair(first: i32, second: i32) -> (registers: (u8, u8, u8))
    requires
        fits_twelve_bits(first as int),
        fits_twelve_bits(second as int),
    ensures
        registers == spec_pack_pair(first as int, second as int),
{
    let low_first: u8 = low_bits(first);
    let low_second: u8 = low_bits(second);
    let shared: u8 = low_first | (low_second << 4);
    assert(shared == low_first + 16 * low_second) by (bit_vector)
        requires
            shared == low_first | (low_second << 4),
            low_first < 16,
            low_second < 16,
    ;
    (high_byte(first), shared, high_byte(second))
}

/// Packing two twelve-bit constants into the three registers and unpacking
/// the registers again gives the two constants back.
pub proof fn lemma_pack_then_unpack(first: int, second: int)
    requires
        fits_twelve_bits(first),
        fits_twelve_bits(second),
    ensures
        ({
            let (high_first, shared, high_second) = spec_pack_pair(first, second);
            &&& spec_unpack_low_nibble(high_first, shared) == first
            &&& spec_unpack_high_nibble(high_second, shared) == second
        }),
{
}

/// Unpacking three registers and packing the two constants again gives the
/// registers back: the layout wastes no bit.
pub proof fn lemma_unpack_then_pack(high_first: u8, shared: u8, high_second: u8)
    ensures
        spec_pack_pair(
            spec_unpack_low_nibble(high_first, shared),
            spec_unpack_high_nibble(high_second, shared),
        ) == (high_first, shared, high_second),
{
}

/// The eighteen constants that the factory programs into the sensor.
///
/// They are read once when the driver starts and never change afterwards.
#[derive(Debug, Clone, Copy, PartialEq, Eq)]
pub struct Calibration {
    /// First temperature constant; the others follow.
    pub t1: u16,
    pub t2: i16,
    pub t3: i16,
    /// First pressure constant; the others follow.
    pub p1: u16,
    pub p2: i16,
    pub p3: i16,
    pub p4: i16,
    pub p5: i16,
    pub p6: i16,
    pub p7: i16,
    pub p8: i16,
    pub p9: i16,
    /// First humidity constant; the others follow.
    pub h1: u8,
    pub h2: i16,
    pub h3: u8,
    /// A signed twelve-bit constant.
    pub h4: i32,
    /// A signed twelve-bit constant.
    pub h5: i32,
    pub h6: i8,
}

impl Calibration {
    /// Whether the two twelve-bit constants are within their range.
    pub open spec fn well_formed(self) -> bool {
        &&& fits_twelve_bits(self.h4 as int)
        &&& fits_twelve_bits(self.h5 as int)
    }

    /// The reads that load the calibration, in the order in which they are
    /// made. The register shared by the two twelve-bit constants is read
    /// once for each of them.
    pub open spec fn load_script() -> Seq<Request> {
        seq![
            Request::ReadByte { register: Register::H4 },
            Request::ReadByte { register: Register::H5 },
            Request::ReadByte { register: Register::H6 },
            Request::ReadByte { register: Register::H5 },
            Request::ReadWord { register: Register::T1 },
            Request::ReadWord { register: Register::T2 },
            Request::ReadWord { register: Register::T3 },
            Request::ReadWord { register: Register::P1 },
            Request::ReadWord { register: Register::P2 },
            Request::ReadWord { register: Register::P3 },
            Request::ReadWord { register: Register::P4 },
            Request::ReadWord { register: Register::P5 },
            Request::ReadWord { register: Register::P6 },
            Request::ReadWord { register: Register::P7 },
            Request::ReadWord { register: Register::P8 },
            Request::ReadWord { register: Register::P9 },
            Request::ReadByte { register: Register::H1 },
            Request::ReadWord { register: Register::H2 },
            Request::ReadByte { register: Register::H3 },
            Request::ReadByte { register: Register::H7 },
        ]
    }

    /// The calibration that a complete run of the load script holds: each
    /// constant is taken from the reply at the position of the read of its
    /// register.
    pub open spec fn decode(replies: Seq<Reply>) -> Calibration {
        Calibration {
            t1: replies[4].word(),
            t2: signed16(replies[5].word()) as i16,
            t3: signed16(replies[6].word()) as i16,
            p1: replies[7].word(),
            p2: signed16(replies[8].word()) as i16,
            p3: signed16(replies[9].word()) as i16,
            p4: signed16(replies[10].word()) as i16,
            p5: signed16(replies[11].word()) as i16,
            p6: signed16(replies[12].word()) as i16,
            p7: signed16(replies[13].word()) as i16,
            p8: signed16(replies[14].word()) as i16,
            p9: signed16(replies[15].word()) as i16,
            h1: replies[16].byte(),
            h2: signed16(replies[17].word()) as i16,
            h3: replies[18].byte(),
            h4: spec_unpack_low_nibble(replies[0].byte(), replies[1].byte()) as i32,
            h5: spec_unpack_high_nibble(replies[2].byte(), replies[3].byte()) as i32,
            h6: signed8(replies[19].byte()) as i8,
        }
    }

    /// The calibration that the registers of a device hold, where `bytes`
    /// are the contents of its byte registers and `words` those of its word
    /// registers.
    pub open spec fn held_by(
        bytes: spec_fn(Register) -> u8,
        words: spec_fn(Register) -> u16,
    ) -> Calibration {
        Calibration {
            t1: words(Register::T1),
            t2: signed16(words(Register::T2)) as i16,
            t3: signed16(words(Register::T3)) as i16,
            p1: words(Register::P1),
            p2: signed16(words(Register::P2)) as i16,
            p3: signed16(words(Register::P3)) as i16,
            p4: signed16(words(Register::P4)) as i16,
            p5: signed16(words(Register::P5)) as i16,
            p6: signed16(words(Register::P6)) as i16,
            p7: signed16(words(Register::P7)) as i16,
            p8: signed16(words(Register::P8)) as i16,
            p9: signed16(words(Register::P9)) as i16,
            h1: bytes(Register::H1),
            h2: signed16(words(Register::H2)) as i16,
            h3: bytes(Register::H3),
            h4: spec_unpack_low_nibble(bytes(Register::H4), bytes(Register::H5)) as i32,
            h5: spec_unpack_high_nibble(bytes(Register::H6), bytes(Register::H5)) as i32,
            h6: signed8(bytes(Register::H7)) as i8,
        }
    }

    /// Loading from a device at rest yields the calibration that its
    /// registers hold: every constant is taken from its own register.
    pub proof fn lemma_load_at_rest(
        bytes: spec_fn(Register) -> u8,
        words: spec_fn(Register) -> u16,
    )
        ensures
            Calibration::decode(replies_at_rest(Calibration::load_script(), bytes, words))
                == Calibration::held_by(bytes, words),
    {
    }

    /// Lists the reads that load the calibration.
    pub fn load_requests() -> (requests: Vec<Request>)
        ensures
            requests@ == Calibration::load_script(),
    {
        let requests: Vec<Request> = vec![
            Request::ReadByte { register: Register::H4 },
            Request::ReadByte { register: Register::H5 },
            Request::ReadByte { register: Register::H6 },
            Request::ReadByte { register: Register::H5 },
            Request::ReadWord { register: Register::T1 },
            Request::ReadWord { register: Register::T2 },
            Request::ReadWord { register: Register::T3 },
            Request::ReadWord { register: Register::P1 },
            Request::ReadWord { register: Register::P2 },
            Request::ReadWord { register: Register::P3 },
            Request::ReadWord { register: Register::P4 },
            Request::ReadWord { register: Register::P5 },
            Request::ReadWord { register: Register::P6 },
            Request::ReadWord { register: Register::P7 },
            Request::ReadWord { register: Register::P8 },
            Request::ReadWord { register: Register::P9 },
            Request::ReadByte { register: Register::H1 },
            Request::ReadWord { register: Register::H2 },
            Request::ReadByte { register: Register::H3 },
            Request::ReadByte { register: Register::H7 },
        ];
        assert(requests@ =~= Calibration::load_script());
        requests
    }

    /// Builds the calibration from the replies to the load requests.
    ///
    /// Succeeds exactly when `replies` is a complete run of the load script.
    pub fn from_replies(replies: &[Reply]) -> (loaded: Option<Calibration>)
        ensures
            loaded is Some <==> complete_run(Calibration::load_script(), replies@),
            loaded matches Some(calibration) ==> {
                &&& calibration == Calibration::decode(replies@)
                &&& calibration.well_formed()
            },
    {
        let script: Vec<Request> = Calibration::load_requests();
        if !is_complete_run(script.as_slice(), replies) {
            return None;
        }
        let h4: i32 = unpack_low_nibble(byte_of(&replies[0]), byte_of(&replies[1]));
        let h5: i32 = unpack_high_nibble(byte_of(&replies[2]), byte_of(&replies[3]));
        Some(
            Calibration {
                t1: word_of(&replies[4]),
                t2: word_as_signed(word_of(&replies[5])),
                t3: word_as_signed(word_of(&replies[6])),
                p1: word_of(&replies[7]),
                p2: word_as_signed(word_of(&replies[8])),
                p3: word_as_signed(word_of(&replies[9])),
                p4: word_as_signed(word_of(&replies[10])),
                p5: word_as_signed(word_of(&replies[11])),
                p6: word_as_signed(word_of(&replies[12])),
                p7: word_as_signed(word_of(&replies[13])),
                p8: word_as_signed(word_of(&replies[14])),
                p9: word_as_signed(word_of(&replies[15])),
                h1: byte_of(&replies[16]),
                h2: word_as_signed(word_of(&replies[17])),
                h3: byte_of(&replies[18]),
                h4,
                h5,
                h6: byte_as_signed(byte_of(&replies[19])),
            },
        )
    }
}

} // verus!
