//! Raw converter codes and the timing of a conversion.

use vstd::prelude::*;
use vstd::arithmetic::power2::{
    lemma2_to64, lemma2_to64_rest, lemma_pow2_strictly_increases, pow2,
};
use vstd::bits::lemma_u64_shl_is_mul;
use crate::bus::{replies_at_rest, Reply, Request};
use crate::register::Register;

verus! {

/// Oversampling setting: one sample per conversion.
pub const OVERSAMPLING_1: u8 = 1;

/// Oversampling setting: two samples per conversion.
pub const OVERSAMPLING_2: u8 = 2;

/// Oversampling setting: four samples per conversion.
pub const OVERSAMPLING_4: u8 = 3;

/// Oversampling setting: eight samples per conversion.
pub const OVERSAMPLING_8: u8 = 4;

/// Oversampling setting: sixteen samples per conversion.
pub const OVERSAMPLING_16: u8 = 5;

/// The largest value that an oversampling field of the control registers
/// holds: the fields are three bits wide.
pub const MAX_MODE: u8 = 7;

/// The control byte that is written once at start-up: normal mode at
/// maximum oversampling.
pub const MAX_OVERSAMPLING_AND_NORMAL_MODE: u8 = 0x3F;

/// The number of raw temperature and pressure codes: they are twenty bits
/// wide.
pub const RAW_CODE_LIMIT: u32 = 0x10_0000;

/// The twenty-bit code held by three data bytes, most significant first:
/// the twenty-four bits they form, without the lowest four.
pub open spec fn spec_raw_code_20(msb: u8, lsb: u8, xlsb: u8) -> int {
    (msb * 0x1_0000 + lsb * 0x100 + xlsb) / 16
}

/// The sixteen-bit code held by two data bytes, most significant first.
pub open spec fn spec_raw_code_16(msb: u8, lsb: u8) -> int {
    msb * 0x100 + lsb
}

/// Assembles the raw temperature or pressure code from its three data
/// bytes.
pub fn raw_code_20(msb: u8, lsb: u8, xlsb: u8) -> (code: u32)
    ensures
        code == spec_raw_code_20(msb, lsb, xlsb),
        code < RAW_CODE_LIMIT,
{
    let code: u32 = (((msb as u32) << 16) | ((lsb as u32) << 8) | (xlsb as u32)) >> 4;
    assert(code == (msb * 0x1_0000 + lsb * 0x100 + xlsb) / 16 && code < 0x10_0000u32)
        by (bit_vector)
        requires
            code == (((msb as u32) << 16) | ((lsb as u32) << 8) | (xlsb as u32)) >> 4,
    ;
    code
}

/// Assembles the raw humidity code from its two data bytes.
pub fn raw_code_16(msb: u8, lsb: u8) -> (code: u16)
    ensures
        code == spec_raw_code_16(msb, lsb),
{
    let code: u16 = ((msb as u16) << 8) | (lsb as u16);
    assert(code == msb * 0x100 + lsb) by (bit_vector)
        requires
            code == ((msb as u16) << 8) | (lsb as u16),
    ;
    code
}

/// The measurement-control byte for `mode`: the mode in the temperature
/// oversampling field (bits 7 to 5) and in the pressure oversampling field
/// (bits 4 to 2), and the forced-run bit (bit 0).
pub open spec fn spec_control_byte(mode: u8) -> u8 {
    mode << 5 | mode << 2 | 1
}

/// Computes the measurement-control byte for `mode`.
///
/// A mode that fits its three-bit field appears unchanged in both fields; of
/// a larger one the bits that do not fit spill over or are lost, as they are
/// on the wire.
pub fn control_byte(mode: u8) -> (byte: u8)
    ensures
        byte == spec_control_byte(mode),
        mode <= MAX_MODE ==> byte == 32 * mode + 4 * mode + 1,
{
    let byte: u8 = mode << 5 | mode << 2 | 1;
    assert(mode <= 7 ==> byte == 32 * mode + 4 * mode + 1) by (bit_vector)
        requires
            byte == mode << 5 | mode << 2 | 1,
    ;
    byte
}

/// The longest time that one conversion takes, in microseconds: 1.25 ms to
/// start, 2.3 ms times two to the power `mode` for each of the three
/// channels, and 0.575 ms to settle after each of two of them.
pub open spec fn spec_conversion_delay_micros(mode: u8) -> nat {
    1250 + 3 * (2300 * pow2(mode as nat)) + 2 * 575
}

/// The conversion delay in whole milliseconds, rounded up.
pub open spec fn spec_conversion_delay_millis(mode: u8) -> nat {
    (spec_conversion_delay_micros(mode) + 999) / 1000
}

/// Computes how long to wait after starting a conversion before the data
/// registers are valid, in milliseconds.
///
/// The result is the least whole number of milliseconds that is no shorter
/// than the conversion. The conversion time in microseconds has to fit in
/// 64 bits, as it does for every mode that fits its three-bit field.
pub fn conversion_delay_millis(mode: u8) -> (millis: u64)
    requires
        spec_conversion_delay_micros(mode) <= u64::MAX,
    ensures
        millis == spec_conversion_delay_millis(mode),
        millis * 1000 >= spec_conversion_delay_micros(mode),
        (millis - 1) * 1000 < spec_conversion_delay_micros(mode),
{
    proof {
        lemma2_to64_rest();
        if mode >= 64 {
            lemma_pow2_strictly_increases(63, mode as nat);
        }
        lemma_u64_shl_is_mul(1, mode as u64);
    }
    let samples: u64 = 1u64 << mode;
    let stage: u64 = 2300 * samples;
    let micros: u64 = 1250 + 3 * stage + 2 * 575;
    (micros - 1) / 1000 + 1
}

/// For a mode that fits its three-bit field the conversion takes less than
/// a second.
pub proof fn lemma_conversion_delay_of_field(mode: u8)
    requires
        mode <= MAX_MODE,
    ensures
        spec_conversion_delay_micros(mode) <= 885_600,
        spec_conversion_delay_millis(mode) <= 886,
{
    lemma2_to64();
}

/// The steps of one temperature acquisition: set the humidity oversampling,
/// start a forced conversion with the same oversampling for temperature and
/// pressure, wait until the conversion is over, then read the three
/// temperature data registers.
pub open spec fn temperature_script(mode: u8) -> Seq<Request> {
    seq![
        Request::WriteByte { register: Register::ControlHum, value: mode },
        Request::WriteByte { register: Register::Control, value: spec_control_byte(mode) },
        Request::Wait { millis: spec_conversion_delay_millis(mode) as u64 },
        Request::ReadByte { register: Register::TemperatureData },
        Request::ReadByte { register: Register::TemperatureData1 },
        Request::ReadByte { register: Register::TemperatureData2 },
    ]
}

/// The steps of one pressure acquisition: acquire the temperature, which
/// the compensation needs, then read the three pressure data registers of
/// the same conversion.
pub open spec fn pressure_script(mode: u8) -> Seq<Request> {
    temperature_script(mode) + seq![
        Request::ReadByte { register: Register::PressureData },
        Request::ReadByte { register: Register::PressureData1 },
        Request::ReadByte { register: Register::PressureData2 },
    ]
}

/// The steps of one humidity acquisition: acquire the temperature, which
/// the compensation needs, then read the two humidity data registers of the
/// same conversion.
pub open spec fn humidity_script(mode: u8) -> Seq<Request> {
    temperature_script(mode) + seq![
        Request::ReadByte { register: Register::HumidityData },
        Request::ReadByte { register: Register::HumidityData1 },
    ]
}

/// Whether `script` follows the order that a conversion imposes: it writes
/// its configuration, waits once, and reads data only after the wait.
pub open spec fn writes_waits_reads(script: Seq<Request>) -> bool {
    exists|wait: int|
        {
            &&& 0 <= wait < script.len()
            &&& #[trigger] script[wait] is Wait
            &&& forall|i: int| 0 <= i < wait ==> #[trigger] script[i] is WriteByte
            &&& forall|i: int| wait < i < script.len() ==> #[trigger] script[i] is ReadByte
        }
}

/// Every acquisition writes its configuration, then waits for the
/// conversion, and reads data registers only after that.
pub proof fn lemma_acquisitions_wait_before_reading(mode: u8)
    ensures
        writes_waits_reads(temperature_script(mode)),
        writes_waits_reads(pressure_script(mode)),
        writes_waits_reads(humidity_script(mode)),
{
    assert(temperature_script(mode)[2] is Wait);
    assert(pressure_script(mode)[2] is Wait);
    assert(humidity_script(mode)[2] is Wait);
}

/// The raw temperature code in a run of any of the three scripts: the code
/// in the replies to the three reads that follow the wait.
pub open spec fn temperature_code(replies: Seq<Reply>) -> int {
    spec_raw_code_20(replies[3].byte(), replies[4].byte(), replies[5].byte())
}

/// The raw pressure code in a run of the pressure script: the code in the
/// replies to its last three reads.
pub open spec fn pressure_code(replies: Seq<Reply>) -> int {
    spec_raw_code_20(replies[6].byte(), replies[7].byte(), replies[8].byte())
}

/// The raw humidity code in a run of the humidity script: the code in the
/// replies to its last two reads.
pub open spec fn humidity_code(replies: Seq<Reply>) -> int {
    spec_raw_code_16(replies[6].byte(), replies[7].byte())
}

/// The twenty-bit code that three consecutive data registers of a device at
/// rest hold.
pub open spec fn code_held_by(
    bytes: spec_fn(Register) -> u8,
    msb: Register,
    lsb: Register,
    xlsb: Register,
) -> int {
    spec_raw_code_20(bytes(msb), bytes(lsb), bytes(xlsb))
}

/// Every acquisition from a device at rest yields the codes that its data
/// registers hold, whatever the mode.
pub proof fn lemma_acquire_at_rest(
    mode: u8,
    bytes: spec_fn(Register) -> u8,
    words: spec_fn(Register) -> u16,
)
    ensures
        ({
            let temperature = code_held_by(
                bytes,
                Register::TemperatureData,
                Register::TemperatureData1,
                Register::TemperatureData2,
            );
            let pressure = code_held_by(
                bytes,
                Register::PressureData,
                Register::PressureData1,
                Register::PressureData2,
            );
            let humidity = spec_raw_code_16(
                bytes(Register::HumidityData),
                bytes(Register::HumidityData1),
            );
            let temperature_run = replies_at_rest(temperature_script(mode), bytes, words);
            let pressure_run = replies_at_rest(pressure_script(mode), bytes, words);
            let humidity_run = replies_at_rest(humidity_script(mode), bytes, words);
            &&& temperature_code(temperature_run) == temperature
            &&& temperature_code(pressure_run) == temperature
            &&& pressure_code(pressure_run) == pressure
            &&& temperature_code(humidity_run) == temperature
            &&& humidity_code(humidity_run) == humidity
        }),
{
}

} // verus!
