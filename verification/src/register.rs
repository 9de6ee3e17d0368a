//! The sensor's register map.

use vstd::prelude::*;

verus! {

/// The named registers of the sensor.
///
/// `T1` to `P9` and `H2` are sixteen-bit calibration words, the other `H`
/// registers are calibration bytes. The data registers come in runs of
/// consecutive addresses, most significant byte first.
#[derive(Debug, Clone, Copy, PartialEq, Eq, Structural)]
pub enum Register {
    T1,
    T2,
    T3,
    P1,
    P2,
    P3,
    P4,
    P5,
    P6,
    P7,
    P8,
    P9,
    H1,
    H2,
    H3,
    H4,
    H5,
    H6,
    H7,
    ChipId,
    Version,
    SoftReset,
    ControlHum,
    Control,
    Config,
    PressureData,
    PressureData1,
    PressureData2,
    TemperatureData,
    TemperatureData1,
    TemperatureData2,
    HumidityData,
    HumidityData1,
}

impl Register {
    /// The bus address of the register, as the datasheet fixes it.
    pub open spec fn spec_addr(self) -> u8 {
        match self {
            Register::T1 => 0x88,
            Register::T2 => 0x8A,
            Register::T3 => 0x8C,
            Register::P1 => 0x8E,
            Register::P2 => 0x90,
            Register::P3 => 0x92,
            Register::P4 => 0x94,
            Register::P5 => 0x96,
            Register::P6 => 0x98,
            Register::P7 => 0x9A,
            Register::P8 => 0x9C,
            Register::P9 => 0x9E,
            Register::H1 => 0xA1,
            Register::H2 => 0xE1,
            Register::H3 => 0xE3,
            Register::H4 => 0xE4,
            Register::H5 => 0xE5,
            Register::H6 => 0xE6,
            Register::H7 => 0xE7,
            Register::ChipId => 0xD0,
            Register::Version => 0xD1,
            Register::SoftReset => 0xE0,
            Register::ControlHum => 0xF2,
            Register::Control => 0xF4,
            Register::Config => 0xF5,
            Register::PressureData => 0xF7,
            Register::PressureData1 => 0xF8,
            Register::PressureData2 => 0xF9,
            Register::TemperatureData => 0xFA,
            Register::TemperatureData1 => 0xFB,
            Register::TemperatureData2 => 0xFC,
            Register::HumidityData => 0xFD,
            Register::HumidityData1 => 0xFE,
        }
    }

    /// The bus address of the register.
    #[verifier::when_used_as_spec(spec_addr)]
    pub fn addr(self) -> (a: u8)
        ensures
            a == self.spec_addr(),
    {
        match self {
            Register::T1 => 0x88,
            Register::T2 => 0x8A,
            Register::T3 => 0x8C,
            Register::P1 => 0x8E,
            Register::P2 => 0x90,
            Register::P3 => 0x92,
            Register::P4 => 0x94,
            Register::P5 => 0x96,
            Register::P6 => 0x98,
            Register::P7 => 0x9A,
            Register::P8 => 0x9C,
            Register::P9 => 0x9E,
            Register::H1 => 0xA1,
            Register::H2 => 0xE1,
            Register::H3 => 0xE3,
            Register::H4 => 0xE4,
            Register::H5 => 0xE5,
            Register::H6 => 0xE6,
            Register::H7 => 0xE7,
            Register::ChipId => 0xD0,
            Register::Version => 0xD1,
            Register::SoftReset => 0xE0,
            Register::ControlHum => 0xF2,
            Register::Control => 0xF4,
            Register::Config => 0xF5,
            Register::PressureData => 0xF7,
            Register::PressureData1 => 0xF7 + 1,
            Register::PressureData2 => 0xF7 + 2,
            Register::TemperatureData => 0xFA,
            Register::TemperatureData1 => 0xFA + 1,
            Register::TemperatureData2 => 0xFA + 2,
            Register::HumidityData => 0xFD,
            Register::HumidityData1 => 0xFD + 1,
        }
    }
    /// The name of the register, as it is written in this enumeration.
    pub open spec fn spec_name(self) -> Seq<char> {
        match self {
            Register::T1 => "T1"@,
            Register::T2 => "T2"@,
            Register::T3 => "T3"@,
            Register::P1 => "P1"@,
            Register::P2 => "P2"@,
            Register::P3 => "P3"@,
            Register::P4 => "P4"@,
            Register::P5 => "P5"@,
            Register::P6 => "P6"@,
            Register::P7 => "P7"@,
            Register::P8 => "P8"@,
            Register::P9 => "P9"@,
            Register::H1 => "H1"@,
            Register::H2 => "H2"@,
            Register::H3 => "H3"@,
            Register::H4 => "H4"@,
            Register::H5 => "H5"@,
            Register::H6 => "H6"@,
            Register::H7 => "H7"@,
            Register::ChipId => "ChipId"@,
            Register::Version => "Version"@,
            Register::SoftReset => "SoftReset"@,
            Register::ControlHum => "ControlHum"@,
            Register::Control => "Control"@,
            Register::Config => "Config"@,
            Register::PressureData => "PressureData"@,
            Register::PressureData1 => "PressureData1"@,
            Register::PressureData2 => "PressureData2"@,
            Register::TemperatureData => "TemperatureData"@,
            Register::TemperatureData1 => "TemperatureData1"@,
            Register::TemperatureData2 => "TemperatureData2"@,
            Register::HumidityData => "HumidityData"@,
            Register::HumidityData1 => "HumidityData1"@,
        }
    }

    /// The name of the register.
    pub fn name(&self) -> (name: &'static str)
        ensures
            name@ == self.spec_name(),
    {
        match self {
            Register::T1 => "T1",
            Register::T2 => "T2",
            Register::T3 => "T3",
            Register::P1 => "P1",
            Register::P2 => "P2",
            Register::P3 => "P3",
            Register::P4 => "P4",
            Register::P5 => "P5",
            Register::P6 => "P6",
            Register::P7 => "P7",
            Register::P8 => "P8",
            Register::P9 => "P9",
            Register::H1 => "H1",
            Register::H2 => "H2",
            Register::H3 => "H3",
            Register::H4 => "H4",
            Register::H5 => "H5",
            Register::H6 => "H6",
            Register::H7 => "H7",
            Register::ChipId => "ChipId",
            Register::Version => "Version",
            Register::SoftReset => "SoftReset",
            Register::ControlHum => "ControlHum",
            Register::Control => "Control",
            Register::Config => "Config",
            Register::PressureData => "PressureData",
            Register::PressureData1 => "PressureData1",
            Register::PressureData2 => "PressureData2",
            Register::TemperatureData => "TemperatureData",
            Register::TemperatureData1 => "TemperatureData1",
            Register::TemperatureData2 => "TemperatureData2",
            Register::HumidityData => "HumidityData",
            Register::HumidityData1 => "HumidityData1",
        }
    }

    /// The name of the register as an owned string.
    pub fn to_string(&self) -> (name: String)
        ensures
            name@ == self.spec_name(),
    {
        self.name().to_owned()
    }
}

/// No two registers share an address.
pub proof fn lemma_addresses_distinct(first: Register, second: Register)
    requires
        first.spec_addr() == second.spec_addr(),
    ensures
        first == second,
{
}

} // verus!
