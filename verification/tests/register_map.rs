use bme280::register::Register;

const ALL: [Register; 33] = [
    Register::T1,
    Register::T2,
    Register::T3,
    Register::P1,
    Register::P2,
    Register::P3,
    Register::P4,
    Register::P5,
    Register::P6,
    Register::P7,
    Register::P8,
    Register::P9,
    Register::H1,
    Register::H2,
    Register::H3,
    Register::H4,
    Register::H5,
    Register::H6,
    Register::H7,
    Register::ChipId,
    Register::Version,
    Register::SoftReset,
    Register::ControlHum,
    Register::Control,
    Register::Config,
    Register::PressureData,
    Register::PressureData1,
    Register::PressureData2,
    Register::TemperatureData,
    Register::TemperatureData1,
    Register::TemperatureData2,
    Register::HumidityData,
    Register::HumidityData1,
];

#[test]
fn calibration_words_sit_at_their_datasheet_addresses() {
    assert_eq!(Register::T1.addr(), 0x88);
    assert_eq!(Register::T2.addr(), 0x8A);
    assert_eq!(Register::T3.addr(), 0x8C);
    assert_eq!(Register::P1.addr(), 0x8E);
    assert_eq!(Register::P2.addr(), 0x90);
    assert_eq!(Register::P3.addr(), 0x92);
    assert_eq!(Register::P4.addr(), 0x94);
    assert_eq!(Register::P5.addr(), 0x96);
    assert_eq!(Register::P6.addr(), 0x98);
    assert_eq!(Register::P7.addr(), 0x9A);
    assert_eq!(Register::P8.addr(), 0x9C);
    assert_eq!(Register::P9.addr(), 0x9E);
}

#[test]
fn humidity_calibration_sits_at_its_datasheet_addresses() {
    assert_eq!(Register::H1.addr(), 0xA1);
    assert_eq!(Register::H2.addr(), 0xE1);
    assert_eq!(Register::H3.addr(), 0xE3);
    assert_eq!(Register::H4.addr(), 0xE4);
    assert_eq!(Register::H5.addr(), 0xE5);
    assert_eq!(Register::H6.addr(), 0xE6);
    assert_eq!(Register::H7.addr(), 0xE7);
}

#[test]
fn identification_and_control_registers_sit_at_their_addresses() {
    assert_eq!(Register::ChipId.addr(), 0xD0);
    assert_eq!(Register::Version.addr(), 0xD1);
    assert_eq!(Register::SoftReset.addr(), 0xE0);
    assert_eq!(Register::ControlHum.addr(), 0xF2);
    assert_eq!(Register::Control.addr(), 0xF4);
    assert_eq!(Register::Config.addr(), 0xF5);
}

#[test]
fn data_registers_are_consecutive() {
    assert_eq!(Register::PressureData.addr(), 0xF7);
    assert_eq!(Register::PressureData1.addr(), 0xF7 + 1);
    assert_eq!(Register::PressureData2.addr(), 0xF7 + 2);
    assert_eq!(Register::TemperatureData.addr(), 0xFA);
    assert_eq!(Register::TemperatureData1.addr(), 0xFA + 1);
    assert_eq!(Register::TemperatureData2.addr(), 0xFA + 2);
    assert_eq!(Register::HumidityData.addr(), 0xFD);
    assert_eq!(Register::HumidityData1.addr(), 0xFD + 1);
}

#[test]
fn no_two_registers_share_an_address() {
    for (i, first) in ALL.iter().enumerate() {
        for second in ALL.iter().skip(i + 1) {
            assert_ne!(first.addr(), second.addr(), "{:?} and {:?}", first, second);
        }
    }
}

#[test]
fn a_register_prints_as_its_name() {
    assert_eq!(Register::T1.to_string(), "T1");
    assert_eq!(Register::ChipId.name(), "ChipId");
    assert_eq!(Register::HumidityData1.to_string(), "HumidityData1");
    for register in ALL.iter() {
        assert_eq!(register.to_string(), format!("{:?}", register));
        assert_eq!(register.name(), register.to_string());
    }
}
