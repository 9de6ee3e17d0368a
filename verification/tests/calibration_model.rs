use bme280::bus::{Reply, Request};
use bme280::calibration::{
    byte_as_signed, pack_pair, unpack_high_nibble, unpack_low_nibble, word_as_signed, Calibration,
};
use bme280::register::Register;

/// Replies of a device to the load requests, in the order of the requests.
fn load_replies() -> Vec<Reply> {
    vec![
        Reply::Byte(0x14),
        Reply::Byte(0x25),
        Reply::Byte(0x03),
        Reply::Byte(0x25),
        Reply::Word(28960),
        Reply::Word(26619),
        Reply::Word(50),
        Reply::Word(34988),
        Reply::Word(54823),
        Reply::Word(3024),
        Reply::Word(5831),
        Reply::Word(96),
        Reply::Word(65529),
        Reply::Word(9900),
        Reply::Word(55306),
        Reply::Word(4285),
        Reply::Byte(75),
        Reply::Word(355),
        Reply::Byte(0),
        Reply::Byte(0xE2),
    ]
}

#[test]
fn a_byte_is_read_as_twos_complement() {
    assert_eq!(byte_as_signed(0), 0);
    assert_eq!(byte_as_signed(30), 30);
    assert_eq!(byte_as_signed(0x7F), 127);
    assert_eq!(byte_as_signed(0x80), -128);
    assert_eq!(byte_as_signed(0xE2), -30);
    assert_eq!(byte_as_signed(0xFF), -1);
}

#[test]
fn a_word_is_read_as_twos_complement() {
    assert_eq!(word_as_signed(0), 0);
    assert_eq!(word_as_signed(26619), 26619);
    assert_eq!(word_as_signed(0x7FFF), 32767);
    assert_eq!(word_as_signed(0x8000), -32768);
    assert_eq!(word_as_signed(54823), -10713);
    assert_eq!(word_as_signed(65529), -7);
    assert_eq!(word_as_signed(55306), -10230);
    assert_eq!(word_as_signed(0xFFFF), -1);
}

#[test]
fn a_constant_takes_its_low_bits_from_the_low_nibble() {
    assert_eq!(unpack_low_nibble(21, 0), 336);
    assert_eq!(unpack_low_nibble(0x14, 0x25), 0x145);
    assert_eq!(unpack_low_nibble(0x14, 0xF5), 0x145);
    assert_eq!(unpack_low_nibble(0, 0x0F), 15);
    assert_eq!(unpack_low_nibble(0, 0xF0), 0);
}

#[test]
fn a_constant_takes_its_low_bits_from_the_high_nibble() {
    assert_eq!(unpack_high_nibble(0x03, 0x25), 0x032);
    assert_eq!(unpack_high_nibble(0x03, 0x2F), 0x032);
    assert_eq!(unpack_high_nibble(0, 0xF0), 15);
    assert_eq!(unpack_high_nibble(0, 0x0F), 0);
}

#[test]
fn the_upper_byte_carries_the_sign() {
    assert_eq!(unpack_low_nibble(0x7F, 0x0F), 2047);
    assert_eq!(unpack_low_nibble(0x80, 0x00), -2048);
    assert_eq!(unpack_low_nibble(0xFF, 0x0F), -1);
    assert_eq!(unpack_low_nibble(0xFF, 0x00), -16);
    assert_eq!(unpack_high_nibble(0x7F, 0xF0), 2047);
    assert_eq!(unpack_high_nibble(0x80, 0x00), -2048);
    assert_eq!(unpack_high_nibble(0xFF, 0xF0), -1);
    assert_eq!(unpack_high_nibble(0xEC, 0x10), -319);
}

#[test]
fn packing_puts_both_low_nibbles_into_the_shared_register() {
    assert_eq!(pack_pair(0x145, 0x032), (0x14, 0x25, 0x03));
    assert_eq!(pack_pair(336, 0), (21, 0, 0));
    assert_eq!(pack_pair(-1, 0), (0xFF, 0x0F, 0x00));
    assert_eq!(pack_pair(0, -1), (0x00, 0xF0, 0xFF));
    assert_eq!(pack_pair(-2048, 2047), (0x80, 0xF0, 0x7F));
    assert_eq!(pack_pair(2047, -2048), (0x7F, 0x0F, 0x80));
}

#[test]
fn every_twelve_bit_value_survives_packing_and_unpacking() {
    let partners: [i32; 7] = [-2048, -1365, -1, 0, 1, 1365, 2047];
    for value in -2048..=2047 {
        for partner in partners {
            let (high_first, shared, high_second) = pack_pair(value, partner);
            assert_eq!(unpack_low_nibble(high_first, shared), value);
            assert_eq!(unpack_high_nibble(high_second, shared), partner);

            let (high_first, shared, high_second) = pack_pair(partner, value);
            assert_eq!(unpack_low_nibble(high_first, shared), partner);
            assert_eq!(unpack_high_nibble(high_second, shared), value);
        }
    }
}

#[test]
fn every_register_content_survives_unpacking_and_packing() {
    for high_first in 0..=255u8 {
        for shared in 0..=255u8 {
            for high_second in [0x00u8, 0x03, 0x7F, 0x80, 0xEC, 0xFF] {
                let first = unpack_low_nibble(high_first, shared);
                let second = unpack_high_nibble(high_second, shared);
                assert!((-2048..=2047).contains(&first));
                assert!((-2048..=2047).contains(&second));
                assert_eq!(pack_pair(first, second), (high_first, shared, high_second));
            }
        }
    }
}

#[test]
fn the_calibration_is_loaded_by_thirteen_word_reads_and_seven_byte_reads() {
    let requests = Calibration::load_requests();
    let words = requests
        .iter()
        .filter(|request| matches!(request, Request::ReadWord { .. }))
        .count();
    let bytes = requests
        .iter()
        .filter(|request| matches!(request, Request::ReadByte { .. }))
        .count();
    assert_eq!(requests.len(), 20);
    assert_eq!(words, 13);
    assert_eq!(bytes, 7);
}

#[test]
fn the_load_requests_come_in_a_fixed_order() {
    let expected = vec![
        Request::ReadByte { register: Register::H4 },
        Request::ReadByte { register: Register::H5 },
        Request::ReadByte { register: Register::H6 },
        Request::ReadByte { register: Register::H5 },
        Request::ReadWord { register: Register::T1 },
        Request::ReadWord { register: Register::T2 },
        Request::ReadWord { register: Register::T3 },
        Request::ReadWord { register: Register::P1 },
        Request::ReadWord { register: Register::P2 },
        Request::ReadWord { register: Register::P3 },
        Request::ReadWord { register: Register::P4 },
        Request::ReadWord { register: Register::P5 },
        Request::ReadWord { register: Register::P6 },
        Request::ReadWord { register: Register::P7 },
        Request::ReadWord { register: Register::P8 },
        Request::ReadWord { register: Register::P9 },
        Request::ReadByte { register: Register::H1 },
        Request::ReadWord { register: Register::H2 },
        Request::ReadByte { register: Register::H3 },
        Request::ReadByte { register: Register::H7 },
    ];
    assert_eq!(Calibration::load_requests(), expected);
}

#[test]
fn the_shared_register_is_read_once_for_each_nibble() {
    let reads_of_shared = Calibration::load_requests()
        .iter()
        .filter(|request| **request == Request::ReadByte { register: Register::H5 })
        .count();
    assert_eq!(reads_of_shared, 2);
}

#[test]
fn replies_to_the_load_requests_give_the_calibration() {
    let loaded = Calibration::from_replies(&load_replies());
    let expected = Calibration {
        t1: 28960,
        t2: 26619,
        t3: 50,
        p1: 34988,
        p2: -10713,
        p3: 3024,
        p4: 5831,
        p5: 96,
        p6: -7,
        p7: 9900,
        p8: -10230,
        p9: 4285,
        h1: 75,
        h2: 355,
        h3: 0,
        h4: 0x145,
        h5: 0x032,
        h6: -30,
    };
    assert_eq!(loaded, Some(expected));
}

#[test]
fn each_nibble_comes_from_its_own_read_of_the_shared_register() {
    let mut replies = load_replies();
    replies[1] = Reply::Byte(0x0A);
    replies[3] = Reply::Byte(0xB0);
    let loaded = Calibration::from_replies(&replies).unwrap();
    assert_eq!(loaded.h4, 0x14A);
    assert_eq!(loaded.h5, 0x03B);
}

#[test]
fn an_incomplete_run_gives_no_calibration() {
    let replies = load_replies();
    assert_eq!(Calibration::from_replies(&[]), None);
    for length in 0..replies.len() {
        assert_eq!(Calibration::from_replies(&replies[..length]), None);
    }
}

#[test]
fn a_run_with_a_reply_too_many_gives_no_calibration() {
    let mut replies = load_replies();
    replies.push(Reply::Done);
    assert_eq!(Calibration::from_replies(&replies), None);
}

#[test]
fn a_reply_of_the_wrong_kind_gives_no_calibration() {
    for position in 0..20 {
        let mut replies = load_replies();
        replies[position] = match replies[position] {
            Reply::Byte(byte) => Reply::Word(u16::from(byte)),
            Reply::Word(_) => Reply::Byte(0),
            Reply::Done => Reply::Byte(0),
        };
        assert_eq!(Calibration::from_replies(&replies), None, "position {}", position);

        let mut replies = load_replies();
        replies[position] = Reply::Done;
        assert_eq!(Calibration::from_replies(&replies), None, "position {}", position);
    }
}
