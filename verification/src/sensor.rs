//! The state of a sensor that is ready to measure.

use vstd::prelude::*;
use crate::bus::{byte_of, complete_run, is_complete_run, replies_at_rest, Reply, Request};
use crate::calibration::Calibration;
use crate::measurement::{
    control_byte, conversion_delay_millis, humidity_code, humidity_script,
    lemma_conversion_delay_of_field, pressure_code, pressure_script, raw_code_16, raw_code_20,
    spec_raw_code_20, temperature_code, temperature_script, MAX_MODE,
    MAX_OVERSAMPLING_AND_NORMAL_MODE, OVERSAMPLING_1, RAW_CODE_LIMIT,
};
use crate::register::Register;

verus! {

/// A sensor whose calibration has been loaded.
///
/// The calibration and the oversampling mode are fixed when the value is
/// made. Every measurement is a list of requests for the caller to perform
/// and a function that takes the raw codes out of the replies.
#[derive(Debug, Clone, Copy)]
pub struct Sensor {
    calibration: Calibration,
    mode: u8,
}

impl Sensor {
    #[verifier::type_invariant]
    spec fn settled(self) -> bool {
        &&& self.calibration.well_formed()
        &&& self.mode <= MAX_MODE
    }

    /// The calibration that was loaded at start-up.
    pub closed spec fn spec_calibration(self) -> Calibration {
        self.calibration
    }

    /// The oversampling mode that every conversion uses.
    pub closed spec fn spec_mode(self) -> u8 {
        self.mode
    }

    /// The steps that bring the sensor up: load the calibration, then select
    /// normal mode with the highest oversampling.
    pub open spec fn startup_script() -> Seq<Request> {
        Calibration::load_script().push(
            Request::WriteByte {
                register: Register::Control,
                value: MAX_OVERSAMPLING_AND_NORMAL_MODE,
            },
        )
    }

    /// Start-up on a device at rest runs to completion and loads the
    /// calibration that the registers of the device hold.
    pub proof fn lemma_startup_at_rest(
        bytes: spec_fn(Register) -> u8,
        words: spec_fn(Register) -> u16,
    )
        ensures
            complete_run(
                Sensor::startup_script(),
                replies_at_rest(Sensor::startup_script(), bytes, words),
            ),
            Calibration::decode(replies_at_rest(Sensor::startup_script(), bytes, words).take(20))
                == Calibration::held_by(bytes, words),
    {
    }

    /// Lists the steps that bring the sensor up.
    pub fn startup_requests() -> (requests: Vec<Request>)
        ensures
            requests@ == Sensor::startup_script(),
    {
        let mut requests: Vec<Request> = Calibration::load_requests();
        requests.push(
            Request::WriteByte {
                register: Register::Control,
                value: MAX_OVERSAMPLING_AND_NORMAL_MODE,
            },
        );
        requests
    }

    /// Makes the sensor from the replies to the start-up requests.
    ///
    /// Succeeds exactly when `replies` is a complete run of the start-up
    /// script. The mode is then single oversampling.
    pub fn from_startup_replies(replies: &[Reply]) -> (made: Option<Sensor>)
        ensures
            made is Some <==> complete_run(Sensor::startup_script(), replies@),
            made matches Some(sensor) ==> {
                &&& sensor.spec_calibration() == Calibration::decode(replies@.take(20))
                &&& sensor.spec_calibration().well_formed()
                &&& sensor.spec_mode() == OVERSAMPLING_1
            },
    {
        let script: Vec<Request> = Sensor::startup_requests();
        if !is_complete_run(script.as_slice(), replies) {
            return None;
        }
        let head: &[Reply] = vstd::slice::slice_subrange(replies, 0, 20);
        proof {
            let load = Calibration::load_script();
            assert(head@ == replies@.take(20));
            assert forall|i: int| 0 <= i < load.len() implies (#[trigger] load[i]).answered_by(
                head@[i],
            ) by {
                assert(script@[i] == load[i]);
                assert(script@[i].answered_by(replies@[i]));
            }
        }
        let loaded: Option<Calibration> = Calibration::from_replies(head);
        match loaded {
            Some(calibration) => Some(Sensor { calibration, mode: OVERSAMPLING_1 }),
            None => None,
        }
    }

    /// The calibration that was loaded at start-up.
    pub fn calibration(&self) -> (calibration: &Calibration)
        ensures
            *calibration == self.spec_calibration(),
            calibration.well_formed(),
    {
        proof {
            use_type_invariant(self);
        }
        &self.calibration
    }

    /// The oversampling mode that every conversion uses.
    pub fn mode(&self) -> (mode: u8)
        ensures
            mode == self.spec_mode(),
            mode <= MAX_MODE,
    {
        proof {
            use_type_invariant(self);
        }
        self.mode
    }

    /// Lists the steps of one temperature acquisition.
    pub fn temperature_requests(&self) -> (requests: Vec<Request>)
        ensures
            requests@ == temperature_script(self.spec_mode()),
    {
        let mode: u8 = self.mode();
        proof {
            lemma_conversion_delay_of_field(mode);
        }
        let requests: Vec<Request> = vec![
            Request::WriteByte { register: Register::ControlHum, value: mode },
            Request::WriteByte { register: Register::Control, value: control_byte(mode) },
            Request::Wait { millis: conversion_delay_millis(mode) },
            Request::ReadByte { register: Register::TemperatureData },
            Request::ReadByte { register: Register::TemperatureData1 },
            Request::ReadByte { register: Register::TemperatureData2 },
        ];
        assert(requests@ =~= temperature_script(self.spec_mode()));
        requests
    }

    /// Lists the steps of one pressure acquisition.
    pub fn pressure_requests(&self) -> (requests: Vec<Request>)
        ensures
            requests@ == pressure_script(self.spec_mode()),
    {
        let mut requests: Vec<Request> = self.temperature_requests();
        requests.push(Request::ReadByte { register: Register::PressureData });
        requests.push(Request::ReadByte { register: Register::PressureData1 });
        requests.push(Request::ReadByte { register: Register::PressureData2 });
        assert(requests@ =~= pressure_script(self.spec_mode()));
        requests
    }

    /// Lists the steps of one humidity acquisition.
    pub fn humidity_requests(&self) -> (requests: Vec<Request>)
        ensures
            requests@ == humidity_script(self.spec_mode()),
    {
        let mut requests: Vec<Request> = self.temperature_requests();
        requests.push(Request::ReadByte { register: Register::HumidityData });
        requests.push(Request::ReadByte { register: Register::HumidityData1 });
        assert(requests@ =~= humidity_script(self.spec_mode()));
        requests
    }

    /// Takes the raw temperature code out of the replies to the temperature
    /// requests.
    ///
    /// Succeeds exactly when `replies` is a complete run of the temperature
    /// script.
    pub fn raw_temperature(&self, replies: &[Reply]) -> (raw: Option<u32>)
        ensures
            raw is Some <==> complete_run(temperature_script(self.spec_mode()), replies@),
            raw matches Some(code) ==> {
                &&& code == temperature_code(replies@)
                &&& code < RAW_CODE_LIMIT
            },
    {
        let script: Vec<Request> = self.temperature_requests();
        if !is_complete_run(script.as_slice(), replies) {
            return None;
        }
        Some(code_at(script.as_slice(), replies, 3))
    }

    /// Takes the raw pressure code and the raw temperature code, in this
    /// order, out of the replies to the pressure requests.
    ///
    /// Succeeds exactly when `replies` is a complete run of the pressure
    /// script.
    pub fn raw_pressure(&self, replies: &[Reply]) -> (raw: Option<(u32, u32)>)
        ensures
            raw is Some <==> complete_run(pressure_script(self.spec_mode()), replies@),
            raw matches Some(codes) ==> {
                &&& codes.0 == pressure_code(replies@)
                &&& codes.0 < RAW_CODE_LIMIT
                &&& codes.1 == temperature_code(replies@)
                &&& codes.1 < RAW_CODE_LIMIT
            },
    {
        let script: Vec<Request> = self.pressure_requests();
        if !is_complete_run(script.as_slice(), replies) {
            return None;
        }
        let temperature: u32 = code_at(script.as_slice(), replies, 3);
        let pressure: u32 = code_at(script.as_slice(), replies, 6);
        Some((pressure, temperature))
    }

    /// Takes the raw humidity code and the raw temperature code, in this
    /// order, out of the replies to the humidity requests.
    ///
    /// Succeeds exactly when `replies` is a complete run of the humidity
    /// script.
    pub fn raw_humidity(&self, replies: &[Reply]) -> (raw: Option<(u16, u32)>)
        ensures
            raw is Some <==> complete_run(humidity_script(self.spec_mode()), replies@),
            raw matches Some(codes) ==> {
                &&& codes.0 == humidity_code(replies@)
                &&& codes.1 == temperature_code(replies@)
                &&& codes.1 < RAW_CODE_LIMIT
            },
    {
        let script: Vec<Request> = self.humidity_requests();
        if !is_complete_run(script.as_slice(), replies) {
            return None;
        }
        let temperature: u32 = code_at(script.as_slice(), replies, 3);
        assert(script@[6].answered_by(replies@[6]));
        assert(script@[7].answered_by(replies@[7]));
        let humidity: u16 = raw_code_16(byte_of(&replies[6]), byte_of(&replies[7]));
        Some((humidity, temperature))
    }
}

/// The twenty-bit code in the replies to the three byte reads that begin at
/// position `start` of `script`.
fn code_at(script: &[Request], replies: &[Reply], start: usize) -> (code: u32)
    requires
        complete_run(script@, replies@),
        start + 3 <= script.len(),
        script@[start as int] is ReadByte,
        script@[start + 1] is ReadByte,
        script@[start + 2] is ReadByte,
    ensures
        code == spec_raw_code_20(
            replies@[start as int].byte(),
            replies@[start + 1].byte(),
            replies@[start + 2].byte(),
        ),
        code < RAW_CODE_LIMIT,
{
    assert(script@[start as int].answered_by(replies@[start as int]));
    assert(script@[start + 1].answered_by(replies@[start + 1]));
    assert(script@[start + 2].answered_by(replies@[start + 2]));
    raw_code_20(
        byte_of(&replies[start]),
        byte_of(&replies[start + 1]),
        byte_of(&replies[start + 2]),
    )
}

} // verus!
