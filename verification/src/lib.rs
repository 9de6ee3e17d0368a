//! Verified core of a driver for the Bosch BME280 temperature, pressure and
//! humidity sensor.
//!
//! The crate holds everything about the sensor that is integer logic: the
//! register map, the model of the factory calibration constants and their
//! reconstruction from register contents, the assembly of raw converter
//! codes, and the exact sequence of bus operations that each driver action
//! consists of. It never touches a bus itself: a caller performs the
//! requests that the crate hands out, in order, and hands the replies back.

pub mod bus;
pub mod calibration;
pub mod measurement;
pub mod register;
pub mod sensor;
