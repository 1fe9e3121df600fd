//! Host-side logic for the FLCQ frequency / inductance / capacitance meter:
//! the serial protocol, the calibration record kept in the meter's EEPROM,
//! finding the meter on a serial port, deferred commands, and the choice of
//! calibration.
pub mod calibration;
pub mod commands;
pub mod detect;
pub mod eeprom;
pub mod inductance;
pub mod protocol;
