//! The serial protocol spoken by the FLCQ meter: the request frames the host
//! sends and the checks and decoding applied to the frames the meter answers.
//!
//! Every request ends with the two terminator bytes `0xFF 0xFF`.  A reply is
//! judged on the bytes actually received (`received`), never on the rest of
//! the receive buffer.
use vstd::prelude::*;

verus! {

/// Terminator byte that closes every request frame.
pub const TERMINATOR: u8 = 0xFF;

/// Request: read one byte of the meter's EEPROM.
pub const CMD_EEPROM_READ: u8 = 0x05;

/// Request: write one byte of the meter's EEPROM.
pub const CMD_EEPROM_WRITE: u8 = 0x03;

/// Reply to an EEPROM read or write: `[0x04, data, address, ..]`.
pub const REPLY_EEPROM: u8 = 0x04;

/// Request: read the temperature sensor.
pub const CMD_TEMPERATURE: u8 = 0x09;

/// Reply carrying a temperature: `[0x0A, high, low, ..]`.
pub const REPLY_TEMPERATURE: u8 = 0x0A;

/// Request: count the oscillator over a number of timer periods.
pub const CMD_FREQUENCY: u8 = 0x0B;

/// Reply carrying a frequency count:
/// `[0x06, prescaler, tmr0, overflows (4 bytes, little endian), ..]`.
pub const REPLY_FREQUENCY: u8 = 0x06;

/// Request: identify the device (used when searching the serial ports).
pub const CMD_DETECT: u8 = 0x0D;

/// Reply to the identification request: `[0x0E, byte1, byte2, ..]`.
pub const REPLY_DETECT: u8 = 0x0E;

/// Length of the replies to EEPROM and temperature requests.
pub const SHORT_REPLY_LEN: usize = 5;

/// Length of the reply to a frequency request.
pub const FREQUENCY_REPLY_LEN: usize = 9;

/// Length of the reply to the identification request.
pub const DETECT_REPLY_LEN: usize = 4;

/// Why a request could not be built or a reply was refused.
#[derive(Debug, Clone, Copy, PartialEq, Eq, Structural)]
pub enum FlcqError {
    /// The reply did not have the expected length or header byte.
    WrongFormat,
    /// The averaging count of a frequency request must satisfy `0 < n < 255`.
    WrongAveraging(u8),
}

// ---------------------------------------------------------------------------
// Request frames
// ---------------------------------------------------------------------------

/// The frame that asks for the EEPROM byte at `address`.
pub fn read_byte_request(address: u8) -> (frame: Vec<u8>)
    ensures
        frame@ == seq![CMD_EEPROM_READ, address, TERMINATOR, TERMINATOR],
{
    vec![CMD_EEPROM_READ, address, TERMINATOR, TERMINATOR]
}

/// The frame that stores `data` at EEPROM `address`.
pub fn write_byte_request(address: u8, data: u8) -> (frame: Vec<u8>)
    ensures
        frame@ == seq![CMD_EEPROM_WRITE, data, address, TERMINATOR, TERMINATOR],
{
    vec![CMD_EEPROM_WRITE, data, address, TERMINATOR, TERMINATOR]
}

/// The frame that asks for the current temperature.
pub fn temperature_request() -> (frame: Vec<u8>)
    ensures
        frame@ == seq![CMD_TEMPERATURE, 0x08u8, 0x00u8, TERMINATOR, TERMINATOR],
{
    vec![CMD_TEMPERATURE, 0x08u8, 0x00u8, TERMINATOR, TERMINATOR]
}

/// The frame that identifies a meter on a serial port.
pub fn detect_request() -> (frame: Vec<u8>)
    ensures
        frame@ == seq![CMD_DETECT, 0x20u8, TERMINATOR, TERMINATOR],
{
    vec![CMD_DETECT, 0x20u8, TERMINATOR, TERMINATOR]
}

/// Whether `n` is an admissible averaging count for a frequency request.
pub open spec fn valid_averaging(n: u8) -> bool {
    0 < n && n < 255
}

/// The frame that asks for a frequency count averaged over `n` periods;
/// refused unless `0 < n < 255`.
pub fn frequency_request(n: u8) -> (res: Result<Vec<u8>, FlcqError>)
    ensures
        valid_averaging(n) <==> res is Ok,
        res matches Ok(frame) ==> frame@ == seq![
            CMD_FREQUENCY,
            0x08u8,
            0x10u8,
            n,
            TERMINATOR,
            TERMINATOR,
        ],
        res matches Err(e) ==> e == FlcqError::WrongAveraging(n),
{
    if 0 < n && n < 255 {
        Ok(vec![CMD_FREQUENCY, 0x08u8, 0x10u8, n, TERMINATOR, TERMINATOR])
    } else {
        Err(FlcqError::WrongAveraging(n))
    }
}

// ---------------------------------------------------------------------------
// Replies
// ---------------------------------------------------------------------------

/// A reply to an EEPROM read of `address` is accepted when it has five bytes,
/// the EEPROM header, and echoes the address.
pub open spec fn eeprom_reply_matches(received: Seq<u8>, address: u8) -> bool {
    &&& received.len() == SHORT_REPLY_LEN
    &&& received[0] == REPLY_EEPROM
    &&& received[2] == address
}

/// The byte that an EEPROM read of `address` yields from `received`:
/// the data byte of an accepted reply, the erased value `0xFF` otherwise.
pub open spec fn spec_read_byte_value(received: Seq<u8>, address: u8) -> u8 {
    if eeprom_reply_matches(received, address) {
        received[1]
    } else {
        0xFFu8
    }
}

/// Whether `received` is an accepted reply to an EEPROM read of `address`.
pub fn eeprom_reply_accepted(received: &[u8], address: u8) -> (ok: bool)
    ensures
        ok == eeprom_reply_matches(received@, address),
{
    received.len() == SHORT_REPLY_LEN && received[0] == REPLY_EEPROM && received[2] == address
}

/// Decodes the reply to an EEPROM read of `address`.
pub fn decode_read_byte(received: &[u8], address: u8) -> (value: u8)
    ensures
        value == spec_read_byte_value(received@, address),
{
    if eeprom_reply_accepted(received, address) {
        received[1]
    } else {
        0xFFu8
    }
}

/// Whether `received` acknowledges the write of `data` at `address`.
pub fn write_acknowledged(received: &[u8], address: u8, data: u8) -> (ok: bool)
    ensures
        ok <==> (eeprom_reply_matches(received@, address) && received@[1] == data),
{
    received.len() == SHORT_REPLY_LEN && received[0] == REPLY_EEPROM && received[1] == data
        && received[2] == address
}

/// The sensor's raw reading from its two bytes, high byte first, in units of
/// 1/16 degree Celsius.
pub open spec fn spec_temperature_raw(high: u8, low: u8) -> int {
    high * 256 + low
}

/// Combines the two temperature bytes of a reply (high byte first).
pub fn temperature_raw(high: u8, low: u8) -> (raw: u16)
    ensures
        raw == spec_temperature_raw(high, low),
{
    (high as u16) * 256 + (low as u16)
}

/// Decodes a temperature reply into the sensor's raw reading.
pub fn decode_temperature(received: &[u8]) -> (res: Result<u16, FlcqError>)
    ensures
        (received@.len() == SHORT_REPLY_LEN && received@[0] == REPLY_TEMPERATURE) <==> res is Ok,
        res matches Ok(raw) ==> raw == spec_temperature_raw(received@[1], received@[2]),
        res matches Err(e) ==> e == FlcqError::WrongFormat,
{
    if received.len() == SHORT_REPLY_LEN && received[0] == REPLY_TEMPERATURE {
        Ok(temperature_raw(received[1], received[2]))
    } else {
        Err(FlcqError::WrongFormat)
    }
}

/// Little-endian value of four bytes.
pub open spec fn spec_le_u32(b0: u8, b1: u8, b2: u8, b3: u8) -> int {
    b0 + 256 * b1 + 65536 * b2 + 16777216 * b3
}

/// The divider selected by the prescaler byte: the table `[1, 2, 4, 8, 16]`
/// taken at index `prescaler + 1`.
pub open spec fn spec_prescaler_divider(prescaler: u8) -> int
    recommends
        prescaler < 4,
{
    if prescaler == 0 {
        2
    } else if prescaler == 1 {
        4
    } else if prescaler == 2 {
        8
    } else {
        16
    }
}

/// The number of oscillator periods counted by the meter: the divider times
/// `256 * overflows + tmr0`.
pub open spec fn spec_frequency(prescaler: u8, tmr0: u8, overflows: Seq<u8>) -> int {
    spec_prescaler_divider(prescaler) * (256 * spec_le_u32(
        overflows[0],
        overflows[1],
        overflows[2],
        overflows[3],
    ) + tmr0)
}

/// Number of oscillator periods counted, from the prescaler code, the timer
/// register and the four overflow bytes (little endian).  Prescaler codes
/// past the end of the divider table are not accepted.
pub fn frequency(prescaler: u8, tmr0: u8, overflows_array: [u8; 4]) -> (count: u64)
    requires
        prescaler < 4,
    ensures
        count == spec_frequency(prescaler, tmr0, overflows_array@),
{
    let overflows: u64 = (overflows_array[0] as u64) + 256 * (overflows_array[1] as u64) + 65536
        * (overflows_array[2] as u64) + 16777216 * (overflows_array[3] as u64);
    let periods: u64 = 256 * overflows + (tmr0 as u64);
    if prescaler == 0 {
        2 * periods
    } else if prescaler == 1 {
        4 * periods
    } else if prescaler == 2 {
        8 * periods
    } else {
        16 * periods
    }
}

/// Whether `received` has the shape of a frequency reply.
pub open spec fn frequency_reply_matches(received: Seq<u8>) -> bool {
    received.len() == FREQUENCY_REPLY_LEN && received[0] == REPLY_FREQUENCY
}

/// Whether `received` has the shape of a frequency reply.
pub fn is_frequency_reply(received: &[u8]) -> (ok: bool)
    ensures
        ok == frequency_reply_matches(received@),
{
    received.len() == FREQUENCY_REPLY_LEN && received[0] == REPLY_FREQUENCY
}

/// Decodes a frequency reply into the prescaler code and the number of
/// periods counted.  A well-formed reply must carry a prescaler code below 4.
pub fn decode_frequency(received: &[u8]) -> (res: Result<(u8, u64), FlcqError>)
    requires
        frequency_reply_matches(received@) ==> received@[1] < 4,
    ensures
        frequency_reply_matches(received@) <==> res is Ok,
        res matches Ok((prescaler, count)) ==> {
            &&& prescaler == received@[1]
            &&& count == spec_frequency(received@[1], received@[2], received@.subrange(3, 7))
        },
        res matches Err(e) ==> e == FlcqError::WrongFormat,
{
    if is_frequency_reply(received) {
        let overflows = [received[3], received[4], received[5], received[6]];
        let count = frequency(received[1], received[2], overflows);
        assert(overflows@ =~= received@.subrange(3, 7));
        Ok((received[1], count))
    } else {
        Err(FlcqError::WrongFormat)
    }
}

/// Decodes the reply to the identification request into its two payload
/// bytes.
pub fn decode_detect(received: &[u8]) -> (res: Option<(u8, u8)>)
    ensures
        (received@.len() == DETECT_REPLY_LEN && received@[0] == REPLY_DETECT) <==> res is Some,
        res matches Some((a, b)) ==> a == received@[1] && b == received@[2],
{
    if received.len() == DETECT_REPLY_LEN && received[0] == REPLY_DETECT {
        Some((received[1], received[2]))
    } else {
        None
    }
}

/// The averaging count to measure again with: the calibrated one, when a
/// frequency was measured with another count; none when the counts agree.
pub open spec fn spec_averaging_retry(requested: u8, calibrated: u8) -> Option<u8> {
    if requested != calibrated {
        Some(calibrated)
    } else {
        None
    }
}

/// The averaging count to measure again with, when a frequency was measured
/// with an averaging count other than the one the calibration was made with.
pub fn averaging_retry(requested: u8, calibrated: u8) -> (retry: Option<u8>)
    ensures
        retry == spec_averaging_retry(requested, calibrated),
{
    if requested != calibrated {
        Some(calibrated)
    } else {
        None
    }
}

/// An acknowledged write reads back: a reply that acknowledges the write of
/// `data` at `address` is, read as the reply to a read of `address`, the
/// value `data`.
pub proof fn lemma_acknowledged_write_reads_back(received: Seq<u8>, address: u8, data: u8)
    requires
        eeprom_reply_matches(received, address),
        received[1] == data,
    ensures
        spec_read_byte_value(received, address) == data,
{
}

/// A frequency is measured again at most once: the retry uses the
/// calibrated averaging count, which asks for no further retry.
pub proof fn lemma_single_retry(requested: u8, calibrated: u8)
    ensures
        spec_averaging_retry(requested, calibrated) matches Some(n) ==> spec_averaging_retry(
            n,
            calibrated,
        ) is None,
{
}

// ---------------------------------------------------------------------------
// Laws
// ---------------------------------------------------------------------------

/// The protocol's codes and lengths.
pub proof fn lemma_protocol_codes()
    ensures
        TERMINATOR == 255,
        CMD_EEPROM_READ == 5,
        CMD_EEPROM_WRITE == 3,
        REPLY_EEPROM == 4,
        CMD_TEMPERATURE == 9,
        REPLY_TEMPERATURE == 10,
        CMD_FREQUENCY == 11,
        REPLY_FREQUENCY == 6,
        CMD_DETECT == 13,
        REPLY_DETECT == 14,
        SHORT_REPLY_LEN == 5,
        FREQUENCY_REPLY_LEN == 9,
        DETECT_REPLY_LEN == 4,
{
}

/// The number of periods counted: the divider 2, 4, 8 or 16 (prescaler code
/// 0 to 3) times `256 * overflows + tmr0`, where the overflows are the four
/// overflow bytes read least significant first, byte `i` weighing `256^i`.
pub proof fn lemma_frequency_count(prescaler: u8, tmr0: u8, overflows: Seq<u8>)
    requires
        prescaler < 4,
        overflows.len() == 4,
    ensures
        spec_frequency(prescaler, tmr0, overflows) == (if prescaler == 0 {
            2int
        } else if prescaler == 1 {
            4int
        } else if prescaler == 2 {
            8int
        } else {
            16int
        }) * (256 * (overflows[0] + 256 * overflows[1] + 65536 * overflows[2] + 16777216
            * overflows[3]) + tmr0),
{
}

/// Each step up in prescaler code doubles the count.
pub proof fn lemma_frequency_prescaler_doubles(prescaler: u8, tmr0: u8, overflows: Seq<u8>)
    requires
        prescaler < 3,
        overflows.len() == 4,
    ensures
        spec_frequency((prescaler + 1) as u8, tmr0, overflows) == 2 * spec_frequency(
            prescaler,
            tmr0,
            overflows,
        ),
{
    lemma_frequency_count(prescaler, tmr0, overflows);
    lemma_frequency_count((prescaler + 1) as u8, tmr0, overflows);
}

/// One more overflow in byte `i` adds `divider * 256 * 256^i` periods: the
/// overflow bytes weigh 1, 256, 65536 and 16777216 overflows, in that order.
pub proof fn lemma_frequency_overflow_weights(
    prescaler: u8,
    tmr0: u8,
    overflows: Seq<u8>,
    i: int,
)
    requires
        prescaler < 4,
        overflows.len() == 4,
        0 <= i < 4,
        overflows[i] < 255,
    ensures
        spec_frequency(prescaler, tmr0, overflows.update(i, (overflows[i] + 1) as u8))
            - spec_frequency(prescaler, tmr0, overflows) == spec_frequency(prescaler, 0, seq![0u8, 0u8, 0u8, 0u8].update(i, 1u8)),
        spec_frequency(prescaler, 0, seq![0u8, 0u8, 0u8, 0u8].update(i, 1u8)) == spec_frequency(prescaler, 0, seq![1u8, 0u8, 0u8, 0u8]) * (if i == 0 {
            1int
        } else if i == 1 {
            256int
        } else if i == 2 {
            65536int
        } else {
            16777216int
        }),
{
    let u = overflows.update(i, (overflows[i] + 1) as u8);
    let z = seq![0u8, 0u8, 0u8, 0u8].update(i, 1u8);
    lemma_frequency_count(prescaler, tmr0, overflows);
    lemma_frequency_count(prescaler, tmr0, u);
    lemma_frequency_count(prescaler, 0, z);
    lemma_frequency_count(prescaler, 0, seq![1u8, 0u8, 0u8, 0u8]);
}

/// The retry rule: a frequency measured with an averaging count other than
/// the calibrated one is measured again with the calibrated count; one
/// measured with the calibrated count is not.
pub proof fn lemma_averaging_retry(requested: u8, calibrated: u8)
    ensures
        requested != calibrated ==> spec_averaging_retry(requested, calibrated) == Some(
            calibrated,
        ),
        requested == calibrated ==> spec_averaging_retry(requested, calibrated) is None,
{
}

/// The raw temperature holds the high byte as its upper and the low byte as
/// its lower eight bits.
pub proof fn lemma_temperature_bytes(high: u8, low: u8)
    ensures
        spec_temperature_raw(high, low) / 256 == high,
        spec_temperature_raw(high, low) % 256 == low,
        0 <= spec_temperature_raw(high, low) < 65536,
{
}

/// An EEPROM read yields the data byte of a five-byte reply that starts
/// with 0x04 and echoes the address in its third byte, and 0xFF for any
/// other reply.
pub proof fn lemma_read_byte_value(received: Seq<u8>, address: u8)
    ensures
        (received.len() == 5 && received[0] == 4 && received[2] == address) ==> spec_read_byte_value(
            received,
            address,
        ) == received[1],
        !(received.len() == 5 && received[0] == 4 && received[2] == address) ==> spec_read_byte_value(
            received,
            address,
        ) == 255,
        frequency_reply_matches(received) <==> (received.len() == 9 && received[0] == 6),
{
}

/// An EEPROM reply is accepted for `address` exactly when it has five
/// bytes, starts with 0x04 and echoes `address` in its third byte; a
/// frequency request is built exactly for the averaging counts 1 to 254.
pub proof fn lemma_acceptance(received: Seq<u8>, address: u8, n: u8)
    ensures
        eeprom_reply_matches(received, address) <==> (received.len() == 5 && received[0] == 4
            && received[2] == address),
        valid_averaging(n) <==> (1 <= n && n <= 254),
{
}

} // verus!
