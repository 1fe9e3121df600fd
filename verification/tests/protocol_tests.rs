use flcq::protocol::{
    averaging_retry, decode_detect, decode_frequency, decode_read_byte, decode_temperature,
    detect_request, frequency, frequency_request, read_byte_request, temperature_raw,
    temperature_request, write_acknowledged, write_byte_request, FlcqError,
};

#[test]
fn read_byte_request_frame() {
    assert_eq!(read_byte_request(0x22), vec![0x05, 0x22, 0xFF, 0xFF]);
}

#[test]
fn write_byte_request_frame() {
    assert_eq!(write_byte_request(0x10, 0xAB), vec![0x03, 0xAB, 0x10, 0xFF, 0xFF]);
}

#[test]
fn temperature_and_detect_frames() {
    assert_eq!(temperature_request(), vec![0x09, 0x08, 0x00, 0xFF, 0xFF]);
    assert_eq!(detect_request(), vec![0x0D, 0x20, 0xFF, 0xFF]);
}

#[test]
fn frequency_request_accepts_1_to_254() {
    assert_eq!(frequency_request(1), Ok(vec![0x0B, 0x08, 0x10, 1, 0xFF, 0xFF]));
    assert_eq!(frequency_request(254), Ok(vec![0x0B, 0x08, 0x10, 254, 0xFF, 0xFF]));
}

#[test]
fn frequency_request_refuses_0_and_255() {
    assert_eq!(frequency_request(0), Err(FlcqError::WrongAveraging(0)));
    assert_eq!(frequency_request(255), Err(FlcqError::WrongAveraging(255)));
}

#[test]
fn read_byte_reply_accepted() {
    assert_eq!(decode_read_byte(&[0x04, 0x5A, 0x11, 0xFF, 0xFF], 0x11), 0x5A);
}

#[test]
fn read_byte_reply_wrong_address_gives_erased() {
    assert_eq!(decode_read_byte(&[0x04, 0x5A, 0x12, 0xFF, 0xFF], 0x11), 0xFF);
}

#[test]
fn read_byte_reply_wrong_header_or_length_gives_erased() {
    assert_eq!(decode_read_byte(&[0x05, 0x5A, 0x11, 0xFF, 0xFF], 0x11), 0xFF);
    assert_eq!(decode_read_byte(&[0x04, 0x5A, 0x11, 0xFF], 0x11), 0xFF);
    assert_eq!(decode_read_byte(&[], 0x11), 0xFF);
}

#[test]
fn write_ack_checks_data_and_address() {
    assert!(write_acknowledged(&[0x04, 0x07, 0x30, 0xFF, 0xFF], 0x30, 0x07));
    assert!(!write_acknowledged(&[0x04, 0x08, 0x30, 0xFF, 0xFF], 0x30, 0x07));
    assert!(!write_acknowledged(&[0x04, 0x07, 0x31, 0xFF, 0xFF], 0x30, 0x07));
    assert!(!write_acknowledged(&[0x04, 0x07, 0x30], 0x30, 0x07));
}

#[test]
fn acknowledged_write_reads_back() {
    let reply = [0x04, 0x07, 0x30, 0xFF, 0xFF];
    assert!(write_acknowledged(&reply, 0x30, 0x07));
    assert_eq!(decode_read_byte(&reply, 0x30), 0x07);
}

#[test]
fn temperature_raw_high_byte_first() {
    assert_eq!(temperature_raw(0x01, 0x90), 400);
    assert_eq!(temperature_raw(0xFF, 0xFF), 0xFFFF);
    // 400 sixteenths of a degree is 25 degrees
    assert_eq!(temperature_raw(0x01, 0x90) as f64 * 0.0625, 25.0);
}

#[test]
fn temperature_reply() {
    assert_eq!(decode_temperature(&[0x0A, 0x01, 0x90, 0xFF, 0xFF]), Ok(400));
    assert_eq!(decode_temperature(&[0x0B, 0x01, 0x90, 0xFF, 0xFF]), Err(FlcqError::WrongFormat));
    assert_eq!(decode_temperature(&[0x0A, 0x01, 0x90]), Err(FlcqError::WrongFormat));
}

#[test]
fn frequency_count_formula() {
    // divider 2 (prescaler 0): 2 * (256 * 1 + 3)
    assert_eq!(frequency(0, 3, [1, 0, 0, 0]), 518);
    // divider 16 (prescaler 3): 16 * (256 * 0x0100 + 0)
    assert_eq!(frequency(3, 0, [0, 1, 0, 0]), 16 * 256 * 256);
    // divider 4 and 8
    assert_eq!(frequency(1, 10, [0, 0, 0, 0]), 40);
    assert_eq!(frequency(2, 1, [2, 0, 0, 0]), 8 * 513);
    // largest count
    assert_eq!(
        frequency(3, 255, [0xFF, 0xFF, 0xFF, 0xFF]),
        16 * (256 * 0xFFFF_FFFFu64 + 255)
    );
}

#[test]
fn frequency_reply() {
    let reply = [0x06, 1, 10, 0x34, 0x12, 0, 0, 0xFF, 0xFF];
    assert_eq!(decode_frequency(&reply), Ok((1, 4 * (256 * 0x1234 + 10))));
    assert_eq!(
        decode_frequency(&[0x07, 1, 10, 0, 0, 0, 0, 0xFF, 0xFF]),
        Err(FlcqError::WrongFormat)
    );
    assert_eq!(decode_frequency(&[0x06, 1, 10, 0, 0]), Err(FlcqError::WrongFormat));
}

#[test]
fn detect_reply() {
    assert_eq!(decode_detect(&[0x0E, 3, 7, 0xFF]), Some((3, 7)));
    assert_eq!(decode_detect(&[0x0F, 3, 7, 0xFF]), None);
    assert_eq!(decode_detect(&[0x0E, 3, 7]), None);
}

#[test]
fn averaging_retry_once() {
    assert_eq!(averaging_retry(10, 20), Some(20));
    assert_eq!(averaging_retry(20, 20), None);
}
