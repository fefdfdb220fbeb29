use zkraken_lib::codec::{encode_bulk_info, encode_command, parse_firmware_info, parse_status};
use zkraken_lib::errors::DeviceError;

fn status_response() -> Vec<u8> {
    let mut response = vec![
        117u8, 1, 57, 0, 42, 0, 24, 81, 57, 48, 51, 54, 50, 56, 1, 30, 9, 58, 9, 80, 80, 1, 2,
        193, 6, 80, 80,
    ];
    response.resize(64, 0);
    response
}

#[test]
fn test_parse_firmware_version() {
    let mut data = vec![
        17u8, 1, 57, 0, 42, 0, 24, 81, 57, 48, 51, 54, 50, 56, 8, 48, 1, 5, 7, 0,
    ];
    data.resize(64, 0);

    let firmware_version = parse_firmware_info(&data).unwrap();

    assert_eq!(firmware_version, "version 5.7.0");
}

#[test]
fn test_parse_status() {
    let response = status_response();

    let status = parse_status(&response);

    assert!(status.is_ok());

    let status = status.unwrap();

    assert_eq!(status.temp, 30);
    assert_eq!(status.pump_duty, 80);
    assert_eq!(status.pump_rpm, 2362);
    assert_eq!(status.fan_duty, 80);
    assert_eq!(status.fan_rpm, 1729);
}

#[test]
fn test_parse_status_short_response() {
    let data = vec![0u8; 25];
    assert_eq!(parse_status(&data), Err(DeviceError::Protocol));
}

#[test]
fn test_parse_firmware_short_response() {
    let data = vec![0u8; 19];
    assert_eq!(parse_firmware_info(&data), Err(DeviceError::Protocol));
}

#[test]
fn test_parse_firmware_multi_digit_components() {
    let mut data = vec![0u8; 64];
    data[17] = 255;
    data[18] = 0;
    data[19] = 10;
    assert_eq!(parse_firmware_info(&data).unwrap(), "version 255.0.10");
}

#[test]
fn test_encode_command_pads_with_zeros() {
    let data = vec![0x74u8, 0x01];
    let frame = encode_command(&data);
    assert_eq!(frame.len(), 64);
    assert_eq!(frame[0], 0x74);
    assert_eq!(frame[1], 0x01);
    for i in 2..64 {
        assert_eq!(frame[i], 0);
    }
}

#[test]
fn test_encode_command_oversized_stays_zero() {
    let data = vec![0xffu8; 65];
    let frame = encode_command(&data);
    assert_eq!(frame.len(), 64);
    for i in 0..64 {
        assert_eq!(frame[i], 0);
    }
}

#[test]
fn test_encode_bulk_info_layout() {
    let frame = encode_bulk_info(7);
    assert_eq!(frame.len(), 512);
    assert_eq!(
        &frame[..13],
        &[0x12, 0xfa, 0x01, 0xe8, 0xab, 0xcd, 0xef, 0x98, 0x76, 0x54, 0x32, 0x10, 7]
    );
    assert_eq!(frame[17], 0x40);
    assert_eq!(frame[18], 0x96);
    assert!(frame[13..17].iter().all(|&b| b == 0));
    assert!(frame[19..].iter().all(|&b| b == 0));
}
