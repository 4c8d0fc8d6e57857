use razer::protocol::{calculate_crc, STATUS_NEW};
use razer::{PollingRate, RazerCommand, RazerRequest, RazerResponse, RazerStatus};

#[test]
fn polling_rate_set_request_arguments() {
    let request = RazerRequest::set_polling_rate(0x1f, PollingRate::Hz125);
    let report = request.encode();

    assert_eq!(report[0], STATUS_NEW);
    assert_eq!(report[1], 0x1f);
    assert_eq!(report[5], 0x02);
    assert_eq!(report[6], 0x00);
    assert_eq!(report[7], 0x0e);
    assert_eq!(report[8], 0x01);
    assert_eq!(report[9], 0x08);
}

#[test]
fn polling_rate_set_request_crc() {
    let request = RazerRequest::set_polling_rate(0x1f, PollingRate::Hz125);
    let report = request.encode();

    assert_eq!(report[88], calculate_crc(&report));
}

#[test]
fn polling_rate_get_request_arguments() {
    let request = RazerRequest::get_polling_rate(0x1f);
    let report = request.encode();

    assert_eq!(report[6], 0x00);
    assert_eq!(report[7], 0x8e);
    assert_eq!(report[8], 0x01);
    assert_eq!(report[9], 0x00);
}

#[test]
fn polling_rate_from_protocol_value_roundtrip() {
    assert_eq!(PollingRate::from_protocol_value(0x08), Some(PollingRate::Hz125));
    assert_eq!(PollingRate::from_protocol_value(0x02), Some(PollingRate::Hz500));
    assert_eq!(PollingRate::from_protocol_value(0x01), Some(PollingRate::Hz1000));
    assert_eq!(PollingRate::from_protocol_value(0xff), None);
}

#[test]
fn protocol_values_and_hz_of_each_rate() {
    for rate in [PollingRate::Hz125, PollingRate::Hz500, PollingRate::Hz1000] {
        assert_eq!(PollingRate::from_protocol_value(rate.protocol_value()), Some(rate));
    }
    assert_eq!(PollingRate::Hz125.hz(), 125);
    assert_eq!(PollingRate::Hz500.hz(), 500);
    assert_eq!(PollingRate::Hz1000.hz(), 1000);
    assert_eq!(PollingRate::Hz500.protocol_value(), 0x02);
    assert_eq!(PollingRate::from_protocol_value(0x00), None);
    assert_eq!(PollingRate::from_protocol_value(0x04), None);
}

#[test]
fn crc_is_xor_of_bytes_2_to_87() {
    let mut report = [0u8; 90];
    report[0] = 0xff;
    report[1] = 0xff;
    report[2] = 0x0f;
    report[3] = 0xf0;
    report[87] = 0x01;
    report[88] = 0xaa;
    report[89] = 0x55;
    assert_eq!(calculate_crc(&report), 0xfe);
    assert_eq!(calculate_crc(&[0u8; 90]), 0);
}

#[test]
fn set_polling_rate_crc_value() {
    // 0x02 (argument count) ^ 0x0e (command id) ^ 0x01 ^ 0x08 (arguments)
    let report = RazerRequest::set_polling_rate(0x1f, PollingRate::Hz125).encode();
    assert_eq!(report[88], 0x02 ^ 0x0e ^ 0x01 ^ 0x08);
    assert_eq!(report[88], 0x05);
    assert_eq!(report[89], 0x00);
    assert!(report[10..88].iter().all(|&b| b == 0));
}

#[test]
fn battery_request_layout() {
    let report = RazerRequest::battery(0x1f).encode();
    assert_eq!(report[1], 0x1f);
    assert_eq!(report[5], 0x00);
    assert_eq!(report[6], 0x07);
    assert_eq!(report[7], 0x80);
    assert_eq!(report[88], 0x07 ^ 0x80);
    let report = RazerRequest::charging_status(0x10).encode();
    assert_eq!(report[1], 0x10);
    assert_eq!(report[7], 0x84);
}

#[test]
fn with_arguments_keeps_bytes_past_the_new_length() {
    let first = RazerRequest::new(0x1f, RazerCommand::battery()).with_arguments(&[1, 2, 3]);
    let second = first.with_arguments(&[4]);
    assert_eq!(second.argument_len, 1);
    assert_eq!(&second.arguments[..4], &[4, 2, 3, 0]);
    let report = second.encode();
    assert_eq!(report[5], 1);
    assert_eq!(report[8], 4);
    assert_eq!(report[9], 0);
    assert_eq!(report[10], 0);
}

#[test]
fn encoded_request_parses_back() {
    let request = RazerRequest::set_polling_rate(0x1f, PollingRate::Hz1000);
    let response = RazerResponse::parse(request.encode());
    assert_eq!(response.status, RazerStatus::New);
    assert_eq!(response.transaction_id, 0x1f);
    assert_eq!(response.command, RazerCommand::polling_rate_set());
    assert_eq!(response.argument(0), Some(0x01));
    assert_eq!(response.argument(1), Some(0x01));
    assert_eq!(response.argument(2), Some(0x00));
    assert_eq!(response.argument(79), Some(0x00));
    assert_eq!(response.argument(80), None);
    assert!(response.verify_crc());
    assert!(!response.is_success());
}

#[test]
fn response_fields_and_status_bytes() {
    let mut raw = [0u8; 90];
    raw[0] = 0x02;
    raw[1] = 0x1f;
    raw[6] = 0x07;
    raw[7] = 0x80;
    raw[9] = 0xc8;
    raw[88] = calculate_crc(&raw);
    let response = RazerResponse::parse(raw);
    assert!(response.is_success());
    assert!(response.verify_crc());
    assert_eq!(response.command, RazerCommand::battery());
    assert_eq!(response.argument(1), Some(0xc8));

    raw[88] ^= 0x01;
    assert!(!RazerResponse::parse(raw).verify_crc());

    assert_eq!(RazerStatus::from(0x00), RazerStatus::New);
    assert_eq!(RazerStatus::from(0x01), RazerStatus::Busy);
    assert_eq!(RazerStatus::from(0x02), RazerStatus::Success);
    assert_eq!(RazerStatus::from(0x03), RazerStatus::Failure);
    assert_eq!(RazerStatus::from(0x04), RazerStatus::Timeout);
    assert_eq!(RazerStatus::from(0x05), RazerStatus::Unknown(0x05));
}
