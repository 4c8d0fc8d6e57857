use razer::device::{
    battery_from_responses, check_response, decode_battery_level, decode_charging_state,
    decode_polling_rate, feature_report, response_from_feature_report, AttemptOutcome,
    Transaction, TransactionStep, MAX_ATTEMPTS, TRANSACTION_ID,
};
use razer::protocol::calculate_crc;
use razer::{
    Battery, ChargingState, PollingRate, RazerCommand, RazerError, RazerRequest, RazerResponse,
    RazerStatus,
};

fn answer(request: &RazerRequest, status: u8, args: &[(usize, u8)]) -> RazerResponse {
    let mut raw = request.encode();
    raw[0] = status;
    for &(i, v) in args {
        raw[8 + i] = v;
    }
    raw[88] = calculate_crc(&raw);
    RazerResponse::parse(raw)
}

#[test]
fn feature_report_prefixes_report_id() {
    let request = RazerRequest::get_polling_rate(TRANSACTION_ID);
    let report = feature_report(&request);
    assert_eq!(report[0], 0x00);
    assert_eq!(&report[1..], &request.encode()[..]);
}

#[test]
fn short_feature_report_is_refused() {
    let buffer = [0u8; 91];
    match response_from_feature_report(&buffer, 90) {
        Err(RazerError::ShortReport { expected, received }) => {
            assert_eq!(expected, 91);
            assert_eq!(received, 90);
        }
        other => panic!("unexpected {other:?}"),
    }
}

#[test]
fn full_feature_report_drops_report_id() {
    let request = RazerRequest::battery(TRANSACTION_ID);
    let buffer = feature_report(&request);
    let response = response_from_feature_report(&buffer, 91).unwrap();
    assert_eq!(response.raw, request.encode());
    assert_eq!(response.command, RazerCommand::battery());
}

#[test]
fn check_accepts_success_and_busy() {
    let request = RazerRequest::battery(TRANSACTION_ID);
    assert!(check_response(&request, answer(&request, 0x02, &[])).is_ok());
    assert!(check_response(&request, answer(&request, 0x01, &[])).is_ok());
}

#[test]
fn check_reports_each_mismatch() {
    let request = RazerRequest::battery(TRANSACTION_ID);
    match check_response(&request, answer(&RazerRequest::battery(0x20), 0x02, &[])) {
        Err(RazerError::TransactionMismatch { expected: 0x1f, received: 0x20 }) => {}
        other => panic!("unexpected {other:?}"),
    }
    match check_response(&request, answer(&RazerRequest::charging_status(0x1f), 0x02, &[])) {
        Err(RazerError::UnexpectedCommand { expected, received }) => {
            assert_eq!(expected, RazerCommand::battery());
            assert_eq!(received, RazerCommand::charging_status());
        }
        other => panic!("unexpected {other:?}"),
    }
    let mut raw = answer(&request, 0x02, &[]).raw;
    raw[88] ^= 0xff;
    let expected_crc = calculate_crc(&raw);
    match check_response(&request, RazerResponse::parse(raw)) {
        Err(RazerError::CrcMismatch { expected, received }) => {
            assert_eq!(expected, expected_crc);
            assert_eq!(received, expected_crc ^ 0xff);
        }
        other => panic!("unexpected {other:?}"),
    }
    match check_response(&request, answer(&request, 0x04, &[])) {
        Err(RazerError::Timeout) => {}
        other => panic!("unexpected {other:?}"),
    }
    match check_response(&request, answer(&request, 0x00, &[])) {
        Err(RazerError::UnexpectedStatus(RazerStatus::New)) => {}
        other => panic!("unexpected {other:?}"),
    }
    match check_response(&request, answer(&request, 0x03, &[])) {
        Err(RazerError::UnexpectedStatus(RazerStatus::Failure)) => {}
        other => panic!("unexpected {other:?}"),
    }
    match check_response(&request, answer(&request, 0x09, &[])) {
        Err(RazerError::UnexpectedStatus(RazerStatus::Unknown(0x09))) => {}
        other => panic!("unexpected {other:?}"),
    }
}

#[test]
fn transaction_retries_then_gives_last_error() {
    let request = RazerRequest::battery(TRANSACTION_ID);
    let mut transaction = Transaction::new(request);
    let mut attempts = 0;
    let result = loop {
        attempts += 1;
        let outcome = if attempts % 2 == 0 {
            AttemptOutcome::SendFailed(RazerError::Hid(format!("send {attempts}")))
        } else {
            AttemptOutcome::ReadFailed(RazerError::Hid(format!("read {attempts}")))
        };
        match transaction.advance(outcome) {
            TransactionStep::Retry(next) => transaction = next,
            TransactionStep::Done(result) => break result,
        }
    };
    assert_eq!(attempts, MAX_ATTEMPTS);
    match result {
        Err(RazerError::Hid(message)) => assert_eq!(message, "read 5"),
        other => panic!("unexpected {other:?}"),
    }
}

#[test]
fn transaction_ends_on_accepted_answer() {
    let request = RazerRequest::get_polling_rate(TRANSACTION_ID);
    let transaction = Transaction::new(request);
    let bad = answer(&request, 0x03, &[]);
    let transaction = match transaction.advance(AttemptOutcome::Received(bad)) {
        TransactionStep::Retry(next) => next,
        TransactionStep::Done(_) => panic!("ended too early"),
    };
    assert_eq!(transaction.attempts, 1);
    assert!(matches!(transaction.last_error, RazerError::UnexpectedStatus(RazerStatus::Failure)));
    let good = answer(&request, 0x02, &[(0, 0x02)]);
    match transaction.advance(AttemptOutcome::Received(good)) {
        TransactionStep::Done(Ok(response)) => {
            assert_eq!(decode_polling_rate(&response).unwrap(), PollingRate::Hz500);
        }
        _ => panic!("answer not accepted"),
    }
}

#[test]
fn decoders_read_the_right_arguments() {
    let request = RazerRequest::get_polling_rate(TRANSACTION_ID);
    match decode_polling_rate(&answer(&request, 0x02, &[(0, 0x07)])) {
        Err(RazerError::UnknownPollingRate(0x07)) => {}
        other => panic!("unexpected {other:?}"),
    }
    assert_eq!(
        decode_polling_rate(&answer(&request, 0x02, &[(0, 0x08)])).unwrap(),
        PollingRate::Hz125
    );
    let level = answer(&RazerRequest::battery(TRANSACTION_ID), 0x02, &[(1, 0xff)]);
    let charging = answer(&RazerRequest::charging_status(TRANSACTION_ID), 0x02, &[(1, 0x01)]);
    assert_eq!(decode_battery_level(&level).unwrap(), 0xff);
    assert_eq!(decode_charging_state(&charging).unwrap(), ChargingState::Charging);
    let battery = battery_from_responses(&level, &charging);
    assert_eq!(battery, Battery { raw: 0xff, percentage: 100, state: ChargingState::Charging });
}

#[test]
fn battery_percentage_and_state() {
    assert_eq!(Battery::from_readings(0, ChargingState::Discharging).percentage, 0);
    assert_eq!(Battery::from_readings(128, ChargingState::Discharging).percentage, 50);
    assert_eq!(Battery::from_readings(254, ChargingState::Discharging).percentage, 99);
    assert_eq!(Battery::from_readings(255, ChargingState::Discharging).percentage, 100);
    assert_eq!(ChargingState::from(0x01), ChargingState::Charging);
    assert_eq!(ChargingState::from(0x00), ChargingState::Discharging);
    assert_eq!(ChargingState::from(0x02), ChargingState::Discharging);
    let battery = Battery::from_readings(10, ChargingState::Charging);
    assert!(battery.is_charging());
    assert!(!battery.is_discharging());
    assert!(ChargingState::Discharging.is_discharging());
    assert!(!ChargingState::Discharging.is_charging());
}
