//! The decisions of a command transaction with the mouse: framing the HID
//! feature report, checking the answer, retrying, and decoding the answers of
//! the queries. The HID transfers themselves happen outside this module: the
//! caller performs each attempt and hands its outcome to [`Transaction::advance`].

use vstd::prelude::*;

use crate::battery::{Battery, ChargingState};
use crate::error::RazerError;
use crate::protocol::{spec_crc, PollingRate, RazerRequest, RazerResponse, RazerStatus};

verus! {

/// The transaction id used for every command of the DeathAdder V3 HyperSpeed.
pub const TRANSACTION_ID: u8 = 0x1f;

/// How many times a command is sent before the transaction gives up.
pub const MAX_ATTEMPTS: usize = 5;

/// The feature report that carries a request: report id 0 followed by the encoded request.
pub fn feature_report(request: &RazerRequest) -> (report: [u8; 91])
    requires
        request.argument_len <= 80,
    ensures
        report@ == seq![0u8] + request.spec_encode(),
{
    let encoded: [u8; 90] = request.encode();
    let mut report: [u8; 91] = [0u8; 91];
    let mut i: usize = 0;
    while i < 90
        invariant
            i <= 90,
            report@.len() == 91,
            encoded@ == request.spec_encode(),
            encoded@.len() == 90,
            report@[0] == 0u8,
            forall|j: int| 0 <= j < i ==> report@[j + 1] == encoded@[j],
        decreases 90 - i,
    {
        report[i + 1] = encoded[i];
        i = i + 1;
    }
    assert(report@ =~= seq![0u8] + request.spec_encode());
    report
}

/// The answer that a feature report read from the device holds, given how many
/// bytes the read returned.
pub fn response_from_feature_report(buffer: &[u8; 91], length: usize) -> (result: Result<
    RazerResponse,
    RazerError,
>)
    ensures
        length < 91 ==> result == Err::<RazerResponse, RazerError>(
            RazerError::ShortReport { expected: 91, received: length },
        ),
        length >= 91 ==> (result matches Ok(response) && RazerResponse::parsed_from(
            response,
            buffer@.subrange(1, 91),
        )),
{
    if length < 91 {
        return Err(RazerError::ShortReport { expected: 91, received: length });
    }
    let mut raw: [u8; 90] = [0u8; 90];
    let mut i: usize = 0;
    while i < 90
        invariant
            i <= 90,
            raw@.len() == 90,
            buffer@.len() == 91,
            forall|j: int| 0 <= j < i ==> raw@[j] == buffer@[j + 1],
        decreases 90 - i,
    {
        raw[i] = buffer[i + 1];
        i = i + 1;
    }
    assert(raw@ =~= buffer@.subrange(1, 91));
    Ok(RazerResponse::parse(raw))
}

/// What a check of an answer against its request decides: the answer when it
/// answers the request, else the first thing found wrong with it.
pub open spec fn spec_check_response(request: RazerRequest, response: RazerResponse) -> Result<
    RazerResponse,
    RazerError,
> {
    if response.transaction_id != request.transaction_id {
        Err(
            RazerError::TransactionMismatch {
                expected: request.transaction_id,
                received: response.transaction_id,
            },
        )
    } else if response.command != request.command {
        Err(RazerError::UnexpectedCommand { expected: request.command, received: response.command })
    } else if response.raw@[88] != spec_crc(response.raw@) {
        Err(RazerError::CrcMismatch { expected: spec_crc(response.raw@), received: response.raw@[88] })
    } else {
        match response.status {
            RazerStatus::Success => Ok(response),
            RazerStatus::Busy => Ok(response),
            RazerStatus::Timeout => Err(RazerError::Timeout),
            status => Err(RazerError::UnexpectedStatus(status)),
        }
    }
}

/// Checks an answer against its request: transaction id, then command, then
/// checksum, then status. `Success` and `Busy` are accepted.
pub fn check_response(request: &RazerRequest, response: RazerResponse) -> (result: Result<
    RazerResponse,
    RazerError,
>)
    ensures
        result == spec_check_response(*request, response),
{
    if response.transaction_id != request.transaction_id {
        return Err(
            RazerError::TransactionMismatch {
                expected: request.transaction_id,
                received: response.transaction_id,
            },
        );
    }
    if response.command != request.command {
        return Err(
            RazerError::UnexpectedCommand { expected: request.command, received: response.command },
        );
    }
    let expected_crc: u8 = crate::protocol::calculate_crc(&response.raw);
    let received_crc: u8 = response.raw[88];
    if received_crc != expected_crc {
        return Err(RazerError::CrcMismatch { expected: expected_crc, received: received_crc });
    }
    match response.status {
        RazerStatus::Success => Ok(response),
        RazerStatus::Busy => Ok(response),
        RazerStatus::Timeout => Err(RazerError::Timeout),
        status => Err(RazerError::UnexpectedStatus(status)),
    }
}

/// What one attempt of a transaction produced.
#[derive(Debug)]
pub enum AttemptOutcome {
    /// Sending the request failed.
    SendFailed(RazerError),
    /// Reading the answer failed.
    ReadFailed(RazerError),
    /// An answer was read.
    Received(RazerResponse),
}

/// A transaction in progress: the request, how many attempts were made, and
/// the error of the last one.
#[derive(Debug)]
pub struct Transaction {
    pub request: RazerRequest,
    pub attempts: usize,
    pub last_error: RazerError,
}

/// What follows an attempt: another attempt, or the end of the transaction.
#[derive(Debug)]
pub enum TransactionStep {
    Retry(Transaction),
    Done(Result<RazerResponse, RazerError>),
}

/// The result of one attempt on its own.
pub open spec fn spec_attempt_result(request: RazerRequest, outcome: AttemptOutcome) -> Result<
    RazerResponse,
    RazerError,
> {
    match outcome {
        AttemptOutcome::SendFailed(error) => Err(error),
        AttemptOutcome::ReadFailed(error) => Err(error),
        AttemptOutcome::Received(response) => spec_check_response(request, response),
    }
}

/// The step after an attempt: an accepted answer ends the transaction; a
/// failure leads to another attempt unless this was the last one allowed, in
/// which case the transaction ends with that failure.
pub open spec fn spec_advance(transaction: Transaction, outcome: AttemptOutcome) -> TransactionStep {
    match spec_attempt_result(transaction.request, outcome) {
        Ok(response) => TransactionStep::Done(Ok(response)),
        Err(error) => if transaction.attempts + 1 < MAX_ATTEMPTS {
            TransactionStep::Retry(
                Transaction {
                    request: transaction.request,
                    attempts: (transaction.attempts + 1) as usize,
                    last_error: error,
                },
            )
        } else {
            TransactionStep::Done(Err(error))
        },
    }
}

impl Transaction {
    /// A transaction for `request` before its first attempt.
    pub fn new(request: RazerRequest) -> (transaction: Transaction)
        ensures
            transaction.request == request,
            transaction.attempts == 0,
            transaction.last_error == RazerError::Timeout,
    {
        Transaction { request, attempts: 0, last_error: RazerError::Timeout }
    }

    /// Takes the outcome of an attempt and decides what follows.
    pub fn advance(self, outcome: AttemptOutcome) -> (step: TransactionStep)
        requires
            self.attempts < MAX_ATTEMPTS,
        ensures
            step == spec_advance(self, outcome),
    {
        let result = match outcome {
            AttemptOutcome::SendFailed(error) => Err(error),
            AttemptOutcome::ReadFailed(error) => Err(error),
            AttemptOutcome::Received(response) => check_response(&self.request, response),
        };
        match result {
            Ok(response) => TransactionStep::Done(Ok(response)),
            Err(error) => {
                if self.attempts + 1 < MAX_ATTEMPTS {
                    TransactionStep::Retry(
                        Transaction {
                            request: self.request,
                            attempts: self.attempts + 1,
                            last_error: error,
                        },
                    )
                } else {
                    TransactionStep::Done(Err(error))
                }
            },
        }
    }
}

/// A transaction ends after at most `MAX_ATTEMPTS` attempts and keeps its
/// request; it ends with an answer only if that answer carries the request's
/// transaction id and command, a valid checksum and a `Success` or `Busy` status.
pub proof fn lemma_transaction_outcome(transaction: Transaction, outcome: AttemptOutcome)
    requires
        transaction.attempts < MAX_ATTEMPTS,
    ensures
        spec_advance(transaction, outcome) matches TransactionStep::Retry(next) ==> {
            &&& next.request == transaction.request
            &&& next.attempts == transaction.attempts + 1
            &&& next.attempts < MAX_ATTEMPTS
        },
        transaction.attempts + 1 == MAX_ATTEMPTS ==> spec_advance(transaction, outcome) is Done,
        spec_advance(transaction, outcome) matches TransactionStep::Done(Ok(response)) ==> {
            &&& outcome == AttemptOutcome::Received(response)
            &&& response.transaction_id == transaction.request.transaction_id
            &&& response.command == transaction.request.command
            &&& spec_crc(response.raw@) == response.raw@[88]
            &&& (response.status == RazerStatus::Success || response.status == RazerStatus::Busy)
        },
{
}

/// A transaction makes five attempts at most. Any failed attempt before the
/// last leads to another attempt of the same request, carrying that
/// attempt's failure; a transaction ends with a failure only on its fifth
/// attempt, and with an answer as soon as one is accepted.
pub proof fn lemma_failed_attempt_retries(transaction: Transaction, outcome: AttemptOutcome)
    requires
        transaction.attempts < MAX_ATTEMPTS,
    ensures
        MAX_ATTEMPTS == 5,
        TRANSACTION_ID == 0x1f,
        spec_advance(transaction, outcome) matches TransactionStep::Done(Err(_)) ==> transaction.attempts
            == 4,
        transaction.attempts < 4 ==> (outcome matches AttemptOutcome::SendFailed(error)
            ==> spec_advance(transaction, outcome) == TransactionStep::Retry(
            Transaction {
                request: transaction.request,
                attempts: (transaction.attempts + 1) as usize,
                last_error: error,
            },
        )),
        transaction.attempts < 4 ==> (outcome matches AttemptOutcome::ReadFailed(error)
            ==> spec_advance(transaction, outcome) == TransactionStep::Retry(
            Transaction {
                request: transaction.request,
                attempts: (transaction.attempts + 1) as usize,
                last_error: error,
            },
        )),
        transaction.attempts < 4 ==> (outcome matches AttemptOutcome::Received(response)
            ==> (spec_check_response(transaction.request, response) matches Err(error)
            ==> spec_advance(transaction, outcome) == TransactionStep::Retry(
            Transaction {
                request: transaction.request,
                attempts: (transaction.attempts + 1) as usize,
                last_error: error,
            },
        ))),
        transaction.attempts == 4 ==> (outcome matches AttemptOutcome::SendFailed(error)
            ==> spec_advance(transaction, outcome) == TransactionStep::Done(Err(error))),
        transaction.attempts == 4 ==> (outcome matches AttemptOutcome::ReadFailed(error)
            ==> spec_advance(transaction, outcome) == TransactionStep::Done(Err(error))),
        outcome matches AttemptOutcome::Received(response) ==> (spec_check_response(
            transaction.request,
            response,
        ) is Ok ==> spec_advance(transaction, outcome) == TransactionStep::Done(Ok(response))),
{
}

/// An answer is accepted exactly when it carries the request's transaction id
/// and command, byte 88 is the XOR of bytes 2 to 87, and its status is
/// `Success` or `Busy`; an accepted answer is returned unchanged. Otherwise
/// the first failed check is reported: transaction id, then command, then
/// checksum (with the computed and the received byte), then status, where a
/// `Timeout` status is reported as a timeout and any other as the status.
pub proof fn lemma_check_response_decides(request: RazerRequest, response: RazerResponse)
    ensures
        (spec_check_response(request, response) is Ok) <==> {
            &&& response.transaction_id == request.transaction_id
            &&& response.command == request.command
            &&& crate::protocol::xor_all(response.raw@.subrange(2, 88)) == response.raw@[88]
            &&& (response.status == RazerStatus::Success || response.status == RazerStatus::Busy)
        },
        spec_check_response(request, response) matches Ok(accepted) ==> accepted == response,
        response.transaction_id != request.transaction_id ==> spec_check_response(request, response)
            == Err::<RazerResponse, RazerError>(
            RazerError::TransactionMismatch {
                expected: request.transaction_id,
                received: response.transaction_id,
            },
        ),
        response.transaction_id == request.transaction_id && response.command != request.command
            ==> spec_check_response(request, response) == Err::<RazerResponse, RazerError>(
            RazerError::UnexpectedCommand { expected: request.command, received: response.command },
        ),
        response.transaction_id == request.transaction_id && response.command == request.command
            && crate::protocol::xor_all(response.raw@.subrange(2, 88)) != response.raw@[88]
            ==> spec_check_response(request, response) == Err::<RazerResponse, RazerError>(
            RazerError::CrcMismatch {
                expected: crate::protocol::xor_all(response.raw@.subrange(2, 88)),
                received: response.raw@[88],
            },
        ),
        response.transaction_id == request.transaction_id && response.command == request.command
            && crate::protocol::xor_all(response.raw@.subrange(2, 88)) == response.raw@[88] ==> {
            &&& response.status == RazerStatus::Timeout ==> spec_check_response(request, response)
                == Err::<RazerResponse, RazerError>(RazerError::Timeout)
            &&& (response.status == RazerStatus::New || response.status == RazerStatus::Failure
                || response.status is Unknown) ==> spec_check_response(request, response) == Err::<
                RazerResponse,
                RazerError,
            >(RazerError::UnexpectedStatus(response.status))
        },
{
}

/// A rate byte decodes to a rate exactly when it is that rate's wire byte,
/// and that rate's polling interval in milliseconds: 8 for 125 Hz, 2 for
/// 500 Hz, 1 for 1000 Hz. Any other byte is reported as unknown, by value.
pub proof fn lemma_decode_polling_rate(value: u8, rate: PollingRate)
    ensures
        spec_decode_polling_rate(value) == Ok::<PollingRate, RazerError>(rate) <==> value
            == rate.spec_protocol_value(),
        spec_decode_polling_rate(value) == Ok::<PollingRate, RazerError>(rate) ==> value as int
            * rate.spec_hz() as int == 1000,
        (value != 1 && value != 2 && value != 8) ==> spec_decode_polling_rate(value) == Err::<
            PollingRate,
            RazerError,
        >(RazerError::UnknownPollingRate(value)),
{
}

/// The polling rate that a rate byte reports, or the error that names the byte.
pub open spec fn spec_decode_polling_rate(value: u8) -> Result<PollingRate, RazerError> {
    match PollingRate::spec_from_protocol_value(value) {
        Some(rate) => Ok(rate),
        None => Err(RazerError::UnknownPollingRate(value)),
    }
}

/// The polling rate that the answer to a polling-rate query reports in argument 0.
pub fn decode_polling_rate(response: &RazerResponse) -> (result: Result<PollingRate, RazerError>)
    ensures
        result == spec_decode_polling_rate(response.arguments@[0]),
{
    let raw: u8 = match response.argument(0) {
        Some(raw) => raw,
        None => return Err(RazerError::InvalidArgument(0)),
    };
    match PollingRate::from_protocol_value(raw) {
        Some(rate) => Ok(rate),
        None => Err(RazerError::UnknownPollingRate(raw)),
    }
}

/// The raw battery level that the answer to a battery query reports in argument 1.
pub fn decode_battery_level(response: &RazerResponse) -> (result: Result<u8, RazerError>)
    ensures
        result == Ok::<u8, RazerError>(response.arguments@[1]),
{
    match response.argument(1) {
        Some(raw) => Ok(raw),
        None => Err(RazerError::InvalidArgument(1)),
    }
}

/// The charging state that the answer to a charging query reports in argument 1.
pub fn decode_charging_state(response: &RazerResponse) -> (result: Result<ChargingState, RazerError>)
    ensures
        result == Ok::<ChargingState, RazerError>(
            ChargingState::spec_from_byte(response.arguments@[1]),
        ),
{
    match response.argument(1) {
        Some(raw) => Ok(ChargingState::from(raw)),
        None => Err(RazerError::InvalidArgument(1)),
    }
}

/// The battery reading made of a battery answer and a charging answer.
pub fn battery_from_responses(level: &RazerResponse, charging: &RazerResponse) -> (battery: Battery)
    ensures
        battery.raw == level.arguments@[1],
        battery.percentage == crate::battery::spec_percentage(level.arguments@[1]),
        battery.state == ChargingState::spec_from_byte(charging.arguments@[1]),
{
    let raw: u8 = level.arguments[1];
    let state: ChargingState = ChargingState::from(charging.arguments[1]);
    Battery::from_readings(raw, state)
}

/// A feature report read back exactly as it was sent yields the sent request:
/// its transaction id, command and wire arguments, with a checksum that verifies.
pub proof fn lemma_feature_report_roundtrip(request: RazerRequest, response: RazerResponse)
    requires
        request.argument_len <= 80,
        RazerResponse::parsed_from(response, (seq![0u8] + request.spec_encode()).subrange(1, 91)),
    ensures
        response.transaction_id == request.transaction_id,
        response.command == request.command,
        response.arguments@ == request.payload(),
        spec_crc(response.raw@) == response.raw@[88],
{
    assert((seq![0u8] + request.spec_encode()).subrange(1, 91) =~= request.spec_encode());
    crate::protocol::lemma_encode_parse_roundtrip(request, response);
}

/// The rate byte that a polling-rate change puts on the wire reads back as
/// that rate when a polling-rate answer reports it.
pub proof fn lemma_set_rate_reads_back(rate: PollingRate, request: RazerRequest, answer: RazerResponse)
    requires
        request.argument_len == 2,
        request.arguments@ == seq![0x01u8, rate.spec_protocol_value()] + Seq::new(
            78,
            |j: int| 0u8,
        ),
        answer.arguments@[0] == request.payload()[1],
    ensures
        spec_decode_polling_rate(answer.arguments@[0]) == Ok::<PollingRate, RazerError>(rate),
{
    assert(request.payload()[1] == request.arguments@[1]);
}

} // verus!
