//! The 90-byte feature-report protocol: commands, requests, responses and the
//! XOR checksum that guards them.

use vstd::prelude::*;

verus! {

/// Length of a protocol report, without the HID report-id byte.
pub const REPORT_LEN: usize = 90;

/// Length of a HID feature report: the report-id byte followed by a protocol report.
pub const HID_REPORT_LEN: usize = 91;

pub const STATUS_NEW: u8 = 0x00;
pub const STATUS_BUSY: u8 = 0x01;
pub const STATUS_SUCCESS: u8 = 0x02;
pub const STATUS_FAILURE: u8 = 0x03;
pub const STATUS_TIMEOUT: u8 = 0x04;

/// The polling rates that the mouse accepts.
#[derive(Debug, Clone, Copy, PartialEq, Eq, Structural)]
pub enum PollingRate {
    Hz125,
    Hz500,
    Hz1000,
}

impl PollingRate {
    /// The rate in reports per second.
    pub open spec fn spec_hz(self) -> u16 {
        match self {
            PollingRate::Hz125 => 125,
            PollingRate::Hz500 => 500,
            PollingRate::Hz1000 => 1000,
        }
    }

    /// The byte that stands for the rate on the wire.
    pub open spec fn spec_protocol_value(self) -> u8 {
        match self {
            PollingRate::Hz125 => 0x08,
            PollingRate::Hz500 => 0x02,
            PollingRate::Hz1000 => 0x01,
        }
    }

    /// The rate that a wire byte stands for, if any.
    pub open spec fn spec_from_protocol_value(value: u8) -> Option<PollingRate> {
        if value == 0x08 {
            Some(PollingRate::Hz125)
        } else if value == 0x02 {
            Some(PollingRate::Hz500)
        } else if value == 0x01 {
            Some(PollingRate::Hz1000)
        } else {
            None
        }
    }

    pub fn hz(self) -> (hz: u16)
        ensures
            hz == self.spec_hz(),
    {
        match self {
            PollingRate::Hz125 => 125,
            PollingRate::Hz500 => 500,
            PollingRate::Hz1000 => 1000,
        }
    }

    pub fn protocol_value(self) -> (value: u8)
        ensures
            value == self.spec_protocol_value(),
    {
        match self {
            PollingRate::Hz125 => 0x08,
            PollingRate::Hz500 => 0x02,
            PollingRate::Hz1000 => 0x01,
        }
    }

    pub fn from_protocol_value(value: u8) -> (rate: Option<PollingRate>)
        ensures
            rate == PollingRate::spec_from_protocol_value(value),
    {
        if value == 0x08 {
            Some(PollingRate::Hz125)
        } else if value == 0x02 {
            Some(PollingRate::Hz500)
        } else if value == 0x01 {
            Some(PollingRate::Hz1000)
        } else {
            None
        }
    }
}

/// Decoding a rate's wire byte gives the rate back, and a byte decodes to a
/// rate only when it is that rate's wire byte.
pub proof fn lemma_protocol_value_roundtrip(rate: PollingRate, value: u8)
    ensures
        PollingRate::spec_from_protocol_value(rate.spec_protocol_value()) == Some(rate),
        PollingRate::spec_from_protocol_value(value) == Some(rate) ==> rate.spec_protocol_value()
            == value,
{
}


/// The status byte that opens every report.
#[derive(Debug, Clone, Copy, PartialEq, Eq, Structural)]
pub enum RazerStatus {
    New,
    Busy,
    Success,
    Failure,
    Timeout,
    Unknown(u8),
}

impl RazerStatus {
    /// The status that a status byte stands for.
    pub open spec fn spec_from_byte(value: u8) -> RazerStatus {
        if value == STATUS_NEW {
            RazerStatus::New
        } else if value == STATUS_BUSY {
            RazerStatus::Busy
        } else if value == STATUS_SUCCESS {
            RazerStatus::Success
        } else if value == STATUS_FAILURE {
            RazerStatus::Failure
        } else if value == STATUS_TIMEOUT {
            RazerStatus::Timeout
        } else {
            RazerStatus::Unknown(value)
        }
    }
}

impl From<u8> for RazerStatus {
    fn from(value: u8) -> (status: RazerStatus) {
        if value == STATUS_NEW {
            RazerStatus::New
        } else if value == STATUS_BUSY {
            RazerStatus::Busy
        } else if value == STATUS_SUCCESS {
            RazerStatus::Success
        } else if value == STATUS_FAILURE {
            RazerStatus::Failure
        } else if value == STATUS_TIMEOUT {
            RazerStatus::Timeout
        } else {
            RazerStatus::Unknown(value)
        }
    }
}

impl vstd::std_specs::convert::FromSpecImpl<u8> for RazerStatus {
    open spec fn obeys_from_spec() -> bool {
        true
    }

    open spec fn from_spec(value: u8) -> RazerStatus {
        RazerStatus::spec_from_byte(value)
    }
}

/// A command: its class byte and its id byte.
#[derive(Debug, Clone, Copy, PartialEq, Eq, Structural)]
pub struct RazerCommand {
    pub class: u8,
    pub id: u8,
}

impl RazerCommand {
    /// Battery level query.
    pub fn battery() -> (command: RazerCommand)
        ensures
            command == (RazerCommand { class: 0x07, id: 0x80 }),
    {
        RazerCommand { class: 0x07, id: 0x80 }
    }

    /// Charging state query.
    pub fn charging_status() -> (command: RazerCommand)
        ensures
            command == (RazerCommand { class: 0x07, id: 0x84 }),
    {
        RazerCommand { class: 0x07, id: 0x84 }
    }

    /// Polling-rate change.
    pub fn polling_rate_set() -> (command: RazerCommand)
        ensures
            command == (RazerCommand { class: 0x00, id: 0x0e }),
    {
        RazerCommand { class: 0x00, id: 0x0e }
    }

    /// Polling-rate query.
    pub fn polling_rate_get() -> (command: RazerCommand)
        ensures
            command == (RazerCommand { class: 0x00, id: 0x8e }),
    {
        RazerCommand { class: 0x00, id: 0x8e }
    }
}

/// XOR of all bytes of a sequence.
pub open spec fn xor_all(bytes: Seq<u8>) -> u8
    decreases bytes.len(),
{
    if bytes.len() == 0 {
        0
    } else {
        xor_all(bytes.drop_last()) ^ bytes.last()
    }
}

/// The checksum of a report: the XOR of bytes 2 to 87.
pub open spec fn spec_crc(report: Seq<u8>) -> u8 {
    xor_all(report.subrange(2, 88))
}

/// Computes the checksum of a report: the XOR of bytes 2 to 87.
pub fn calculate_crc(report: &[u8; 90]) -> (crc: u8)
    ensures
        crc == spec_crc(report@),
{
    let mut crc: u8 = 0;
    let mut i: usize = 2;
    while i < 88
        invariant
            2 <= i <= 88,
            report@.len() == 90,
            crc == xor_all(report@.subrange(2, i as int)),
        decreases 88 - i,
    {
        assert(report@.subrange(2, i + 1).drop_last() =~= report@.subrange(2, i as int));
        crc = crc ^ report[i];
        i = i + 1;
    }
    crc
}


/// A report that the device sent back, split into its fields.
#[derive(Debug, Clone)]
pub struct RazerResponse {
    pub status: RazerStatus,
    pub transaction_id: u8,
    pub command: RazerCommand,
    pub arguments: [u8; 80],
    pub raw: [u8; 90],
}

impl RazerResponse {
    /// The argument bytes of a report: bytes 8 to 87.
    pub open spec fn spec_arguments(raw: Seq<u8>) -> Seq<u8> {
        raw.subrange(8, 88)
    }

    /// True when `response` holds the fields that `raw` carries.
    pub open spec fn parsed_from(response: RazerResponse, raw: Seq<u8>) -> bool {
        &&& response.status == RazerStatus::spec_from_byte(raw[0])
        &&& response.transaction_id == raw[1]
        &&& response.command == (RazerCommand { class: raw[6], id: raw[7] })
        &&& response.arguments@ == RazerResponse::spec_arguments(raw)
        &&& response.raw@ == raw
    }

    /// The argument at `index`, if the index lies inside the argument block.
    pub open spec fn spec_argument(&self, index: usize) -> Option<u8> {
        if index < 80 {
            Some(self.arguments@[index as int])
        } else {
            None
        }
    }

    /// Splits a report into status, transaction id, command and arguments.
    pub fn parse(raw: [u8; 90]) -> (response: RazerResponse)
        ensures
            RazerResponse::parsed_from(response, raw@),
    {
        let mut arguments: [u8; 80] = [0u8; 80];
        let mut i: usize = 0;
        while i < 80
            invariant
                i <= 80,
                raw@.len() == 90,
                arguments@.len() == 80,
                forall|j: int| 0 <= j < i ==> arguments@[j] == raw@[8 + j],
            decreases 80 - i,
        {
            arguments[i] = raw[8 + i];
            i = i + 1;
        }
        assert(arguments@ =~= raw@.subrange(8, 88));
        RazerResponse {
            status: RazerStatus::from(raw[0]),
            transaction_id: raw[1],
            command: RazerCommand { class: raw[6], id: raw[7] },
            arguments,
            raw,
        }
    }

    /// The argument byte at `index`, or `None` past the 80-byte argument block.
    pub fn argument(&self, index: usize) -> (value: Option<u8>)
        ensures
            value == self.spec_argument(index),
    {
        if index < 80 {
            Some(self.arguments[index])
        } else {
            None
        }
    }

    /// True when the device reported success.
    pub fn is_success(&self) -> (success: bool)
        ensures
            success == (self.status == RazerStatus::Success),
    {
        match self.status {
            RazerStatus::Success => true,
            _ => false,
        }
    }

    /// True when byte 88 of the report holds the report's checksum.
    pub fn verify_crc(&self) -> (valid: bool)
        ensures
            valid == (spec_crc(self.raw@) == self.raw@[88]),
    {
        calculate_crc(&self.raw) == self.raw[88]
    }
}

/// A command to send, with its arguments.
#[derive(Debug, Clone, Copy)]
pub struct RazerRequest {
    pub transaction_id: u8,
    pub command: RazerCommand,
    pub arguments: [u8; 80],
    /// How many of `arguments` go on the wire.
    pub argument_len: usize,
}

impl RazerRequest {
    /// The argument bytes that go on the wire, padded with zeros to 80 bytes.
    pub open spec fn payload(self) -> Seq<u8> {
        Seq::new(80, |j: int| if j < self.argument_len { self.arguments@[j] } else { 0u8 })
    }

    /// The report before its checksum is filled in.
    pub open spec fn frame(self) -> Seq<u8> {
        Seq::new(
            90,
            |i: int|
                if i == 1 {
                    self.transaction_id
                } else if i == 5 {
                    self.argument_len as u8
                } else if i == 6 {
                    self.command.class
                } else if i == 7 {
                    self.command.id
                } else if 8 <= i < 88 {
                    self.payload()[i - 8]
                } else {
                    0u8
                },
        )
    }

    /// The report as it is sent: the frame with its checksum in byte 88.
    pub open spec fn spec_encode(self) -> Seq<u8> {
        self.frame().update(88, spec_crc(self.frame()))
    }

    pub fn new(transaction_id: u8, command: RazerCommand) -> (request: RazerRequest)
        ensures
            request.transaction_id == transaction_id,
            request.command == command,
            request.arguments@ == Seq::new(80, |j: int| 0u8),
            request.argument_len == 0,
    {
        let request = RazerRequest { transaction_id, command, arguments: [0u8; 80], argument_len: 0 };
        assert(request.arguments@ =~= Seq::new(80, |j: int| 0u8));
        request
    }

    /// Replaces the first `arguments.len()` argument bytes and sets the argument length.
    pub fn with_arguments(self, arguments: &[u8]) -> (request: RazerRequest)
        requires
            arguments@.len() <= 80,
        ensures
            request.transaction_id == self.transaction_id,
            request.command == self.command,
            request.argument_len == arguments@.len(),
            request.arguments@ == arguments@ + self.arguments@.subrange(
                arguments@.len() as int,
                80,
            ),
    {
        let mut request = self;
        let n: usize = arguments.len();
        let mut i: usize = 0;
        while i < n
            invariant
                i <= n,
                n == arguments@.len(),
                n <= 80,
                request.arguments@.len() == 80,
                request.transaction_id == self.transaction_id,
                request.command == self.command,
                forall|j: int| 0 <= j < i ==> request.arguments@[j] == arguments@[j],
                forall|j: int| i <= j < 80 ==> request.arguments@[j] == self.arguments@[j],
            decreases n - i,
        {
            request.arguments[i] = arguments[i];
            i = i + 1;
        }
        request.argument_len = n;
        assert(request.arguments@ =~= arguments@ + self.arguments@.subrange(n as int, 80));
        request
    }

    pub fn battery(transaction_id: u8) -> (request: RazerRequest)
        ensures
            request.transaction_id == transaction_id,
            request.command == (RazerCommand { class: 0x07, id: 0x80 }),
            request.arguments@ == Seq::new(80, |j: int| 0u8),
            request.argument_len == 0,
    {
        RazerRequest::new(transaction_id, RazerCommand::battery())
    }

    pub fn charging_status(transaction_id: u8) -> (request: RazerRequest)
        ensures
            request.transaction_id == transaction_id,
            request.command == (RazerCommand { class: 0x07, id: 0x84 }),
            request.arguments@ == Seq::new(80, |j: int| 0u8),
            request.argument_len == 0,
    {
        RazerRequest::new(transaction_id, RazerCommand::charging_status())
    }

    /// Request that sets the polling rate: arguments `[0x01, rate byte]`.
    pub fn set_polling_rate(transaction_id: u8, rate: PollingRate) -> (request: RazerRequest)
        ensures
            request.transaction_id == transaction_id,
            request.command == (RazerCommand { class: 0x00, id: 0x0e }),
            request.argument_len == 2,
            request.arguments@ == seq![0x01u8, rate.spec_protocol_value()] + Seq::new(
                78,
                |j: int| 0u8,
            ),
    {
        let request = RazerRequest::new(transaction_id, RazerCommand::polling_rate_set());
        let arguments: [u8; 2] = [0x01, rate.protocol_value()];
        let request = request.with_arguments(arguments.as_slice());
        assert(request.arguments@ =~= seq![0x01u8, rate.spec_protocol_value()] + Seq::new(
            78,
            |j: int| 0u8,
        ));
        request
    }

    /// Request that reads the polling rate: arguments `[0x01, 0x00]`.
    pub fn get_polling_rate(transaction_id: u8) -> (request: RazerRequest)
        ensures
            request.transaction_id == transaction_id,
            request.command == (RazerCommand { class: 0x00, id: 0x8e }),
            request.argument_len == 2,
            request.arguments@ == seq![0x01u8, 0x00u8] + Seq::new(78, |j: int| 0u8),
    {
        let request = RazerRequest::new(transaction_id, RazerCommand::polling_rate_get());
        let arguments: [u8; 2] = [0x01, 0x00];
        let request = request.with_arguments(arguments.as_slice());
        assert(request.arguments@ =~= seq![0x01u8, 0x00u8] + Seq::new(78, |j: int| 0u8));
        request
    }

    /// Lays the request out as a report and fills in its checksum.
    pub fn encode(&self) -> (report: [u8; 90])
        requires
            self.argument_len <= 80,
        ensures
            report@ == self.spec_encode(),
    {
        let mut report: [u8; 90] = [0u8; 90];
        report[0] = STATUS_NEW;
        report[1] = self.transaction_id;
        report[2] = 0x00;
        report[3] = 0x00;
        report[4] = 0x00;
        report[5] = self.argument_len as u8;
        report[6] = self.command.class;
        report[7] = self.command.id;
        let mut i: usize = 0;
        while i < self.argument_len
            invariant
                i <= self.argument_len <= 80,
                report@.len() == 90,
                forall|j: int| 0 <= j < 8 ==> report@[j] == self.frame()[j],
                forall|j: int| 8 <= j < 8 + i ==> report@[j] == self.frame()[j],
                forall|j: int| 8 + i <= j < 90 ==> report@[j] == 0u8,
            decreases self.argument_len - i,
        {
            report[8 + i] = self.arguments[i];
            i = i + 1;
        }
        assert(report@ =~= self.frame());
        let crc: u8 = calculate_crc(&report);
        report[88] = crc;
        report[89] = 0x00;
        assert(report@ =~= self.spec_encode());
        report
    }
}


/// A report built from a request reads back as that request: status `New`, the
/// request's transaction id, command and wire arguments, its argument count in
/// byte 5, and a checksum that verifies.
pub proof fn lemma_encode_parse_roundtrip(request: RazerRequest, response: RazerResponse)
    requires
        request.argument_len <= 80,
        RazerResponse::parsed_from(response, request.spec_encode()),
    ensures
        response.status == RazerStatus::New,
        response.transaction_id == request.transaction_id,
        response.command == request.command,
        response.arguments@ == request.payload(),
        response.raw@[5] == request.argument_len as u8,
        spec_crc(response.raw@) == response.raw@[88],
{
    let frame = request.frame();
    let sent = request.spec_encode();
    assert(sent.subrange(2, 88) =~= frame.subrange(2, 88));
    assert(RazerResponse::spec_arguments(sent) =~= request.payload());
}

/// The layout of an encoded request, byte by byte: status byte 0 and bytes
/// 2, 3, 4 and 89 are zero; byte 1 is the transaction id, byte 5 the argument
/// count, bytes 6 and 7 the command's class and id; bytes 8 to 87 hold the
/// first `argument_len` arguments followed by zeros; byte 88 is the XOR of
/// bytes 2 to 87 of the report itself.
pub proof fn lemma_encode_layout(request: RazerRequest)
    requires
        request.argument_len <= 80,
    ensures
        request.spec_encode().len() == 90,
        request.spec_encode()[0] == 0u8,
        request.spec_encode()[1] == request.transaction_id,
        request.spec_encode()[2] == 0u8,
        request.spec_encode()[3] == 0u8,
        request.spec_encode()[4] == 0u8,
        request.spec_encode()[5] == request.argument_len as u8,
        request.spec_encode()[6] == request.command.class,
        request.spec_encode()[7] == request.command.id,
        forall|j: int|
            0 <= j < 80 ==> #[trigger] request.spec_encode()[8 + j] == (if j < request.argument_len {
                request.arguments@[j]
            } else {
                0u8
            }),
        request.spec_encode()[88] == xor_all(request.spec_encode().subrange(2, 88)),
        request.spec_encode()[89] == 0u8,
{
    assert(request.spec_encode().subrange(2, 88) =~= request.frame().subrange(2, 88));
}

/// XOR-ing a sequence with a changed byte: the result changes by the old and
/// the new byte.
pub proof fn lemma_xor_all_update(bytes: Seq<u8>, k: int, value: u8)
    requires
        0 <= k < bytes.len(),
    ensures
        xor_all(bytes.update(k, value)) == xor_all(bytes) ^ bytes[k] ^ value,
    decreases bytes.len(),
{
    let updated = bytes.update(k, value);
    let a = xor_all(bytes.drop_last());
    let l = bytes.last();
    if k == bytes.len() - 1 {
        assert(updated.drop_last() =~= bytes.drop_last());
        assert((a ^ value) == (a ^ l) ^ l ^ value) by (bit_vector);
    } else {
        lemma_xor_all_update(bytes.drop_last(), k, value);
        assert(updated.drop_last() =~= bytes.drop_last().update(k, value));
        let b = bytes[k];
        assert(((a ^ b ^ value) ^ l) == (a ^ l) ^ b ^ value) by (bit_vector);
    }
}

/// The checksum covers exactly bytes 2 to 87: changing any one of them to a
/// different value changes the checksum, and changing byte 0, 1, 88 or 89
/// leaves it as it is.
pub proof fn lemma_crc_covers_bytes_2_to_87(report: Seq<u8>, k: int, value: u8)
    requires
        report.len() == 90,
        0 <= k < 90,
    ensures
        2 <= k < 88 && value != report[k] ==> spec_crc(report.update(k, value)) != spec_crc(report),
        (k < 2 || k >= 88) ==> spec_crc(report.update(k, value)) == spec_crc(report),
{
    if 2 <= k < 88 {
        assert(report.update(k, value).subrange(2, 88) =~= report.subrange(2, 88).update(
            k - 2,
            value,
        ));
        lemma_xor_all_update(report.subrange(2, 88), k - 2, value);
        let c = spec_crc(report);
        let b = report[k];
        assert(value != b ==> (c ^ b ^ value) != c) by (bit_vector);
    } else {
        assert(report.update(k, value).subrange(2, 88) =~= report.subrange(2, 88));
    }
}

/// The status byte decides the status: 0 new, 1 busy, 2 success, 3 failure,
/// 4 timeout, and every other byte an unknown status that keeps the byte.
pub proof fn lemma_status_bytes(value: u8)
    ensures
        (RazerStatus::spec_from_byte(value) == RazerStatus::New) <==> value == 0,
        (RazerStatus::spec_from_byte(value) == RazerStatus::Busy) <==> value == 1,
        (RazerStatus::spec_from_byte(value) == RazerStatus::Success) <==> value == 2,
        (RazerStatus::spec_from_byte(value) == RazerStatus::Failure) <==> value == 3,
        (RazerStatus::spec_from_byte(value) == RazerStatus::Timeout) <==> value == 4,
        value > 4 ==> RazerStatus::spec_from_byte(value) == RazerStatus::Unknown(value),
        value <= 4 ==> !(RazerStatus::spec_from_byte(value) is Unknown),
{
}

/// Each rate's wire byte is its polling interval in milliseconds: rate times
/// byte is 1000; the three rates are 125, 500 and 1000 Hz and their bytes differ.
pub proof fn lemma_rate_interval(rate: PollingRate, other: PollingRate)
    ensures
        rate.spec_hz() as int * rate.spec_protocol_value() as int == 1000,
        rate.spec_hz() == 125 || rate.spec_hz() == 500 || rate.spec_hz() == 1000,
        rate != other ==> rate.spec_hz() != other.spec_hz(),
        rate != other ==> rate.spec_protocol_value() != other.spec_protocol_value(),
{
}

} // verus!
