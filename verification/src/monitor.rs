//! What the desktop monitor shows of each added device, and how that state
//! follows the events of the device's polling task.

use vstd::prelude::*;

use crate::devices::{BatteryStatus, ChargingState, ConnectionType, DeviceDescriptor, DeviceKind};
use crate::protocol::PollingRate;

verus! {

/// How full a battery is shown: red up to 20 %, amber up to 50 %, green above.
#[derive(Debug, Clone, Copy, PartialEq, Eq, Structural)]
pub enum BatteryLevel {
    Low,
    Medium,
    High,
}

pub open spec fn spec_battery_level(percentage: u8) -> BatteryLevel {
    if percentage <= 20 {
        BatteryLevel::Low
    } else if percentage <= 50 {
        BatteryLevel::Medium
    } else {
        BatteryLevel::High
    }
}

pub fn battery_level(percentage: u8) -> (level: BatteryLevel)
    ensures
        level == spec_battery_level(percentage),
{
    if percentage <= 20 {
        BatteryLevel::Low
    } else if percentage <= 50 {
        BatteryLevel::Medium
    } else {
        BatteryLevel::High
    }
}

/// A fuller battery is never shown at a lower level.
pub proof fn lemma_battery_level_monotone(low: u8, high: u8)
    requires
        low <= high,
    ensures
        spec_battery_level(low) == BatteryLevel::High ==> spec_battery_level(high)
            == BatteryLevel::High,
        spec_battery_level(high) == BatteryLevel::Low ==> spec_battery_level(low)
            == BatteryLevel::Low,
{
}

/// The name under which a connection is shown.
pub open spec fn spec_connection_label(connection: ConnectionType) -> Seq<char> {
    match connection {
        ConnectionType::Usb => "USB"@,
        ConnectionType::Wireless2_4Ghz => "2.4GHz"@,
        ConnectionType::Bluetooth => "Bluetooth"@,
        ConnectionType::Unknown => "Bilinmiyor"@,
    }
}

pub fn connection_label(connection: ConnectionType) -> (label: &'static str)
    ensures
        label@ == spec_connection_label(connection),
{
    match connection {
        ConnectionType::Usb => "USB",
        ConnectionType::Wireless2_4Ghz => "2.4GHz",
        ConnectionType::Bluetooth => "Bluetooth",
        ConnectionType::Unknown => "Bilinmiyor",
    }
}

/// The state of one added device as the monitor shows it.
#[derive(Debug, Clone)]
pub struct DeviceEntry {
    pub id: u64,
    pub brand: String,
    pub model: String,
    pub kind: DeviceKind,
    pub connected: bool,
    pub battery: Option<BatteryStatus>,
    pub error: Option<String>,
    pub supports_polling_rate: bool,
    pub polling_rate: Option<PollingRate>,
    /// True while a polling-rate change is being applied.
    pub applying_rate: bool,
}

impl DeviceEntry {
    /// A new entry for a catalogued device: not yet connected, with nothing known.
    pub fn new(id: u64, descriptor: &DeviceDescriptor) -> (entry: DeviceEntry)
        ensures
            entry.id == id,
            entry.brand@ == descriptor.brand@,
            entry.model@ == descriptor.model@,
            entry.kind == descriptor.kind,
            !entry.connected,
            entry.battery is None,
            entry.error is None,
            !entry.supports_polling_rate,
            entry.polling_rate is None,
            !entry.applying_rate,
    {
        DeviceEntry {
            id,
            brand: String::from_str(descriptor.brand),
            model: String::from_str(descriptor.model),
            kind: descriptor.kind,
            connected: false,
            battery: None,
            error: None,
            supports_polling_rate: false,
            polling_rate: None,
            applying_rate: false,
        }
    }

    /// The entry after the device was opened: connected, error cleared, with
    /// what it supports and its current rate recorded.
    pub open spec fn spec_opened(self, supports_rate: bool, initial_rate: Option<PollingRate>) -> DeviceEntry {
        DeviceEntry {
            connected: true,
            error: None,
            supports_polling_rate: supports_rate,
            polling_rate: initial_rate,
            ..self
        }
    }

    /// The entry after opening failed: disconnected, with the message shown.
    pub open spec fn spec_open_failed(self, message: String) -> DeviceEntry {
        DeviceEntry { connected: false, error: Some(message), ..self }
    }

    /// The entry while a polling-rate change is applied.
    pub open spec fn spec_rate_requested(self) -> DeviceEntry {
        DeviceEntry { applying_rate: true, ..self }
    }

    /// The entry after a polling-rate change ended: on success the new rate is
    /// shown and the error cleared; on failure the message is shown and the
    /// rate kept.
    pub open spec fn spec_rate_finished(self, rate: PollingRate, outcome: Result<(), String>) -> DeviceEntry {
        match outcome {
            Ok(()) => DeviceEntry {
                applying_rate: false,
                polling_rate: Some(rate),
                error: None,
                ..self
            },
            Err(message) => DeviceEntry { applying_rate: false, error: Some(message), ..self },
        }
    }

    /// The entry after a battery poll: a report is shown with the device
    /// connected; a failure shows the device disconnected with the message,
    /// keeping the last report.
    pub open spec fn spec_polled(self, result: Result<BatteryStatus, String>) -> DeviceEntry {
        match result {
            Ok(status) => DeviceEntry {
                connected: true,
                battery: Some(status),
                error: None,
                ..self
            },
            Err(message) => DeviceEntry { connected: false, error: Some(message), ..self },
        }
    }

    /// The device was opened.
    pub fn mark_opened(&mut self, supports_rate: bool, initial_rate: Option<PollingRate>)
        ensures
            *final(self) == old(self).spec_opened(supports_rate, initial_rate),
    {
        self.connected = true;
        self.error = None;
        self.supports_polling_rate = supports_rate;
        self.polling_rate = initial_rate;
    }

    /// Opening the device failed.
    pub fn mark_open_failed(&mut self, message: String)
        ensures
            *final(self) == old(self).spec_open_failed(message),
    {
        self.connected = false;
        self.error = Some(message);
    }

    /// A polling-rate change was asked for.
    pub fn request_rate_change(&mut self)
        ensures
            *final(self) == old(self).spec_rate_requested(),
    {
        self.applying_rate = true;
    }

    /// A polling-rate change ended.
    pub fn finish_rate_change(&mut self, rate: PollingRate, outcome: Result<(), String>)
        ensures
            *final(self) == old(self).spec_rate_finished(rate, outcome),
    {
        self.applying_rate = false;
        match outcome {
            Ok(()) => {
                self.polling_rate = Some(rate);
                self.error = None;
            },
            Err(message) => {
                self.error = Some(message);
            },
        }
    }

    /// A battery poll ended. Polling of this connection goes on after a report
    /// and stops after a failure (the result is false).
    pub fn record_poll(&mut self, result: Result<BatteryStatus, String>) -> (keep_polling: bool)
        ensures
            *final(self) == old(self).spec_polled(result),
            keep_polling == (result is Ok),
    {
        match result {
            Ok(status) => {
                self.connected = true;
                self.battery = Some(status);
                self.error = None;
                true
            },
            Err(message) => {
                self.connected = false;
                self.error = Some(message);
                false
            },
        }
    }
}

/// The position of the first entry with the given id.
pub fn find_entry(entries: &Vec<DeviceEntry>, id: u64) -> (index: Option<usize>)
    ensures
        match index {
            Some(i) => i < entries@.len() && entries@[i as int].id == id && forall|j: int|
                0 <= j < i ==> #[trigger] entries@[j].id != id,
            None => forall|j: int| 0 <= j < entries@.len() ==> #[trigger] entries@[j].id != id,
        },
{
    let mut i: usize = 0;
    while i < entries.len()
        invariant
            i <= entries@.len(),
            forall|j: int| 0 <= j < i ==> #[trigger] entries@[j].id != id,
        decreases entries@.len() - i,
    {
        if entries[i].id == id {
            return Some(i);
        }
        i = i + 1;
    }
    None
}

/// True when the battery report says the device is charging.
pub open spec fn spec_shows_charging(battery: Option<BatteryStatus>) -> bool {
    battery matches Some(status) && status.state == ChargingState::Charging
}

pub fn shows_charging(battery: Option<BatteryStatus>) -> (charging: bool)
    ensures
        charging == spec_shows_charging(battery),
{
    match battery {
        Some(status) => match status.state {
            ChargingState::Charging => true,
            _ => false,
        },
        None => false,
    }
}

/// The percentage shown on the battery card: 0 until a report arrives.
pub fn shown_percentage(battery: Option<BatteryStatus>) -> (percentage: u8)
    ensures
        percentage == (match battery {
            Some(status) => status.percentage,
            None => 0u8,
        }),
{
    match battery {
        Some(status) => status.percentage,
        None => 0,
    }
}

/// The connection shown for an entry: the reported one while connected with a
/// battery report, else none (shown as not connected).
pub open spec fn spec_shown_connection(entry: DeviceEntry) -> Option<ConnectionType> {
    match entry.battery {
        Some(status) => if entry.connected {
            Some(status.connection)
        } else {
            None
        },
        None => None,
    }
}

pub fn shown_connection(entry: &DeviceEntry) -> (connection: Option<ConnectionType>)
    ensures
        connection == spec_shown_connection(*entry),
{
    match entry.battery {
        Some(status) => if entry.connected {
            Some(status.connection)
        } else {
            None
        },
        None => None,
    }
}

/// The connection line of the status card.
pub open spec fn spec_connection_text(entry: DeviceEntry) -> Seq<char> {
    match spec_shown_connection(entry) {
        Some(connection) => "Bağlı ("@ + spec_connection_label(connection) + ")"@,
        None => "Bağlı değil"@,
    }
}

pub fn connection_text(entry: &DeviceEntry) -> (text: String)
    ensures
        text@ == spec_connection_text(*entry),
{
    match shown_connection(entry) {
        Some(connection) => {
            let text = String::from_str("Bağlı (");
            let text = text.concat(connection_label(connection));
            text.concat(")")
        },
        None => String::from_str("Bağlı değil"),
    }
}

/// The charging line of the status card.
pub fn charging_text(battery: Option<BatteryStatus>) -> (text: &'static str)
    ensures
        text@ == (if spec_shows_charging(battery) {
            "Şarj oluyor"@
        } else {
            "Şarjda değil"@
        }),
{
    if shows_charging(battery) {
        "Şarj oluyor"
    } else {
        "Şarjda değil"
    }
}

/// The label of a polling-rate choice.
pub open spec fn spec_rate_label(rate: PollingRate) -> Seq<char> {
    match rate {
        PollingRate::Hz125 => "125 Hz"@,
        PollingRate::Hz500 => "500 Hz"@,
        PollingRate::Hz1000 => "1000 Hz"@,
    }
}

/// The polling-rate choices in the order they are shown.
pub fn rate_choices() -> (choices: Vec<PollingRate>)
    ensures
        choices@ == seq![PollingRate::Hz125, PollingRate::Hz500, PollingRate::Hz1000],
{
    let mut choices: Vec<PollingRate> = Vec::new();
    choices.push(PollingRate::Hz125);
    choices.push(PollingRate::Hz500);
    choices.push(PollingRate::Hz1000);
    choices
}

/// The caption of a polling-rate button: `...` on the selected rate while a
/// change is applied, else the rate's label.
pub fn rate_button_label(rate: PollingRate, selected: bool, applying: bool) -> (label: &'static str)
    ensures
        label@ == (if applying && selected {
            "..."@
        } else {
            spec_rate_label(rate)
        }),
{
    if applying && selected {
        "..."
    } else {
        match rate {
            PollingRate::Hz125 => "125 Hz",
            PollingRate::Hz500 => "500 Hz",
            PollingRate::Hz1000 => "1000 Hz",
        }
    }
}

/// How a polling-rate button is shown.
#[derive(Debug, Clone, Copy, PartialEq, Eq)]
pub struct RateButton {
    /// The rate is the device's current one.
    pub highlighted: bool,
    /// The button can be clicked: no change is being applied.
    pub enabled: bool,
    pub label: &'static str,
}

/// The button of a rate on an entry's polling-rate card: highlighted when it
/// is the current rate, disabled while a change is applied, and captioned
/// `...` when both hold.
pub fn rate_button(entry: &DeviceEntry, rate: PollingRate) -> (button: RateButton)
    ensures
        button.highlighted == (entry.polling_rate == Some(rate)),
        button.enabled == !entry.applying_rate,
        button.label@ == (if entry.applying_rate && button.highlighted {
            "..."@
        } else {
            spec_rate_label(rate)
        }),
{
    let highlighted: bool = match entry.polling_rate {
        Some(current) => current == rate,
        None => false,
    };
    let applying: bool = entry.applying_rate;
    RateButton {
        highlighted,
        enabled: !applying,
        label: rate_button_label(rate, highlighted, applying),
    }
}

/// The note under the polling-rate buttons: `Uygulanıyor...` while a change
/// is applied, none otherwise.
pub fn rate_card_note(entry: &DeviceEntry) -> (note: Option<&'static str>)
    ensures
        note is Some <==> entry.applying_rate,
        note matches Some(text) ==> text@ == "Uygulanıyor..."@,
{
    if entry.applying_rate {
        Some("Uygulanıyor...")
    } else {
        None
    }
}

/// How long the polling task waits before reopening a device that failed.
pub const REOPEN_DELAY_MILLIS: u64 = 1000;

/// How long one wait between battery polls lasts.
pub const TICK_MILLIS: u64 = 100;

/// How many waits pass between battery polls when no rate change is asked for.
pub const TICKS_PER_POLL: u32 = 10;

/// What the polling task of a device reports after each piece of work.
#[derive(Debug, Clone, Copy, PartialEq, Eq, Structural)]
pub enum MonitorEvent {
    /// Opening the device failed.
    OpenFailed,
    /// The device was opened and its initial rate read.
    Opened,
    /// A polling-rate change was applied, successfully or not.
    RateApplied,
    /// A battery poll returned a report.
    PollSucceeded,
    /// A battery poll failed.
    PollFailed,
    /// A wait between polls ended; `ticks` waits have passed since the last poll.
    Ticked { ticks: u32 },
}

/// What the polling task of a device does next.
#[derive(Debug, Clone, Copy, PartialEq, Eq, Structural)]
pub enum MonitorAction {
    /// Wait `delay_millis`, then open the device (and read its initial rate).
    Open { delay_millis: u64 },
    /// Take the pending rate and apply it to the device.
    ApplyRate(PollingRate),
    /// Poll the battery.
    Poll,
    /// Wait `TICK_MILLIS`, then report `Ticked { ticks: ticks + 1 }`; `ticks`
    /// waits have passed since the last poll.
    Wait { ticks: u32 },
}

/// The first action of a polling task: open the device at once.
pub fn first_action() -> (action: MonitorAction)
    ensures
        action == (MonitorAction::Open { delay_millis: 0 }),
{
    MonitorAction::Open { delay_millis: 0 }
}

/// What starts a round of polling: a pending rate change first, else a battery poll.
pub open spec fn spec_round_start(pending: Option<PollingRate>) -> MonitorAction {
    match pending {
        Some(rate) => MonitorAction::ApplyRate(rate),
        None => MonitorAction::Poll,
    }
}

/// The next action after an event, given the rate change pending at that moment.
/// A failed open or a failed poll leads to reopening after `REOPEN_DELAY_MILLIS`,
/// without limit. An open device starts a round: a pending rate is applied,
/// then the battery is polled. After a report the task waits in ticks of
/// `TICK_MILLIS`, up to `TICKS_PER_POLL`, and starts the next round early as
/// soon as a rate change is pending.
pub open spec fn spec_next_action(event: MonitorEvent, pending: Option<PollingRate>) -> MonitorAction {
    match event {
        MonitorEvent::OpenFailed => MonitorAction::Open { delay_millis: REOPEN_DELAY_MILLIS },
        MonitorEvent::PollFailed => MonitorAction::Open { delay_millis: REOPEN_DELAY_MILLIS },
        MonitorEvent::Opened => spec_round_start(pending),
        MonitorEvent::RateApplied => MonitorAction::Poll,
        MonitorEvent::PollSucceeded => MonitorAction::Wait { ticks: 0 },
        MonitorEvent::Ticked { ticks } => if pending is Some || ticks >= TICKS_PER_POLL {
            spec_round_start(pending)
        } else {
            MonitorAction::Wait { ticks }
        },
    }
}

/// Decides what the polling task of a device does after an event.
pub fn next_action(event: MonitorEvent, pending: Option<PollingRate>) -> (action: MonitorAction)
    ensures
        action == spec_next_action(event, pending),
{
    let start = match pending {
        Some(rate) => MonitorAction::ApplyRate(rate),
        None => MonitorAction::Poll,
    };
    match event {
        MonitorEvent::OpenFailed => MonitorAction::Open { delay_millis: REOPEN_DELAY_MILLIS },
        MonitorEvent::PollFailed => MonitorAction::Open { delay_millis: REOPEN_DELAY_MILLIS },
        MonitorEvent::Opened => start,
        MonitorEvent::RateApplied => MonitorAction::Poll,
        MonitorEvent::PollSucceeded => MonitorAction::Wait { ticks: 0 },
        MonitorEvent::Ticked { ticks } => {
            if pending.is_some() || ticks >= TICKS_PER_POLL {
                start
            } else {
                MonitorAction::Wait { ticks }
            }
        },
    }
}

/// A device that fails, to open or to poll, is shown disconnected with the
/// message and reopened after `REOPEN_DELAY_MILLIS`, however often it fails;
/// once it opens and a poll succeeds it is shown connected with the report
/// and no error.
pub proof fn lemma_reconnect(
    entry: DeviceEntry,
    message: String,
    pending: Option<PollingRate>,
    supports_rate: bool,
    initial_rate: Option<PollingRate>,
    status: BatteryStatus,
)
    ensures
        REOPEN_DELAY_MILLIS == 1000,
        spec_next_action(MonitorEvent::OpenFailed, pending) == (MonitorAction::Open {
            delay_millis: REOPEN_DELAY_MILLIS,
        }),
        spec_next_action(MonitorEvent::PollFailed, pending) == (MonitorAction::Open {
            delay_millis: REOPEN_DELAY_MILLIS,
        }),
        !entry.spec_open_failed(message).connected,
        entry.spec_open_failed(message).error == Some(message),
        !entry.spec_polled(Err(message)).connected,
        entry.spec_polled(Err(message)).error == Some(message),
        ({
            let back = entry.spec_open_failed(message).spec_opened(supports_rate, initial_rate).spec_polled(
                Ok(status),
            );
            &&& back.connected
            &&& back.battery == Some(status)
            &&& back.error is None
        }),
{
}

/// A pending rate change is applied at the start of the next round, before
/// the next battery poll: right after the device opens, or after the current
/// wait ends. It is applied once: applying leads to a poll, whatever is
/// pending then. Without a pending change a round is a poll every
/// `TICKS_PER_POLL` waits. The outcome of the change is shown when it ends.
pub proof fn lemma_pending_rate_applied_once(
    rate: PollingRate,
    ticks: u32,
    pending: Option<PollingRate>,
    entry: DeviceEntry,
    message: String,
)
    ensures
        spec_next_action(MonitorEvent::Opened, Some(rate)) == MonitorAction::ApplyRate(rate),
        spec_next_action(MonitorEvent::Ticked { ticks }, Some(rate)) == MonitorAction::ApplyRate(
            rate,
        ),
        spec_next_action(MonitorEvent::RateApplied, pending) == MonitorAction::Poll,
        spec_next_action(MonitorEvent::Opened, None) == MonitorAction::Poll,
        TICK_MILLIS == 100,
        TICKS_PER_POLL == 10,
        spec_next_action(MonitorEvent::PollSucceeded, pending) == (MonitorAction::Wait { ticks: 0 }),
        ticks < TICKS_PER_POLL ==> spec_next_action(MonitorEvent::Ticked { ticks }, None) == (
        MonitorAction::Wait { ticks }),
        ticks >= TICKS_PER_POLL ==> spec_next_action(MonitorEvent::Ticked { ticks }, None)
            == MonitorAction::Poll,
        ({
            let done = entry.spec_rate_requested().spec_rate_finished(rate, Ok(()));
            &&& !done.applying_rate
            &&& done.polling_rate == Some(rate)
            &&& done.error is None
        }),
        ({
            let failed = entry.spec_rate_requested().spec_rate_finished(rate, Err(message));
            &&& !failed.applying_rate
            &&& failed.polling_rate == entry.polling_rate
            &&& failed.error == Some(message)
        }),
{
}

/// What each event does to an entry, field by field. The device shown (id,
/// brand, model, kind) never changes. Opening sets connected, clears the
/// error and records whether the device supports polling-rate control and
/// its current rate. A failed open or poll sets disconnected and shows the
/// message, keeping everything else. A change request sets applying; its end
/// clears applying and, on success, shows the new rate and clears the error,
/// on failure shows the message and keeps the rate. A successful poll sets
/// connected, shows the report and clears the error.
pub proof fn lemma_entry_transitions(
    entry: DeviceEntry,
    supports_rate: bool,
    initial_rate: Option<PollingRate>,
    message: String,
    rate: PollingRate,
    status: BatteryStatus,
)
    ensures
        ({
            let e = entry.spec_opened(supports_rate, initial_rate);
            &&& e.id == entry.id && e.brand == entry.brand && e.model == entry.model && e.kind
                == entry.kind
            &&& e.connected
            &&& e.error is None
            &&& e.supports_polling_rate == supports_rate
            &&& e.polling_rate == initial_rate
            &&& e.battery == entry.battery
            &&& e.applying_rate == entry.applying_rate
        }),
        ({
            let e = entry.spec_open_failed(message);
            &&& e.id == entry.id && e.brand == entry.brand && e.model == entry.model && e.kind
                == entry.kind
            &&& !e.connected
            &&& e.error == Some(message)
            &&& e.supports_polling_rate == entry.supports_polling_rate
            &&& e.polling_rate == entry.polling_rate
            &&& e.battery == entry.battery
            &&& e.applying_rate == entry.applying_rate
        }),
        ({
            let e = entry.spec_rate_requested();
            &&& e.id == entry.id && e.brand == entry.brand && e.model == entry.model && e.kind
                == entry.kind
            &&& e.applying_rate
            &&& e.connected == entry.connected
            &&& e.error == entry.error
            &&& e.supports_polling_rate == entry.supports_polling_rate
            &&& e.polling_rate == entry.polling_rate
            &&& e.battery == entry.battery
        }),
        ({
            let e = entry.spec_rate_finished(rate, Ok(()));
            &&& e.id == entry.id && e.brand == entry.brand && e.model == entry.model && e.kind
                == entry.kind
            &&& !e.applying_rate
            &&& e.polling_rate == Some(rate)
            &&& e.error is None
            &&& e.connected == entry.connected
            &&& e.supports_polling_rate == entry.supports_polling_rate
            &&& e.battery == entry.battery
        }),
        ({
            let e = entry.spec_rate_finished(rate, Err(message));
            &&& e.id == entry.id && e.brand == entry.brand && e.model == entry.model && e.kind
                == entry.kind
            &&& !e.applying_rate
            &&& e.polling_rate == entry.polling_rate
            &&& e.error == Some(message)
            &&& e.connected == entry.connected
            &&& e.supports_polling_rate == entry.supports_polling_rate
            &&& e.battery == entry.battery
        }),
        ({
            let e = entry.spec_polled(Ok(status));
            &&& e.id == entry.id && e.brand == entry.brand && e.model == entry.model && e.kind
                == entry.kind
            &&& e.connected
            &&& e.battery == Some(status)
            &&& e.error is None
            &&& e.supports_polling_rate == entry.supports_polling_rate
            &&& e.polling_rate == entry.polling_rate
            &&& e.applying_rate == entry.applying_rate
        }),
        ({
            let e = entry.spec_polled(Err(message));
            &&& e.id == entry.id && e.brand == entry.brand && e.model == entry.model && e.kind
                == entry.kind
            &&& !e.connected
            &&& e.battery == entry.battery
            &&& e.error == Some(message)
            &&& e.supports_polling_rate == entry.supports_polling_rate
            &&& e.polling_rate == entry.polling_rate
            &&& e.applying_rate == entry.applying_rate
        }),
{
}

/// A device is shown charging exactly when it has a report whose state is
/// `Charging`: never without a report, never for a discharging or unknown
/// state. For the mouse, that is exactly when its battery reading is charging.
pub proof fn lemma_shows_charging(status: BatteryStatus, battery: crate::battery::Battery, wireless: bool)
    ensures
        !spec_shows_charging(None),
        spec_shows_charging(Some(status)) <==> status.state == ChargingState::Charging,
        status.state == ChargingState::Discharging ==> !spec_shows_charging(Some(status)),
        status.state == ChargingState::Unknown ==> !spec_shows_charging(Some(status)),
        ({
            let reported = BatteryStatus {
                percentage: battery.percentage,
                raw: battery.raw,
                state: ChargingState::spec_from_battery_state(battery.state),
                connection: crate::devices::spec_connection(wireless),
            };
            spec_shows_charging(Some(reported)) <==> battery.state
                == crate::battery::ChargingState::Charging
        }),
{
}

/// The battery colour thresholds: low up to 20 %, medium from 21 % to 50 %,
/// high from 51 %.
pub proof fn lemma_battery_level_thresholds(percentage: u8)
    ensures
        (spec_battery_level(percentage) == BatteryLevel::Low) <==> percentage <= 20,
        (spec_battery_level(percentage) == BatteryLevel::Medium) <==> 20 < percentage <= 50,
        (spec_battery_level(percentage) == BatteryLevel::High) <==> percentage > 50,
{
}

/// A rate button's label is the rate in hertz written in decimal, then ` Hz`.
pub proof fn lemma_rate_label(rate: PollingRate)
    ensures
        spec_rate_label(rate) == crate::cli::spec_decimal(rate.spec_hz() as nat) + " Hz"@,
{
    crate::cli::lemma_rate_text_roundtrip(rate);
    reveal_strlit("125");
    reveal_strlit("500");
    reveal_strlit("1000");
    reveal_strlit(" Hz");
    reveal_strlit("125 Hz");
    reveal_strlit("500 Hz");
    reveal_strlit("1000 Hz");
    assert("125 Hz"@ =~= "125"@ + " Hz"@);
    assert("500 Hz"@ =~= "500"@ + " Hz"@);
    assert("1000 Hz"@ =~= "1000"@ + " Hz"@);
}

/// The connection line names the reported connection while the device is
/// connected with a report, and says it is not connected otherwise.
pub proof fn lemma_connection_text(entry: DeviceEntry)
    ensures
        !entry.connected ==> spec_connection_text(entry) == "Bağlı değil"@,
        entry.battery is None ==> spec_connection_text(entry) == "Bağlı değil"@,
        entry.connected && entry.battery is Some ==> spec_connection_text(entry) == "Bağlı ("@
            + spec_connection_label(entry.battery->0.connection) + ")"@,
{
}

/// Each connection has its own name: `USB`, `2.4GHz`, `Bluetooth`, and
/// `Bilinmiyor` for an unknown one.
pub proof fn lemma_connection_labels(connection: ConnectionType, other: ConnectionType)
    ensures
        connection == ConnectionType::Usb ==> spec_connection_label(connection) == "USB"@,
        connection == ConnectionType::Wireless2_4Ghz ==> spec_connection_label(connection)
            == "2.4GHz"@,
        connection == ConnectionType::Bluetooth ==> spec_connection_label(connection)
            == "Bluetooth"@,
        connection == ConnectionType::Unknown ==> spec_connection_label(connection)
            == "Bilinmiyor"@,
        connection != other ==> spec_connection_label(connection) != spec_connection_label(other),
{
    reveal_strlit("USB");
    reveal_strlit("2.4GHz");
    reveal_strlit("Bluetooth");
    reveal_strlit("Bilinmiyor");
    assert("USB"@.len() != "2.4GHz"@.len());
    assert("USB"@.len() != "Bluetooth"@.len());
    assert("USB"@.len() != "Bilinmiyor"@.len());
    assert("2.4GHz"@.len() != "Bluetooth"@.len());
    assert("2.4GHz"@.len() != "Bilinmiyor"@.len());
    assert("Bluetooth"@[1] != "Bilinmiyor"@[1]);
}

} // verus!
