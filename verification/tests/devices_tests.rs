use razer::devices::deathadder_v3_hyperspeed::{
    find_control_interface, is_control_interface, is_wireless_product, HidInterfaceInfo,
};
use razer::devices::{
    catalog, Backend, BatteryStatus, ChargingState, ConnectionType, DeviceKind,
};
use razer::monitor::{
    battery_level, charging_text, connection_label, connection_text, find_entry, rate_button_label,
    rate_choices, shown_percentage, BatteryLevel, DeviceEntry,
};
use razer::{Battery, PollingRate};

fn info(vendor_id: u16, product_id: u16, interface_number: i32, usage_page: u16, usage: u16)
    -> HidInterfaceInfo {
    HidInterfaceInfo { vendor_id, product_id, interface_number, usage_page, usage }
}

#[test]
fn finds_first_control_interface() {
    let infos = vec![
        info(0x046d, 0x00c5, 0, 1, 2),
        info(0x1532, 0x00c4, 1, 1, 2),
        info(0x1532, 0x00c4, 0, 0x0c, 2),
        info(0x1532, 0x00c4, 0, 1, 6),
        info(0x1532, 0x00c5, 0, 1, 2),
        info(0x1532, 0x00c4, 0, 1, 2),
    ];
    assert_eq!(find_control_interface(&infos), Some((4, true)));
    assert_eq!(find_control_interface(&infos[5..].to_vec()), Some((0, false)));
    assert_eq!(find_control_interface(&infos[..4].to_vec()), None);
    assert!(!is_control_interface(&info(0x1532, 0x00c6, 0, 1, 2)));
    assert!(is_wireless_product(0x00c5));
    assert!(!is_wireless_product(0x00c4));
}

#[test]
fn catalog_lists_the_mouse() {
    let devices = catalog();
    assert_eq!(devices.len(), 1);
    assert_eq!(devices[0].brand, "Razer");
    assert_eq!(devices[0].model, "DeathAdder V3 HyperSpeed");
    assert_eq!(devices[0].kind, DeviceKind::Mouse);
    assert_eq!(devices[0].backend, Backend::DeathAdderV3HyperSpeed);
}

#[test]
fn battery_status_from_mouse_reading() {
    let battery = Battery::from_readings(200, razer::ChargingState::Charging);
    let status = BatteryStatus::from_battery(&battery, true);
    assert_eq!(status.percentage, 78);
    assert_eq!(status.raw, 200);
    assert_eq!(status.state, ChargingState::Charging);
    assert_eq!(status.connection, ConnectionType::Wireless2_4Ghz);
    let status = BatteryStatus::from_battery(
        &Battery::from_readings(3, razer::ChargingState::Discharging),
        false,
    );
    assert_eq!(status.state, ChargingState::Discharging);
    assert_eq!(status.connection, ConnectionType::Usb);
    assert_eq!(ChargingState::from(razer::ChargingState::Charging), ChargingState::Charging);
}

#[test]
fn battery_levels() {
    assert_eq!(battery_level(0), BatteryLevel::Low);
    assert_eq!(battery_level(20), BatteryLevel::Low);
    assert_eq!(battery_level(21), BatteryLevel::Medium);
    assert_eq!(battery_level(50), BatteryLevel::Medium);
    assert_eq!(battery_level(51), BatteryLevel::High);
    assert_eq!(battery_level(100), BatteryLevel::High);
}

#[test]
fn entry_follows_polling_events() {
    let descriptor = catalog()[0];
    let mut entry = DeviceEntry::new(7, &descriptor);
    assert_eq!(entry.brand, "Razer");
    assert!(!entry.connected);
    assert_eq!(connection_text(&entry), "Bağlı değil");

    entry.mark_open_failed("no device".to_string());
    assert_eq!(entry.error.as_deref(), Some("no device"));

    entry.mark_opened(true, Some(PollingRate::Hz1000));
    assert!(entry.connected);
    assert!(entry.error.is_none());
    assert_eq!(entry.polling_rate, Some(PollingRate::Hz1000));

    let status = BatteryStatus {
        percentage: 42,
        raw: 108,
        state: ChargingState::Charging,
        connection: ConnectionType::Wireless2_4Ghz,
    };
    assert!(entry.record_poll(Ok(status)));
    assert_eq!(connection_text(&entry), "Bağlı (2.4GHz)");
    assert_eq!(charging_text(entry.battery), "Şarj oluyor");
    assert_eq!(shown_percentage(entry.battery), 42);

    entry.request_rate_change();
    assert!(entry.applying_rate);
    entry.finish_rate_change(PollingRate::Hz125, Err("busy".to_string()));
    assert!(!entry.applying_rate);
    assert_eq!(entry.polling_rate, Some(PollingRate::Hz1000));
    assert_eq!(entry.error.as_deref(), Some("busy"));
    entry.finish_rate_change(PollingRate::Hz125, Ok(()));
    assert_eq!(entry.polling_rate, Some(PollingRate::Hz125));
    assert!(entry.error.is_none());

    assert!(!entry.record_poll(Err("gone".to_string())));
    assert!(!entry.connected);
    assert_eq!(entry.battery, Some(status));
    assert_eq!(connection_text(&entry), "Bağlı değil");
    assert_eq!(charging_text(None), "Şarjda değil");
    assert_eq!(shown_percentage(None), 0);
}

#[test]
fn entries_are_found_by_id() {
    let descriptor = catalog()[0];
    let entries = vec![
        DeviceEntry::new(3, &descriptor),
        DeviceEntry::new(5, &descriptor),
        DeviceEntry::new(5, &descriptor),
    ];
    assert_eq!(find_entry(&entries, 5), Some(1));
    assert_eq!(find_entry(&entries, 3), Some(0));
    assert_eq!(find_entry(&entries, 4), None);
}

#[test]
fn rate_buttons() {
    assert_eq!(rate_choices(), vec![PollingRate::Hz125, PollingRate::Hz500, PollingRate::Hz1000]);
    assert_eq!(rate_button_label(PollingRate::Hz500, true, true), "...");
    assert_eq!(rate_button_label(PollingRate::Hz500, false, true), "500 Hz");
    assert_eq!(rate_button_label(PollingRate::Hz1000, true, false), "1000 Hz");
    assert_eq!(connection_label(ConnectionType::Unknown), "Bilinmiyor");
    assert_eq!(connection_label(ConnectionType::Usb), "USB");
}

use razer::monitor::{
    first_action, next_action, rate_button, rate_card_note, MonitorAction, MonitorEvent,
    REOPEN_DELAY_MILLIS, TICKS_PER_POLL,
};

#[test]
fn rate_buttons_of_an_entry() {
    let descriptor = catalog()[0];
    let mut entry = DeviceEntry::new(1, &descriptor);
    entry.mark_opened(true, Some(PollingRate::Hz500));
    let button = rate_button(&entry, PollingRate::Hz500);
    assert!(button.highlighted);
    assert!(button.enabled);
    assert_eq!(button.label, "500 Hz");
    assert!(!rate_button(&entry, PollingRate::Hz125).highlighted);
    assert_eq!(rate_card_note(&entry), None);
    entry.request_rate_change();
    let button = rate_button(&entry, PollingRate::Hz500);
    assert!(!button.enabled);
    assert_eq!(button.label, "...");
    let other = rate_button(&entry, PollingRate::Hz1000);
    assert!(!other.enabled);
    assert_eq!(other.label, "1000 Hz");
    assert_eq!(rate_card_note(&entry), Some("Uygulanıyor..."));
}

/// Runs the polling task's decisions over a script of events.
#[test]
fn polling_task_reopens_and_applies_pending_rate_first() {
    assert_eq!(first_action(), MonitorAction::Open { delay_millis: 0 });
    assert_eq!(
        next_action(MonitorEvent::OpenFailed, None),
        MonitorAction::Open { delay_millis: REOPEN_DELAY_MILLIS }
    );
    assert_eq!(REOPEN_DELAY_MILLIS, 1000);
    assert_eq!(next_action(MonitorEvent::Opened, None), MonitorAction::Poll);
    assert_eq!(
        next_action(MonitorEvent::Opened, Some(PollingRate::Hz125)),
        MonitorAction::ApplyRate(PollingRate::Hz125)
    );
    assert_eq!(
        next_action(MonitorEvent::RateApplied, Some(PollingRate::Hz500)),
        MonitorAction::Poll
    );
    assert_eq!(next_action(MonitorEvent::PollSucceeded, None), MonitorAction::Wait { ticks: 0 });
    let mut waits = 0;
    let mut action = next_action(MonitorEvent::PollSucceeded, None);
    while let MonitorAction::Wait { ticks } = action {
        waits += 1;
        action = next_action(MonitorEvent::Ticked { ticks: ticks + 1 }, None);
    }
    assert_eq!(waits, TICKS_PER_POLL);
    assert_eq!(action, MonitorAction::Poll);
    assert_eq!(
        next_action(MonitorEvent::Ticked { ticks: 3 }, Some(PollingRate::Hz1000)),
        MonitorAction::ApplyRate(PollingRate::Hz1000)
    );
    assert_eq!(
        next_action(MonitorEvent::PollFailed, None),
        MonitorAction::Open { delay_millis: 1000 }
    );
}
