use ble_led::address::Address;
use ble_led::characteristic::{select_write_characteristic, CharacteristicRef};
use ble_led::errors::Error;
use ble_led::locator::{locate, scan_wait_secs, select_adapter, PeripheralInfo};
use ble_led::profile::ProtocolProfile;

fn addr(octets: [u8; 6]) -> Address {
    Address::new(octets)
}

#[test]
fn parse_canonical_mac_text() {
    let text = b"BE:32:03:82:3C:B1".to_vec();
    let a = Address::parse(&text).expect("canonical text parses");
    assert_eq!(a.octets, [0xBE, 0x32, 0x03, 0x82, 0x3C, 0xB1]);
}

#[test]
fn parse_accepts_lower_case_digits() {
    let text = b"be:32:03:82:3c:b1".to_vec();
    let a = Address::parse(&text).expect("lower-case text parses");
    assert_eq!(a.octets, [0xBE, 0x32, 0x03, 0x82, 0x3C, 0xB1]);
}

#[test]
fn parse_rejects_malformed_text() {
    assert!(Address::parse(&b"BE:32:03:82:3C".to_vec()).is_none());
    assert!(Address::parse(&b"BE:32:03:82:3C:B1:00".to_vec()).is_none());
    assert!(Address::parse(&b"BE-32-03-82-3C-B1".to_vec()).is_none());
    assert!(Address::parse(&b"BE:32:0G:82:3C:B1".to_vec()).is_none());
    assert!(Address::parse(&b"".to_vec()).is_none());
}

#[test]
fn address_equality_is_by_octets() {
    let a = addr([1, 2, 3, 4, 5, 6]);
    let b = addr([1, 2, 3, 4, 5, 6]);
    let c = addr([1, 2, 3, 4, 5, 7]);
    assert!(a.same_as(&b));
    assert!(!a.same_as(&c));
}

#[test]
fn adapter_selection_requires_one_adapter() {
    assert_eq!(select_adapter(0), Err(Error::AdapterUnavailable));
    assert_eq!(select_adapter(1), Ok(0));
    assert_eq!(select_adapter(3), Ok(0));
}

#[test]
fn scan_wait_is_five_seconds_gated_three_plain() {
    assert_eq!(scan_wait_secs(ProtocolProfile::ProtocolA), 5);
    assert_eq!(scan_wait_secs(ProtocolProfile::ProtocolB), 3);
}

#[test]
fn locate_rejects_weak_signal_under_protocol_a() {
    let target = addr([0xBE, 0x32, 0x03, 0x82, 0x3C, 0xB1]);
    let ps = vec![PeripheralInfo { address: target, rssi_dbm: Some(-95) }];
    let r = locate(ProtocolProfile::ProtocolA, &ps, &target, true);
    assert_eq!(r, Err(Error::SignalTooWeak));
}

#[test]
fn locate_accepts_adequate_signal_under_protocol_a() {
    let target = addr([0xBE, 0x32, 0x03, 0x82, 0x3C, 0xB1]);
    let ps = vec![PeripheralInfo { address: target, rssi_dbm: Some(-85) }];
    let r = locate(ProtocolProfile::ProtocolA, &ps, &target, true);
    assert_eq!(r, Ok(0));
}

#[test]
fn locate_treats_missing_rssi_as_weak() {
    let target = addr([0xBE, 0x32, 0x03, 0x82, 0x3C, 0xB1]);
    let ps = vec![PeripheralInfo { address: target, rssi_dbm: None }];
    let r = locate(ProtocolProfile::ProtocolA, &ps, &target, true);
    assert_eq!(r, Err(Error::SignalTooWeak));
}

#[test]
fn locate_gates_only_scanned_discoveries() {
    let target = addr([0xBE, 0x32, 0x03, 0x82, 0x3C, 0xB1]);
    let ps = vec![PeripheralInfo { address: target, rssi_dbm: Some(-95) }];
    // Already-known peripherals are not gated.
    assert_eq!(locate(ProtocolProfile::ProtocolA, &ps, &target, false), Ok(0));
    // ProtocolB never gates.
    assert_eq!(locate(ProtocolProfile::ProtocolB, &ps, &target, true), Ok(0));
}

#[test]
fn locate_reports_absence_as_device_not_found() {
    let target = addr([0xBE, 0x32, 0x03, 0x82, 0x3C, 0xB1]);
    let other = addr([0x01, 0x02, 0x03, 0x04, 0x05, 0x06]);
    let ps = vec![PeripheralInfo { address: other, rssi_dbm: Some(-40) }];
    assert_eq!(locate(ProtocolProfile::ProtocolA, &ps, &target, true), Err(Error::DeviceNotFound));
    let empty: Vec<PeripheralInfo> = Vec::new();
    assert_eq!(
        locate(ProtocolProfile::ProtocolB, &empty, &target, false),
        Err(Error::DeviceNotFound)
    );
}

#[test]
fn locate_picks_first_address_match() {
    let target = addr([0xBE, 0x32, 0x03, 0x82, 0x3C, 0xB1]);
    let other = addr([0x01, 0x02, 0x03, 0x04, 0x05, 0x06]);
    let ps = vec![
        PeripheralInfo { address: other, rssi_dbm: None },
        PeripheralInfo { address: target, rssi_dbm: Some(-60) },
        PeripheralInfo { address: target, rssi_dbm: Some(-99) },
    ];
    assert_eq!(locate(ProtocolProfile::ProtocolA, &ps, &target, true), Ok(1));
}

fn char_ref(uuid: &[u8], write: bool, write_without_response: bool) -> CharacteristicRef {
    CharacteristicRef { uuid: uuid.to_vec(), write, write_without_response }
}

#[test]
fn protocol_b_selects_writable_fff3() {
    // FFE9 without write flags first, FFF3 with write-without-response second:
    // ProtocolB must pass over the unwritable FFE9 match candidate.
    let chars = vec![
        char_ref(b"0000ffe9-0000-1000-8000-00805f9b34fb", false, false),
        char_ref(b"0000fff3-0000-1000-8000-00805f9b34fb", false, true),
    ];
    assert_eq!(select_write_characteristic(ProtocolProfile::ProtocolB, &chars), Ok(1));
}

#[test]
fn protocol_a_selects_first_match_ignoring_flags() {
    let chars = vec![
        char_ref(b"0000ffe9-0000-1000-8000-00805f9b34fb", false, false),
        char_ref(b"0000fff3-0000-1000-8000-00805f9b34fb", false, true),
    ];
    assert_eq!(select_write_characteristic(ProtocolProfile::ProtocolA, &chars), Ok(0));
    // The same lists with all flags flipped select the same index.
    let flipped = vec![
        char_ref(b"0000ffe9-0000-1000-8000-00805f9b34fb", true, true),
        char_ref(b"0000fff3-0000-1000-8000-00805f9b34fb", false, false),
    ];
    assert_eq!(select_write_characteristic(ProtocolProfile::ProtocolA, &flipped), Ok(0));
}

#[test]
fn protocol_b_requires_a_write_flag() {
    let chars = vec![char_ref(b"0000fff3-0000-1000-8000-00805f9b34fb", false, false)];
    assert_eq!(
        select_write_characteristic(ProtocolProfile::ProtocolB, &chars),
        Err(Error::CharacteristicNotFound)
    );
    let writable = vec![char_ref(b"0000fff3-0000-1000-8000-00805f9b34fb", true, false)];
    assert_eq!(select_write_characteristic(ProtocolProfile::ProtocolB, &writable), Ok(0));
}

#[test]
fn selection_matches_uuid_text_case_insensitively() {
    let upper = vec![char_ref(b"0000FFF3-0000-1000-8000-00805F9B34FB", false, true)];
    assert_eq!(select_write_characteristic(ProtocolProfile::ProtocolB, &upper), Ok(0));
}

#[test]
fn selection_fails_without_any_marker() {
    let chars = vec![
        char_ref(b"00002a00-0000-1000-8000-00805f9b34fb", true, true),
        char_ref(b"0000aaf3-0000-1000-8000-00805f9b34fb", true, true),
    ];
    assert_eq!(
        select_write_characteristic(ProtocolProfile::ProtocolA, &chars),
        Err(Error::CharacteristicNotFound)
    );
    assert_eq!(
        select_write_characteristic(ProtocolProfile::ProtocolB, &chars),
        Err(Error::CharacteristicNotFound)
    );
}

#[test]
fn protocol_a_accepts_ffe9_or_fff3() {
    let e9 = vec![char_ref(b"0000ffe9-0000-1000-8000-00805f9b34fb", false, false)];
    assert_eq!(select_write_characteristic(ProtocolProfile::ProtocolA, &e9), Ok(0));
    let f3 = vec![char_ref(b"0000fff3-0000-1000-8000-00805f9b34fb", false, false)];
    assert_eq!(select_write_characteristic(ProtocolProfile::ProtocolA, &f3), Ok(0));
}
