use ble_led::address::Address;
use ble_led::characteristic::CharacteristicRef;
use ble_led::connection::{ConnAction, ConnEvent, ConnectionManager, ConnectionState};
use ble_led::errors::Error;
use ble_led::profile::ProtocolProfile;
use ble_led::session::DeviceSession;

fn writable_fff3() -> CharacteristicRef {
    CharacteristicRef {
        uuid: b"0000fff3-0000-1000-8000-00805f9b34fb".to_vec(),
        write: false,
        write_without_response: true,
    }
}

fn flagless_ffe9() -> CharacteristicRef {
    CharacteristicRef {
        uuid: b"0000ffe9-0000-1000-8000-00805f9b34fb".to_vec(),
        write: false,
        write_without_response: false,
    }
}

#[test]
fn establishment_walks_locate_connect_discover_select() {
    let mut m = ConnectionManager::new(ProtocolProfile::ProtocolB);
    assert_eq!(m.state, ConnectionState::Idle);

    assert_eq!(m.step(ConnEvent::Begin), ConnAction::Locate);
    assert_eq!(m.state, ConnectionState::Locating);

    assert_eq!(m.step(ConnEvent::Located), ConnAction::AttemptConnect { wait_secs: 1 });
    assert_eq!(m.state, ConnectionState::Connecting);
    assert_eq!(m.attempt, 1);

    assert_eq!(m.step(ConnEvent::Connected), ConnAction::Discover { settle_secs: 2 });
    assert_eq!(m.state, ConnectionState::DiscoveringServices);

    assert_eq!(
        m.step(ConnEvent::ServicesDiscovered),
        ConnAction::ListCharacteristics { settle_secs: 1 }
    );
    assert_eq!(m.state, ConnectionState::SelectingCharacteristic);

    let chars = vec![flagless_ffe9(), writable_fff3()];
    assert_eq!(m.step(ConnEvent::CharacteristicsListed(chars)), ConnAction::Succeed);
    assert_eq!(m.state, ConnectionState::Ready);
    assert_eq!(m.attempt, 1);
    let selected = m.selected.expect("a characteristic is cached on success");
    assert_eq!(selected.uuid, b"0000fff3-0000-1000-8000-00805f9b34fb".to_vec());
}

#[test]
fn three_connect_failures_exhaust_the_retry_budget() {
    let mut m = ConnectionManager::new(ProtocolProfile::ProtocolA);
    m.step(ConnEvent::Begin);
    m.step(ConnEvent::Located);
    assert_eq!(m.attempt, 1);

    // First and second failures retry with the default two-second backoff.
    assert_eq!(m.step(ConnEvent::ConnectFailed), ConnAction::AttemptConnect { wait_secs: 2 });
    assert_eq!(m.state, ConnectionState::Connecting);
    assert_eq!(m.attempt, 2);
    assert_eq!(m.step(ConnEvent::ConnectFailed), ConnAction::AttemptConnect { wait_secs: 2 });
    assert_eq!(m.state, ConnectionState::Connecting);
    assert_eq!(m.attempt, 3);

    // The third failure is final: no fourth attempt is offered.
    assert_eq!(m.step(ConnEvent::ConnectFailed), ConnAction::Fail(Error::ConnectionFailed));
    assert_eq!(m.state, ConnectionState::Failed);
    assert_eq!(m.error, Some(Error::ConnectionFailed));
}

#[test]
fn success_at_second_attempt_stops_retrying() {
    let mut m = ConnectionManager::new(ProtocolProfile::ProtocolA);
    m.step(ConnEvent::Begin);
    m.step(ConnEvent::Located);
    m.step(ConnEvent::ConnectFailed);
    assert_eq!(m.attempt, 2);

    m.step(ConnEvent::Connected);
    m.step(ConnEvent::ServicesDiscovered);
    let chars = vec![writable_fff3()];
    assert_eq!(m.step(ConnEvent::CharacteristicsListed(chars)), ConnAction::Succeed);
    assert_eq!(m.state, ConnectionState::Ready);
    assert_eq!(m.attempt, 2);
}

#[test]
fn discovery_failure_retries_the_whole_span() {
    let mut m = ConnectionManager::new(ProtocolProfile::ProtocolA);
    m.step(ConnEvent::Begin);
    m.step(ConnEvent::Located);
    m.step(ConnEvent::Connected);
    assert_eq!(m.step(ConnEvent::DiscoveryFailed), ConnAction::AttemptConnect { wait_secs: 2 });
    assert_eq!(m.state, ConnectionState::Connecting);
    assert_eq!(m.attempt, 2);
}

#[test]
fn failed_selection_on_last_attempt_reports_connection_failed() {
    let mut m = ConnectionManager::new(ProtocolProfile::ProtocolB);
    m.step(ConnEvent::Begin);
    m.step(ConnEvent::Located);
    m.step(ConnEvent::ConnectFailed);
    m.step(ConnEvent::ConnectFailed);
    assert_eq!(m.attempt, 3);
    m.step(ConnEvent::Connected);
    m.step(ConnEvent::ServicesDiscovered);
    // No writable FFF3: selection fails, and with the budget exhausted the
    // failure is subsumed under ConnectionFailed.
    let chars = vec![flagless_ffe9()];
    assert_eq!(
        m.step(ConnEvent::CharacteristicsListed(chars)),
        ConnAction::Fail(Error::ConnectionFailed)
    );
    assert_eq!(m.state, ConnectionState::Failed);
    assert_eq!(m.error, Some(Error::ConnectionFailed));
}

#[test]
fn locator_failure_is_fatal_without_retry() {
    let mut m = ConnectionManager::new(ProtocolProfile::ProtocolA);
    m.step(ConnEvent::Begin);
    assert_eq!(
        m.step(ConnEvent::LocateFailed(Error::SignalTooWeak)),
        ConnAction::Fail(Error::SignalTooWeak)
    );
    assert_eq!(m.state, ConnectionState::Failed);
    assert_eq!(m.error, Some(Error::SignalTooWeak));
}

#[test]
fn backoff_is_configurable() {
    let mut m = ConnectionManager::new(ProtocolProfile::ProtocolA);
    m.set_backoff_secs(3);
    m.step(ConnEvent::Begin);
    m.step(ConnEvent::Located);
    assert_eq!(m.step(ConnEvent::ConnectFailed), ConnAction::AttemptConnect { wait_secs: 3 });
}

#[test]
fn events_outside_their_state_are_ignored() {
    let mut m = ConnectionManager::new(ProtocolProfile::ProtocolA);
    assert_eq!(m.step(ConnEvent::Connected), ConnAction::Ignore);
    assert_eq!(m.state, ConnectionState::Idle);
    m.step(ConnEvent::Begin);
    assert_eq!(m.step(ConnEvent::ServicesDiscovered), ConnAction::Ignore);
    assert_eq!(m.state, ConnectionState::Locating);
}

#[test]
fn end_to_end_ready_session_writes_one_color_frame() {
    // Establish a ProtocolA session for BE:32:03:82:3C:B1.
    let text = b"BE:32:03:82:3C:B1".to_vec();
    let address = Address::parse(&text).expect("canonical address text");
    let mut m = ConnectionManager::new(ProtocolProfile::ProtocolA);
    m.step(ConnEvent::Begin);
    m.step(ConnEvent::Located);
    m.step(ConnEvent::Connected);
    m.step(ConnEvent::ServicesDiscovered);
    assert_eq!(
        m.step(ConnEvent::CharacteristicsListed(vec![flagless_ffe9(), writable_fff3()])),
        ConnAction::Succeed
    );
    let selected = m.selected.expect("establishment cached a characteristic");
    assert_eq!(selected.uuid, b"0000ffe9-0000-1000-8000-00805f9b34fb".to_vec());

    // One set_color(255, 0, 0) against the live link plans exactly one
    // frame, with no connect call before the write.
    let s = DeviceSession::new_with_address(ProtocolProfile::ProtocolA, address);
    let plan = s.set_color(true, 255, 0, 0);
    assert!(!plan.connect_first);
    assert_eq!(plan.frames, vec![vec![0x7e, 0x00, 0x05, 0x03, 0xff, 0x00, 0x00, 0x00, 0xef]]);
}
