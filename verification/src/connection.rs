use vstd::prelude::*;

use crate::characteristic::{
    spec_select, select_write_characteristic, CharModel, CharacteristicRef,
};
use crate::errors::Error;
use crate::profile::ProtocolProfile;

verus! {

/// Where connection establishment stands. `Ready` and `Failed` are the
/// terminal states; one session occupies the machine at a time.
#[derive(Clone, Copy, Debug, PartialEq, Eq, Structural)]
pub enum ConnectionState {
    Idle,
    Locating,
    Connecting,
    DiscoveringServices,
    SelectingCharacteristic,
    Ready,
    Failed,
}

/// What the adapter layer reports back to the state machine after
/// performing the action it was last given.
pub enum ConnEvent {
    /// begin establishment from `Idle`
    Begin,
    /// the device locator produced a peripheral
    Located,
    /// the device locator failed; carries its error
    LocateFailed(Error),
    Connected,
    ConnectFailed,
    ServicesDiscovered,
    DiscoveryFailed,
    /// the peripheral's characteristics, in scan order
    CharacteristicsListed(Vec<CharacteristicRef>),
}

/// Mathematical model of an event.
pub enum ConnEventModel {
    Begin,
    Located,
    LocateFailed(Error),
    Connected,
    ConnectFailed,
    ServicesDiscovered,
    DiscoveryFailed,
    CharacteristicsListed(Seq<CharModel>),
}

impl View for ConnEvent {
    type V = ConnEventModel;

    open spec fn view(&self) -> ConnEventModel {
        match self {
            ConnEvent::Begin => ConnEventModel::Begin,
            ConnEvent::Located => ConnEventModel::Located,
            ConnEvent::LocateFailed(e) => ConnEventModel::LocateFailed(*e),
            ConnEvent::Connected => ConnEventModel::Connected,
            ConnEvent::ConnectFailed => ConnEventModel::ConnectFailed,
            ConnEvent::ServicesDiscovered => ConnEventModel::ServicesDiscovered,
            ConnEvent::DiscoveryFailed => ConnEventModel::DiscoveryFailed,
            ConnEvent::CharacteristicsListed(cs) => ConnEventModel::CharacteristicsListed(
                cs.deep_view(),
            ),
        }
    }
}

/// What the adapter layer must do next. Waits are deliberate settle or
/// backoff delays in whole seconds; there is no interruptible deadline.
#[derive(Clone, Copy, Debug, PartialEq, Eq, Structural)]
pub enum ConnAction {
    /// Run the device locator: known peripherals first, then a scan.
    Locate,
    /// Disconnect if the peripheral reports itself connected, wait, then
    /// attempt to connect.
    AttemptConnect { wait_secs: u64 },
    /// Wait for the GATT table to populate, then discover services.
    Discover { settle_secs: u64 },
    /// Wait, then list the characteristics and report them back.
    ListCharacteristics { settle_secs: u64 },
    /// Establishment is complete; the selected characteristic is cached.
    Succeed,
    /// Establishment failed; disconnect and surface the error.
    Fail(Error),
    /// The event does not belong to the current state; nothing to do.
    Ignore,
}

/// Mathematical model of the connection manager.
pub struct ManagerModel {
    pub profile: ProtocolProfile,
    pub state: ConnectionState,
    pub attempt: u8,
    pub backoff_secs: u64,
    pub selected: Option<CharModel>,
    pub error: Option<Error>,
}

/// The manager as first constructed: idle, nothing attempted, the default
/// backoff of two seconds between attempts.
pub open spec fn spec_init(profile: ProtocolProfile) -> ManagerModel {
    ManagerModel {
        profile,
        state: ConnectionState::Idle,
        attempt: 0,
        backoff_secs: 2,
        selected: None,
        error: None,
    }
}

/// A step of the connect → discover → select span failed: retry the whole
/// span while attempts remain, else report `ConnectionFailed`. At most
/// three attempts are ever made.
pub open spec fn spec_retry_or_fail(m: ManagerModel) -> (ManagerModel, ConnAction) {
    if m.attempt < 3 {
        (
            ManagerModel { state: ConnectionState::Connecting, attempt: (m.attempt + 1) as u8, ..m },
            ConnAction::AttemptConnect { wait_secs: m.backoff_secs },
        )
    } else {
        (
            ManagerModel { state: ConnectionState::Failed, error: Some(Error::ConnectionFailed), ..m },
            ConnAction::Fail(Error::ConnectionFailed),
        )
    }
}

/// The transition function: next manager state and the action the adapter
/// layer must perform. Events that do not belong to the current state leave
/// the machine unchanged.
pub open spec fn spec_step(m: ManagerModel, ev: ConnEventModel) -> (ManagerModel, ConnAction) {
    match (m.state, ev) {
        (ConnectionState::Idle, ConnEventModel::Begin) => (
            ManagerModel { state: ConnectionState::Locating, ..m },
            ConnAction::Locate,
        ),
        (ConnectionState::Locating, ConnEventModel::Located) => (
            ManagerModel { state: ConnectionState::Connecting, attempt: 1, ..m },
            ConnAction::AttemptConnect { wait_secs: 1 },
        ),
        (ConnectionState::Locating, ConnEventModel::LocateFailed(e)) => (
            ManagerModel { state: ConnectionState::Failed, error: Some(e), ..m },
            ConnAction::Fail(e),
        ),
        (ConnectionState::Connecting, ConnEventModel::Connected) => (
            ManagerModel { state: ConnectionState::DiscoveringServices, ..m },
            ConnAction::Discover { settle_secs: 2 },
        ),
        (ConnectionState::Connecting, ConnEventModel::ConnectFailed) => spec_retry_or_fail(m),
        (ConnectionState::DiscoveringServices, ConnEventModel::ServicesDiscovered) => (
            ManagerModel { state: ConnectionState::SelectingCharacteristic, ..m },
            ConnAction::ListCharacteristics { settle_secs: 1 },
        ),
        (ConnectionState::DiscoveringServices, ConnEventModel::DiscoveryFailed) => spec_retry_or_fail(
            m,
        ),
        (ConnectionState::SelectingCharacteristic, ConnEventModel::CharacteristicsListed(cs)) => (
            match spec_select(m.profile, cs) {
                Some(i) => (
                    ManagerModel { state: ConnectionState::Ready, selected: Some(cs[i]), ..m },
                    ConnAction::Succeed,
                ),
                None => spec_retry_or_fail(m),
            }
        ),
        _ => (m, ConnAction::Ignore),
    }
}

/// Drives one peripheral from located to ready-to-write: connect, discover
/// services, select the write characteristic, with bounded retries of that
/// whole span and fixed settle delays between the steps.
pub struct ConnectionManager {
    pub profile: ProtocolProfile,
    pub state: ConnectionState,
    pub attempt: u8,
    pub backoff_secs: u64,
    pub selected: Option<CharacteristicRef>,
    pub error: Option<Error>,
}

impl View for ConnectionManager {
    type V = ManagerModel;

    open spec fn view(&self) -> ManagerModel {
        ManagerModel {
            profile: self.profile,
            state: self.state,
            attempt: self.attempt,
            backoff_secs: self.backoff_secs,
            selected: match self.selected {
                Some(c) => Some(c@),
                None => None,
            },
            error: self.error,
        }
    }
}

impl ConnectionManager {
    pub fn new(profile: ProtocolProfile) -> (m: Self)
        ensures
            m@ == spec_init(profile),
    {
        ConnectionManager {
            profile,
            state: ConnectionState::Idle,
            attempt: 0,
            backoff_secs: 2,
            selected: None,
            error: None,
        }
    }

    /// Configure the delay between attempts of the connect → select span.
    pub fn set_backoff_secs(&mut self, secs: u64)
        ensures
            final(self)@ == (ManagerModel { backoff_secs: secs, ..old(self)@ }),
    {
        self.backoff_secs = secs;
    }

    fn retry_or_fail(&mut self) -> (a: ConnAction)
        ensures
            final(self)@ == spec_retry_or_fail(old(self)@).0,
            a == spec_retry_or_fail(old(self)@).1,
    {
        if self.attempt < 3 {
            self.attempt = self.attempt + 1;
            self.state = ConnectionState::Connecting;
            ConnAction::AttemptConnect { wait_secs: self.backoff_secs }
        } else {
            self.state = ConnectionState::Failed;
            self.error = Some(Error::ConnectionFailed);
            ConnAction::Fail(Error::ConnectionFailed)
        }
    }

    /// Feed the machine the outcome of the last action; it moves to its
    /// next state and says what the adapter layer must do now.
    pub fn step(&mut self, ev: ConnEvent) -> (a: ConnAction)
        ensures
            final(self)@ == spec_step(old(self)@, ev@).0,
            a == spec_step(old(self)@, ev@).1,
    {
        match (self.state, ev) {
            (ConnectionState::Idle, ConnEvent::Begin) => {
                self.state = ConnectionState::Locating;
                ConnAction::Locate
            },
            (ConnectionState::Locating, ConnEvent::Located) => {
                self.state = ConnectionState::Connecting;
                self.attempt = 1;
                ConnAction::AttemptConnect { wait_secs: 1 }
            },
            (ConnectionState::Locating, ConnEvent::LocateFailed(e)) => {
                self.state = ConnectionState::Failed;
                self.error = Some(e);
                ConnAction::Fail(e)
            },
            (ConnectionState::Connecting, ConnEvent::Connected) => {
                self.state = ConnectionState::DiscoveringServices;
                ConnAction::Discover { settle_secs: 2 }
            },
            (ConnectionState::Connecting, ConnEvent::ConnectFailed) => self.retry_or_fail(),
            (ConnectionState::DiscoveringServices, ConnEvent::ServicesDiscovered) => {
                self.state = ConnectionState::SelectingCharacteristic;
                ConnAction::ListCharacteristics { settle_secs: 1 }
            },
            (ConnectionState::DiscoveringServices, ConnEvent::DiscoveryFailed) => self
                .retry_or_fail(),
            (ConnectionState::SelectingCharacteristic, ConnEvent::CharacteristicsListed(
                mut cs,
            )) => {
                match select_write_characteristic(self.profile, &cs) {
                    Ok(i) => {
                        let c = cs.remove(i);
                        self.state = ConnectionState::Ready;
                        self.selected = Some(c);
                        ConnAction::Succeed
                    },
                    Err(_) => self.retry_or_fail(),
                }
            },
            (_, _) => ConnAction::Ignore,
        }
    }
}

/// Sustained connect failure from the first attempt: the machine retries
/// with the configured backoff after the first and second failures, and the
/// third failure is final, reported as `ConnectionFailed` — exactly three
/// attempts, never more.
pub proof fn lemma_retry_bound(m: ManagerModel)
    requires
        m.state is Connecting,
        m.attempt == 1,
    ensures
        ({
            let (m1, a1) = spec_step(m, ConnEventModel::ConnectFailed);
            let (m2, a2) = spec_step(m1, ConnEventModel::ConnectFailed);
            let (m3, a3) = spec_step(m2, ConnEventModel::ConnectFailed);
            &&& m1.state is Connecting && m1.attempt == 2 && a1 == (ConnAction::AttemptConnect {
                wait_secs: m.backoff_secs,
            })
            &&& m2.state is Connecting && m2.attempt == 3 && a2 == (ConnAction::AttemptConnect {
                wait_secs: m.backoff_secs,
            })
            &&& m3.state is Failed && m3.error == Some(Error::ConnectionFailed) && a3
                == ConnAction::Fail(Error::ConnectionFailed)
        }),
{
}

/// Success at attempt k (1 ≤ k ≤ 3): connect, discovery and selection all
/// succeeding runs the machine straight to `Ready` with the matched
/// characteristic cached, and the attempt counter never moves past k — no
/// further attempts are made.
pub proof fn lemma_ready_on_success(m: ManagerModel, cs: Seq<CharModel>, j: int)
    requires
        m.state is Connecting,
        1 <= m.attempt <= 3,
        spec_select(m.profile, cs) == Some(j),
    ensures
        ({
            let (m1, a1) = spec_step(m, ConnEventModel::Connected);
            let (m2, a2) = spec_step(m1, ConnEventModel::ServicesDiscovered);
            let (m3, a3) = spec_step(m2, ConnEventModel::CharacteristicsListed(cs));
            &&& m1.state is DiscoveringServices && m1.attempt == m.attempt
            &&& m2.state is SelectingCharacteristic && m2.attempt == m.attempt
            &&& m3.state is Ready && m3.attempt == m.attempt
            &&& m3.selected == Some(cs[j])
            &&& a3 == ConnAction::Succeed
        }),
{
}

} // verus!
