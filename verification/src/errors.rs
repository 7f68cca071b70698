use vstd::prelude::*;

verus! {

/// Failure taxonomy for session construction and command delivery.
///
/// `AdapterUnavailable`: no radio adapter was enumerated (fatal, never retried).
/// `DeviceNotFound`: the target address was absent after lookup and scan.
/// `SignalTooWeak`: the advertised RSSI fell below the weak-signal gate
/// (applies only to profiles that gate on signal strength).
/// `ConnectionFailed`: the bounded connect/discover/select retry loop was
/// exhausted.
/// `CharacteristicNotFound`: no characteristic matched the profile's
/// write-capability predicate.
/// `WriteFailed`: the adapter reported a write error for a command.
#[derive(Clone, Copy, Debug, PartialEq, Eq, Structural)]
pub enum Error {
    AdapterUnavailable,
    DeviceNotFound,
    SignalTooWeak,
    ConnectionFailed,
    CharacteristicNotFound,
    WriteFailed,
}

} // verus!
