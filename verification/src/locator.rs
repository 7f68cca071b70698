use vstd::prelude::*;

use crate::address::Address;
use crate::errors::Error;
use crate::profile::ProtocolProfile;

verus! {

/// Mathematical model of a discovered peripheral.
pub struct PeripheralModel {
    pub address: Seq<u8>,
    pub rssi_dbm: Option<i16>,
}

/// What the adapter reports of one peripheral during discovery: its
/// address, and its advertised signal strength when one was heard.
pub struct PeripheralInfo {
    pub address: Address,
    pub rssi_dbm: Option<i16>,
}

impl View for PeripheralInfo {
    type V = PeripheralModel;

    open spec fn view(&self) -> PeripheralModel {
        PeripheralModel { address: self.address@, rssi_dbm: self.rssi_dbm }
    }
}

impl DeepView for PeripheralInfo {
    type V = PeripheralModel;

    open spec fn deep_view(&self) -> PeripheralModel {
        self.view()
    }
}

/// Signal strength used by the weak-signal gate: the advertised RSSI, or
/// -100 dBm when none was reported.
pub open spec fn effective_rssi(r: Option<i16>) -> int {
    match r {
        Some(v) => v as int,
        None => -100,
    }
}

/// The weak-signal gate: a peripheral found via scan under a gating profile
/// is acceptable only with RSSI at or above -90 dBm. Peripherals already
/// known without a scan, and non-gating profiles, are always acceptable.
pub open spec fn signal_acceptable(p: ProtocolProfile, via_scan: bool, r: Option<i16>) -> bool {
    !(p.spec_rssi_gated() && via_scan) || effective_rssi(r) >= -90
}

/// First index at or after `i` whose address equals the target.
pub open spec fn spec_find_from(target: Seq<u8>, s: Seq<PeripheralModel>, i: int) -> Option<int>
    decreases s.len() - i,
{
    if i < 0 || i >= s.len() {
        None
    } else if s[i].address == target {
        Some(i)
    } else {
        spec_find_from(target, s, i + 1)
    }
}

/// First index in the peripheral list whose address equals the target.
pub open spec fn spec_find(target: Seq<u8>, s: Seq<PeripheralModel>) -> Option<int> {
    spec_find_from(target, s, 0)
}

/// How long to scan before re-reading the peripheral list: five seconds for
/// the gating profile's discovery, three for a plain lookup.
pub open spec fn spec_scan_wait_secs(p: ProtocolProfile) -> u64 {
    if p.spec_rssi_gated() {
        5u64
    } else {
        3u64
    }
}

/// How long to scan before re-reading the peripheral list.
pub fn scan_wait_secs(p: ProtocolProfile) -> (s: u64)
    ensures
        s == spec_scan_wait_secs(p),
{
    if p.rssi_gated() {
        5
    } else {
        3
    }
}

/// Adapter choice: the first enumerated adapter serves for the process
/// lifetime; with none enumerated, construction fails and is not retried.
pub fn select_adapter(adapter_count: usize) -> (r: Result<usize, Error>)
    ensures
        adapter_count == 0 ==> r == Err::<usize, Error>(Error::AdapterUnavailable),
        adapter_count > 0 ==> r == Ok::<usize, Error>(0usize),
{
    if adapter_count == 0 {
        Err(Error::AdapterUnavailable)
    } else {
        Ok(0)
    }
}

/// Find the target in a peripheral list, with the weak-signal gate applied
/// when the list came from a scan.
///
/// Returns the first index whose address matches; `DeviceNotFound` exactly
/// when no address matches; `SignalTooWeak` exactly when the match is gated
/// and its signal falls below the threshold. Scanning failures are the
/// adapter layer's to surface and are never retried here; retries belong to
/// the connection manager.
pub fn locate(
    p: ProtocolProfile,
    peripherals: &Vec<PeripheralInfo>,
    target: &Address,
    via_scan: bool,
) -> (r: Result<usize, Error>)
    ensures
        ({
            let ps = peripherals.deep_view();
            match r {
                Ok(i) => spec_find(target@, ps) == Some(i as int) && signal_acceptable(
                    p,
                    via_scan,
                    ps[i as int].rssi_dbm,
                ),
                Err(e) => (spec_find(target@, ps) is None && e == Error::DeviceNotFound) || (
                spec_find(target@, ps) matches Some(j) && !signal_acceptable(
                    p,
                    via_scan,
                    ps[j].rssi_dbm,
                ) && e == Error::SignalTooWeak),
            }
        }),
{
    let ghost ps = peripherals.deep_view();
    let mut i: usize = 0;
    while i < peripherals.len()
        invariant
            i <= peripherals@.len(),
            ps == peripherals.deep_view(),
            ps.len() == peripherals@.len(),
            spec_find(target@, ps) == spec_find_from(target@, ps, i as int),
        decreases peripherals.len() - i,
    {
        proof {
            assert(ps[i as int] == peripherals@[i as int]@);
        }
        if peripherals[i].address.same_as(target) {
            let gated = p.rssi_gated() && via_scan;
            if gated {
                let strength: i16 = match peripherals[i].rssi_dbm {
                    Some(v) => v,
                    None => -100,
                };
                if strength < -90 {
                    return Err(Error::SignalTooWeak);
                }
            }
            return Ok(i);
        }
        i += 1;
    }
    Err(Error::DeviceNotFound)
}

} // verus!
