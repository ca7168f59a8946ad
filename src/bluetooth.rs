//! Constants and matching rules of the Bluetooth LE transport.

use vstd::prelude::*;

verus! {

/// Service advertised by the machines.
pub const SERVICE_UUID: u128 = 0x00035b03_58e6_07dd_021a_08123a000300;

/// Characteristic that carries requests, responses and indications.
pub const CHARACTERISTIC_UUID: u128 = 0x00035b03_58e6_07dd_021a_08123a000301;

/// Scan polls per adapter before giving up.
pub const SCAN_ATTEMPTS: u32 = 10;

/// Pause between two scan polls.
pub const SCAN_POLL_MS: u64 = 500;

/// Period of the disconnect watcher.
pub const CONNECTED_POLL_MS: u64 = 50;

/// A peripheral is a machine when it advertises a local name and exposes
/// the target characteristic; the result is the position of that
/// characteristic among the discovered ones (`uuids`, in discovery order).
pub fn match_peripheral(has_local_name: bool, uuids: &[u128]) -> (r: Option<usize>)
    ensures
        !has_local_name ==> r is None,
        has_local_name ==> match r {
            Some(i) => i < uuids@.len() && uuids@[i as int] == CHARACTERISTIC_UUID && forall|
                j: int,
            |
                0 <= j < i ==> uuids@[j] != CHARACTERISTIC_UUID,
            None => forall|j: int| 0 <= j < uuids@.len() ==> uuids@[j] != CHARACTERISTIC_UUID,
        },
{
    if !has_local_name {
        return None;
    }
    let mut k: usize = 0;
    while k < uuids.len()
        invariant
            has_local_name,
            k <= uuids@.len(),
            forall|j: int| 0 <= j < k ==> uuids@[j] != CHARACTERISTIC_UUID,
        decreases uuids@.len() - k,
    {
        if uuids[k] == CHARACTERISTIC_UUID {
            return Some(k);
        }
        k = k + 1;
    }
    None
}

} // verus!
