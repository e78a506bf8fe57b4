//! The device locator's decision: which enumerated device to try to open next.
use vstd::prelude::*;

verus! {

/// The identifying pair of a device descriptor.
#[derive(Debug, Clone, Copy, PartialEq, Eq, Structural)]
pub struct DeviceIds {
    pub vendor_id: u16,
    pub product_id: u16,
}

/// A device whose descriptor was read and carries the wanted IDs.
pub open spec fn is_wanted(d: Option<DeviceIds>, vid: u16, pid: u16) -> bool {
    match d {
        Some(ids) => ids.vendor_id == vid && ids.product_id == pid,
        None => false,
    }
}

/// Index of the first device at or after `start` whose descriptor was read
/// (`Some`) and matches `vid`/`pid`; `None` when no later device matches.
/// A caller whose open of the returned device fails asks again from the next
/// index.
pub fn next_candidate(devices: &Vec<Option<DeviceIds>>, vid: u16, pid: u16, start: usize) -> (r:
    Option<usize>)
    ensures
        r is None <==> forall|j: int| start <= j < devices@.len() ==> !is_wanted(devices@[j], vid, pid),
        r matches Some(i) ==> start <= i < devices@.len() && is_wanted(devices@[i as int], vid, pid)
            && forall|j: int| start <= j < i ==> !is_wanted(devices@[j], vid, pid),
{
    let mut i: usize = start;
    while i < devices.len()
        invariant
            start <= i,
            forall|j: int| start <= j < i ==> !is_wanted(devices@[j], vid, pid),
        decreases devices@.len() - i,
    {
        match devices[i] {
            Some(ids) => {
                if ids.vendor_id == vid && ids.product_id == pid {
                    assert(is_wanted(devices@[i as int], vid, pid));
                    return Some(i);
                }
            },
            None => {},
        }
        i = i + 1;
    }
    None
}

} // verus!
