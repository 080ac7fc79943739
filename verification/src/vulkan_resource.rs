//! Resources backed by device-owned objects.
//!
//! There is no ownership-tracking runtime underneath: whoever holds a
//! resource must call `destroy` before the device goes away, and only
//! once nothing in flight still references it.
use crate::device::Device;
use vstd::prelude::*;

verus! {

/// A resource whose backing objects the device owns; `destroy` releases
/// them.
pub trait DeviceResource {
    fn destroy(&self, device: &mut Device)
        requires
            old(device).wf(),
    ;
}

} // verus!
