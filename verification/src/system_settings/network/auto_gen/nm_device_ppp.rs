//! Devices that speak the point-to-point protocol.
use vstd::prelude::*;

verus! {

/// The interface of such a device, which has no methods and no
/// properties.
pub trait OrgFreedesktopNetworkManagerDevicePpp {

}

} // verus!
