//! Listing the devices that can be connected to.

use vstd::prelude::*;
use crate::descriptor::{mock_adb_device, mock_device_view, DeviceDescriptor};
use crate::error::SessionError;
use crate::mode::PathMode;

verus! {

/// What a caller is told for an answer of the transport's enumeration: the
/// devices as they were reported, or a discovery error where the enumeration
/// failed, whatever its own error was.
pub open spec fn discovered<E>(raw: Result<Vec<DeviceDescriptor>, E>) -> Result<
    Vec<DeviceDescriptor>,
    SessionError,
> {
    match raw {
        Ok(devices) => Ok(devices),
        Err(_) => Err(SessionError::DiscoveryError),
    }
}

/// True of the listing that the mock gives: it succeeded, and holds the one
/// fixed device and nothing else.
pub open spec fn is_mock_listing(found: Result<Vec<DeviceDescriptor>, SessionError>) -> bool {
    &&& found is Ok
    &&& found->Ok_0@.len() == 1
    &&& found->Ok_0@[0]@ == mock_device_view()
}

/// Turns the answer of the transport's enumeration into the listing for the
/// caller, as [`discovered`] says.
pub fn read_enumeration<E>(raw: Result<Vec<DeviceDescriptor>, E>) -> (found: Result<
    Vec<DeviceDescriptor>,
    SessionError,
>)
    ensures
        found == discovered(raw),
{
    match raw {
        Ok(devices) => Ok(devices),
        Err(_) => Err(SessionError::DiscoveryError),
    }
}

/// Lists the devices that can be connected to.
///
/// In mock mode the gateway is not asked: the listing is the one fixed mock
/// device, and it never fails. Otherwise the gateway is asked once, and its
/// answer is read by [`read_enumeration`].
pub fn find_devices<G, E>(mode: PathMode, gateway: G) -> (found: Result<
    Vec<DeviceDescriptor>,
    SessionError,
>) where G: FnOnce() -> Result<Vec<DeviceDescriptor>, E>
    requires
        mode is Real ==> gateway.requires(()),
    ensures
        mode is Mock ==> is_mock_listing(found),
        mode is Real ==> exists|raw: Result<Vec<DeviceDescriptor>, E>|
            gateway.ensures((), raw) && found == discovered(raw),
{
    match mode {
        PathMode::Mock => {
            let mut devices: Vec<DeviceDescriptor> = Vec::new();
            devices.push(mock_adb_device());
            Ok(devices)
        },
        PathMode::Real => {
            let raw = gateway();
            read_enumeration(raw)
        },
    }
}

} // verus!
