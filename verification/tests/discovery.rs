use device_session::descriptor::{mock_adb_device, DeviceDescriptor};
use device_session::discovery::{find_devices, read_enumeration};
use device_session::error::SessionError;
use device_session::mode::PathMode;
use std::cell::Cell;

fn device(serial: &str) -> DeviceDescriptor {
    DeviceDescriptor::new("adb".to_string(), serial.to_string(), "{}".to_string())
}

#[test]
fn mock_discovery_returns_the_one_fixed_device() {
    let found = find_devices(PathMode::Mock, || -> Result<Vec<DeviceDescriptor>, String> {
        Ok(vec![device("emulator-5554"), device("emulator-5556")])
    });
    let devices = found.unwrap();
    assert_eq!(devices.len(), 1);
    assert_eq!(devices[0].adb_path(), "adb");
    assert_eq!(devices[0].adb_serial(), "127.0.0.1:5555");
    assert_eq!(devices[0].adb_config(), "{}");
    assert_eq!(devices[0], mock_adb_device());
}

#[test]
fn mock_discovery_does_not_ask_the_gateway() {
    let asked = Cell::new(0u32);
    let found = find_devices(PathMode::Mock, || -> Result<Vec<DeviceDescriptor>, String> {
        asked.set(asked.get() + 1);
        Err("enumeration failed".to_string())
    });
    assert_eq!(found, Ok(vec![mock_adb_device()]));
    assert_eq!(asked.get(), 0);
}

#[test]
fn real_discovery_returns_what_the_gateway_found() {
    let asked = Cell::new(0u32);
    let found = find_devices(PathMode::Real, || -> Result<Vec<DeviceDescriptor>, String> {
        asked.set(asked.get() + 1);
        Ok(vec![device("emulator-5554"), device("192.168.0.7:5555")])
    });
    assert_eq!(found, Ok(vec![device("emulator-5554"), device("192.168.0.7:5555")]));
    assert_eq!(asked.get(), 1);
}

#[test]
fn real_discovery_may_find_nothing() {
    let found = find_devices(PathMode::Real, || -> Result<Vec<DeviceDescriptor>, String> {
        Ok(Vec::new())
    });
    assert_eq!(found, Ok(Vec::new()));
}

#[test]
fn real_discovery_fails_with_a_discovery_error() {
    let found = find_devices(PathMode::Real, || -> Result<Vec<DeviceDescriptor>, String> {
        Err("adb not found".to_string())
    });
    assert_eq!(found, Err(SessionError::DiscoveryError));
}

#[test]
fn enumeration_is_read_whatever_the_error_type() {
    let failed: Result<Vec<DeviceDescriptor>, u8> = Err(7);
    assert_eq!(read_enumeration(failed), Err(SessionError::DiscoveryError));
    let unit: Result<Vec<DeviceDescriptor>, ()> = Err(());
    assert_eq!(read_enumeration(unit), Err(SessionError::DiscoveryError));
    let fine: Result<Vec<DeviceDescriptor>, u8> = Ok(vec![device("a"), device("b"), device("a")]);
    assert_eq!(read_enumeration(fine), Ok(vec![device("a"), device("b"), device("a")]));
}
