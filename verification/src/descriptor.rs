//! What discovery reports about a connectable device.

use vstd::prelude::*;
use vstd::std_specs::cmp::PartialEqSpecImpl;

verus! {

/// The mathematical content of a [`DeviceDescriptor`].
pub struct DescriptorView {
    /// Where the bridge executable lives.
    pub adb_path: Seq<char>,
    /// The serial number or address that names the device to the bridge.
    pub adb_serial: Seq<char>,
    /// Transport-specific configuration, passed through unread.
    pub adb_config: Seq<char>,
}

/// Identifies a device that can be connected to. A descriptor is produced
/// once and never changed afterwards: its fields can only be read.
#[derive(Debug)]
pub struct DeviceDescriptor {
    adb_path: String,
    adb_serial: String,
    adb_config: String,
}

impl View for DeviceDescriptor {
    type V = DescriptorView;

    closed spec fn view(&self) -> DescriptorView {
        DescriptorView {
            adb_path: self.adb_path@,
            adb_serial: self.adb_serial@,
            adb_config: self.adb_config@,
        }
    }
}

impl DeviceDescriptor {
    /// Builds a descriptor from its three parts.
    pub fn new(adb_path: String, adb_serial: String, adb_config: String) -> (descriptor: Self)
        ensures
            descriptor@.adb_path == adb_path@,
            descriptor@.adb_serial == adb_serial@,
            descriptor@.adb_config == adb_config@,
    {
        DeviceDescriptor { adb_path, adb_serial, adb_config }
    }

    /// The path of the bridge executable.
    pub fn adb_path(&self) -> (path: &str)
        ensures
            path@ == self@.adb_path,
    {
        self.adb_path.as_str()
    }

    /// The serial number or address of the device.
    pub fn adb_serial(&self) -> (serial: &str)
        ensures
            serial@ == self@.adb_serial,
    {
        self.adb_serial.as_str()
    }

    /// The transport-specific configuration blob.
    pub fn adb_config(&self) -> (config: &str)
        ensures
            config@ == self@.adb_config,
    {
        self.adb_config.as_str()
    }

}

impl PartialEq for DeviceDescriptor {
    /// Two descriptors are equal where their three parts are.
    fn eq(&self, other: &DeviceDescriptor) -> (same: bool) {
        self.adb_path == other.adb_path && self.adb_serial == other.adb_serial
            && self.adb_config == other.adb_config
    }
}

impl PartialEqSpecImpl for DeviceDescriptor {
    open spec fn obeys_eq_spec() -> bool {
        true
    }

    open spec fn eq_spec(&self, other: &DeviceDescriptor) -> bool {
        self@ == other@
    }
}

impl Eq for DeviceDescriptor {

}

impl Clone for DeviceDescriptor {
    fn clone(&self) -> (copy: Self)
        ensures
            copy@ == self@,
    {
        DeviceDescriptor {
            adb_path: self.adb_path.clone(),
            adb_serial: self.adb_serial.clone(),
            adb_config: self.adb_config.clone(),
        }
    }
}

/// The content of the one descriptor that discovery reports in mock mode.
pub open spec fn mock_device_view() -> DescriptorView {
    DescriptorView {
        adb_path: "adb"@,
        adb_serial: "127.0.0.1:5555"@,
        adb_config: "{}"@,
    }
}

/// The fixed device that stands in for real hardware in mock mode.
pub fn mock_adb_device() -> (device: DeviceDescriptor)
    ensures
        device@ == mock_device_view(),
{
    DeviceDescriptor::new("adb".to_string(), "127.0.0.1:5555".to_string(), "{}".to_string())
}

} // verus!
