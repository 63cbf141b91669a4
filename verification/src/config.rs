//! How a device is to be driven: one choice on each of three axes, and the
//! policy that makes the choice for a given device.

use vstd::prelude::*;
use crate::descriptor::{DescriptorView, DeviceDescriptor};

verus! {

/// How touches are injected.
#[derive(Clone, Copy, Debug, PartialEq, Eq, Structural, Hash)]
pub enum TouchStrategy {
    /// Through the bridge's own shell input.
    AdbShell,
    /// Through the minitouch agent.
    MiniTouch,
    /// Through the maatouch agent.
    MaaTouch,
    /// Through an emulator's private interface.
    EmulatorExtras,
    /// Whatever the framework finds to work on the device.
    AutoDetect,
}

/// How key presses are injected.
#[derive(Clone, Copy, Debug, PartialEq, Eq, Structural, Hash)]
pub enum KeyStrategy {
    /// No key injection.
    Disabled,
    /// Through the bridge's own shell input.
    AdbShell,
    /// Through the maatouch agent.
    MaaTouch,
    /// Through an emulator's private interface.
    EmulatorExtras,
    /// Whatever the framework finds to work on the device.
    AutoDetect,
}

/// How the screen is captured.
#[derive(Clone, Copy, Debug, PartialEq, Eq, Structural, Hash)]
pub enum ScreencapStrategy {
    /// Encode on the device into a file, then pull the file.
    EncodeToFileAndPull,
    /// Encode on the device and stream the result.
    Encode,
    /// Raw pixels, compressed with gzip.
    RawWithGzip,
    /// Raw pixels over netcat.
    RawByNetcat,
    /// One frame at a time from the minicap agent.
    MinicapDirect,
    /// A continuous stream from the minicap agent.
    MinicapStream,
    /// Through an emulator's private interface.
    EmulatorExtras,
}

/// The choices for one connection attempt. Every axis always has exactly one
/// value: there is no partial selection.
#[derive(Clone, Copy, Debug, PartialEq, Eq, Structural, Hash)]
pub struct ControllerConfig {
    pub touch: TouchStrategy,
    pub key: KeyStrategy,
    pub screencap: ScreencapStrategy,
}

/// The configuration used where nothing else is known: touch is detected,
/// keys are not injected, the screen is read directly from minicap.
pub open spec fn default_config() -> ControllerConfig {
    ControllerConfig {
        touch: TouchStrategy::AutoDetect,
        key: KeyStrategy::Disabled,
        screencap: ScreencapStrategy::MinicapDirect,
    }
}

impl Default for ControllerConfig {
    /// The default configuration.
    fn default() -> (config: ControllerConfig)
        ensures
            config == default_config(),
    {
        ControllerConfig {
            touch: TouchStrategy::AutoDetect,
            key: KeyStrategy::Disabled,
            screencap: ScreencapStrategy::MinicapDirect,
        }
    }
}

/// The selection policy as a function of the descriptor's content. Today it
/// is the same for every device.
pub open spec fn policy(device: DescriptorView) -> ControllerConfig {
    default_config()
}

/// Picks the configuration for a device. The choice depends on the
/// descriptor's content alone and is defined for every descriptor.
pub fn select_controller_config(descriptor: &DeviceDescriptor) -> (config: ControllerConfig)
    ensures
        config == policy(descriptor@),
{
    ControllerConfig::default()
}

/// Two descriptors with the same content are given the same configuration.
pub proof fn selection_is_deterministic(a: DeviceDescriptor, b: DeviceDescriptor)
    requires
        a@ == b@,
    ensures
        policy(a@) == policy(b@),
{
}

/// Bit of the framework's input-method set: shell input of the bridge.
pub const INPUT_ADB_SHELL: u64 = 1;

/// Bit of the framework's input-method set: minitouch, with keys by shell.
pub const INPUT_MINITOUCH_AND_ADB_KEY: u64 = 2;

/// Bit of the framework's input-method set: maatouch.
pub const INPUT_MAATOUCH: u64 = 4;

/// Bit of the framework's input-method set: emulator extras.
pub const INPUT_EMULATOR_EXTRAS: u64 = 8;

/// The framework's default input-method set: every method but the emulator
/// extras, from which it picks the first that works.
pub const INPUT_DEFAULT: u64 = 0xFFFF_FFFF_FFFF_FFF7;

/// The framework's empty input-method set.
pub const INPUT_NONE: u64 = 0;

/// Bit of the framework's screencap-method set: encode to a file and pull.
pub const SCREENCAP_ENCODE_TO_FILE_AND_PULL: u64 = 1;

/// Bit of the framework's screencap-method set: encode.
pub const SCREENCAP_ENCODE: u64 = 2;

/// Bit of the framework's screencap-method set: raw pixels with gzip.
pub const SCREENCAP_RAW_WITH_GZIP: u64 = 4;

/// Bit of the framework's screencap-method set: raw pixels by netcat.
pub const SCREENCAP_RAW_BY_NETCAT: u64 = 8;

/// Bit of the framework's screencap-method set: minicap, frame by frame.
pub const SCREENCAP_MINICAP_DIRECT: u64 = 16;

/// Bit of the framework's screencap-method set: minicap, streamed.
pub const SCREENCAP_MINICAP_STREAM: u64 = 32;

/// Bit of the framework's screencap-method set: emulator extras.
pub const SCREENCAP_EMULATOR_EXTRAS: u64 = 64;

impl TouchStrategy {
    /// The input methods that this strategy allows the framework to use.
    pub open spec fn method_set(self) -> u64 {
        match self {
            TouchStrategy::AdbShell => INPUT_ADB_SHELL,
            TouchStrategy::MiniTouch => INPUT_MINITOUCH_AND_ADB_KEY,
            TouchStrategy::MaaTouch => INPUT_MAATOUCH,
            TouchStrategy::EmulatorExtras => INPUT_EMULATOR_EXTRAS,
            TouchStrategy::AutoDetect => INPUT_DEFAULT,
        }
    }
}

impl KeyStrategy {
    /// The input methods that this strategy allows the framework to use.
    pub open spec fn method_set(self) -> u64 {
        match self {
            KeyStrategy::Disabled => INPUT_NONE,
            KeyStrategy::AdbShell => INPUT_ADB_SHELL,
            KeyStrategy::MaaTouch => INPUT_MAATOUCH,
            KeyStrategy::EmulatorExtras => INPUT_EMULATOR_EXTRAS,
            KeyStrategy::AutoDetect => INPUT_DEFAULT,
        }
    }
}

impl ScreencapStrategy {
    /// The single capture method that this strategy names, as a bit of the
    /// framework's screencap-method set.
    pub open spec fn method_set(self) -> u64 {
        match self {
            ScreencapStrategy::EncodeToFileAndPull => SCREENCAP_ENCODE_TO_FILE_AND_PULL,
            ScreencapStrategy::Encode => SCREENCAP_ENCODE,
            ScreencapStrategy::RawWithGzip => SCREENCAP_RAW_WITH_GZIP,
            ScreencapStrategy::RawByNetcat => SCREENCAP_RAW_BY_NETCAT,
            ScreencapStrategy::MinicapDirect => SCREENCAP_MINICAP_DIRECT,
            ScreencapStrategy::MinicapStream => SCREENCAP_MINICAP_STREAM,
            ScreencapStrategy::EmulatorExtras => SCREENCAP_EMULATOR_EXTRAS,
        }
    }
}

impl ControllerConfig {
    /// The input-method set of this configuration: what the touch strategy
    /// allows together with what the key strategy allows.
    pub open spec fn input_method_set(self) -> u64 {
        self.touch.method_set() | self.key.method_set()
    }

    /// The input-method set to hand to the framework's controller builder.
    pub fn input_methods(&self) -> (methods: u64)
        ensures
            methods == self.input_method_set(),
    {
        let touch: u64 = match self.touch {
            TouchStrategy::AdbShell => INPUT_ADB_SHELL,
            TouchStrategy::MiniTouch => INPUT_MINITOUCH_AND_ADB_KEY,
            TouchStrategy::MaaTouch => INPUT_MAATOUCH,
            TouchStrategy::EmulatorExtras => INPUT_EMULATOR_EXTRAS,
            TouchStrategy::AutoDetect => INPUT_DEFAULT,
        };
        let key: u64 = match self.key {
            KeyStrategy::Disabled => INPUT_NONE,
            KeyStrategy::AdbShell => INPUT_ADB_SHELL,
            KeyStrategy::MaaTouch => INPUT_MAATOUCH,
            KeyStrategy::EmulatorExtras => INPUT_EMULATOR_EXTRAS,
            KeyStrategy::AutoDetect => INPUT_DEFAULT,
        };
        touch | key
    }

    /// The screencap-method set to hand to the framework's controller
    /// builder: the one bit of the chosen strategy.
    pub fn screencap_methods(&self) -> (methods: u64)
        ensures
            methods == self.screencap.method_set(),
    {
        match self.screencap {
            ScreencapStrategy::EncodeToFileAndPull => SCREENCAP_ENCODE_TO_FILE_AND_PULL,
            ScreencapStrategy::Encode => SCREENCAP_ENCODE,
            ScreencapStrategy::RawWithGzip => SCREENCAP_RAW_WITH_GZIP,
            ScreencapStrategy::RawByNetcat => SCREENCAP_RAW_BY_NETCAT,
            ScreencapStrategy::MinicapDirect => SCREENCAP_MINICAP_DIRECT,
            ScreencapStrategy::MinicapStream => SCREENCAP_MINICAP_STREAM,
            ScreencapStrategy::EmulatorExtras => SCREENCAP_EMULATOR_EXTRAS,
        }
    }
}

/// With keys disabled, the input-method set is that of the touch strategy
/// alone; in particular the default configuration asks for the framework's
/// default set.
pub proof fn disabled_keys_add_no_input_method(config: ControllerConfig)
    requires
        config.key == KeyStrategy::Disabled,
    ensures
        config.input_method_set() == config.touch.method_set(),
        default_config().input_method_set() == INPUT_DEFAULT,
{
    let touch: u64 = config.touch.method_set();
    assert(touch | 0u64 == touch) by (bit_vector);
    let detected: u64 = INPUT_DEFAULT;
    assert(detected | 0u64 == detected) by (bit_vector);
}

} // verus!
