use device_session::config::{
    select_controller_config, ControllerConfig, KeyStrategy, ScreencapStrategy, TouchStrategy,
    INPUT_ADB_SHELL, INPUT_DEFAULT, INPUT_EMULATOR_EXTRAS, INPUT_MAATOUCH,
    INPUT_MINITOUCH_AND_ADB_KEY, INPUT_NONE, SCREENCAP_EMULATOR_EXTRAS, SCREENCAP_ENCODE,
    SCREENCAP_ENCODE_TO_FILE_AND_PULL, SCREENCAP_MINICAP_DIRECT, SCREENCAP_MINICAP_STREAM,
    SCREENCAP_RAW_BY_NETCAT, SCREENCAP_RAW_WITH_GZIP,
};
use device_session::descriptor::{mock_adb_device, DeviceDescriptor};
use maa_framework::sys;

fn config(touch: TouchStrategy, key: KeyStrategy, screencap: ScreencapStrategy) -> ControllerConfig {
    ControllerConfig { touch, key, screencap }
}

#[test]
fn selected_config_is_the_default() {
    let device = DeviceDescriptor::new(
        "adb".to_string(),
        "emulator-5554".to_string(),
        "{}".to_string(),
    );
    let selected = select_controller_config(&device);
    assert_eq!(selected.touch, TouchStrategy::AutoDetect);
    assert_eq!(selected.key, KeyStrategy::Disabled);
    assert_eq!(selected.screencap, ScreencapStrategy::MinicapDirect);
}

#[test]
fn selection_is_the_same_for_the_same_descriptor() {
    let device = DeviceDescriptor::new(
        "/usr/bin/adb".to_string(),
        "192.168.1.20:5555".to_string(),
        "{\"k\":1}".to_string(),
    );
    let first = select_controller_config(&device);
    let second = select_controller_config(&device);
    let third = select_controller_config(&device.clone());
    assert_eq!(first, second);
    assert_eq!(first, third);
}

#[test]
fn selection_is_defined_for_unusual_descriptors() {
    let empty = DeviceDescriptor::new(String::new(), String::new(), String::new());
    let odd = DeviceDescriptor::new(
        "\u{0}".to_string(),
        "大".to_string(),
        "not json".to_string(),
    );
    let expected = config(
        TouchStrategy::AutoDetect,
        KeyStrategy::Disabled,
        ScreencapStrategy::MinicapDirect,
    );
    assert_eq!(select_controller_config(&empty), expected);
    assert_eq!(select_controller_config(&odd), expected);
    assert_eq!(select_controller_config(&mock_adb_device()), expected);
}

#[test]
fn default_config_asks_for_the_default_input_set_and_minicap_direct() {
    let selected = select_controller_config(&mock_adb_device());
    assert_eq!(selected.input_methods(), 0xFFFF_FFFF_FFFF_FFF7);
    assert_eq!(selected.screencap_methods(), 16);
}

#[test]
fn input_set_is_the_union_of_touch_and_key() {
    let shot = ScreencapStrategy::Encode;
    assert_eq!(config(TouchStrategy::AdbShell, KeyStrategy::Disabled, shot).input_methods(), 1);
    assert_eq!(config(TouchStrategy::MiniTouch, KeyStrategy::Disabled, shot).input_methods(), 2);
    assert_eq!(config(TouchStrategy::MaaTouch, KeyStrategy::Disabled, shot).input_methods(), 4);
    assert_eq!(config(TouchStrategy::EmulatorExtras, KeyStrategy::Disabled, shot).input_methods(), 8);
    assert_eq!(config(TouchStrategy::MiniTouch, KeyStrategy::AdbShell, shot).input_methods(), 3);
    assert_eq!(config(TouchStrategy::MaaTouch, KeyStrategy::MaaTouch, shot).input_methods(), 4);
    assert_eq!(config(TouchStrategy::AdbShell, KeyStrategy::EmulatorExtras, shot).input_methods(), 9);
    assert_eq!(config(TouchStrategy::MaaTouch, KeyStrategy::AdbShell, shot).input_methods(), 5);
    assert_eq!(
        config(TouchStrategy::EmulatorExtras, KeyStrategy::AutoDetect, shot).input_methods(),
        u64::MAX
    );
    assert_eq!(
        config(TouchStrategy::AutoDetect, KeyStrategy::MaaTouch, shot).input_methods(),
        0xFFFF_FFFF_FFFF_FFF7
    );
}

#[test]
fn screencap_set_is_the_one_bit_of_the_strategy() {
    let with = |screencap| config(TouchStrategy::AutoDetect, KeyStrategy::Disabled, screencap);
    assert_eq!(with(ScreencapStrategy::EncodeToFileAndPull).screencap_methods(), 1);
    assert_eq!(with(ScreencapStrategy::Encode).screencap_methods(), 2);
    assert_eq!(with(ScreencapStrategy::RawWithGzip).screencap_methods(), 4);
    assert_eq!(with(ScreencapStrategy::RawByNetcat).screencap_methods(), 8);
    assert_eq!(with(ScreencapStrategy::MinicapDirect).screencap_methods(), 16);
    assert_eq!(with(ScreencapStrategy::MinicapStream).screencap_methods(), 32);
    assert_eq!(with(ScreencapStrategy::EmulatorExtras).screencap_methods(), 64);
}

#[test]
fn input_bits_are_those_of_the_framework() {
    assert_eq!(INPUT_ADB_SHELL, sys::MaaAdbInputMethod_AdbShell as u64);
    assert_eq!(INPUT_MINITOUCH_AND_ADB_KEY, sys::MaaAdbInputMethod_MinitouchAndAdbKey as u64);
    assert_eq!(INPUT_MAATOUCH, sys::MaaAdbInputMethod_Maatouch as u64);
    assert_eq!(INPUT_EMULATOR_EXTRAS, sys::MaaAdbInputMethod_EmulatorExtras as u64);
    assert_eq!(INPUT_NONE, sys::MaaAdbInputMethod_None as u64);
    assert_eq!(INPUT_DEFAULT, sys::MaaAdbInputMethod_Default as sys::MaaAdbInputMethod);
}

#[test]
fn screencap_bits_are_those_of_the_framework() {
    assert_eq!(
        SCREENCAP_ENCODE_TO_FILE_AND_PULL,
        sys::MaaAdbScreencapMethod_EncodeToFileAndPull as u64
    );
    assert_eq!(SCREENCAP_ENCODE, sys::MaaAdbScreencapMethod_Encode as u64);
    assert_eq!(SCREENCAP_RAW_WITH_GZIP, sys::MaaAdbScreencapMethod_RawWithGzip as u64);
    assert_eq!(SCREENCAP_RAW_BY_NETCAT, sys::MaaAdbScreencapMethod_RawByNetcat as u64);
    assert_eq!(SCREENCAP_MINICAP_DIRECT, sys::MaaAdbScreencapMethod_MinicapDirect as u64);
    assert_eq!(SCREENCAP_MINICAP_STREAM, sys::MaaAdbScreencapMethod_MinicapStream as u64);
    assert_eq!(SCREENCAP_EMULATOR_EXTRAS, sys::MaaAdbScreencapMethod_EmulatorExtras as u64);
}
