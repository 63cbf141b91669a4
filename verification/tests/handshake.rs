use device_session::config::{
    select_controller_config, ControllerConfig, KeyStrategy, ScreencapStrategy, TouchStrategy,
};
use device_session::descriptor::DeviceDescriptor;
use device_session::error::SessionError;
use device_session::handshake::{
    ConnectionOutcome, Handshake, LinkAction, LinkEvent, Progress, MOCK_DELAY_SECONDS,
};
use device_session::mode::PathMode;

fn device() -> DeviceDescriptor {
    DeviceDescriptor::new(
        "/opt/adb".to_string(),
        "emulator-5554".to_string(),
        "{\"a\":1}".to_string(),
    )
}

fn begin_real() -> (Handshake<u32>, LinkAction) {
    let device = device();
    Handshake::begin(PathMode::Real, &device, select_controller_config(&device))
}

fn go_on(progress: Progress<u32>) -> (Handshake<u32>, LinkAction) {
    match progress {
        Progress::Continue(handshake, action) => (handshake, action),
        Progress::Finished(outcome) => panic!("the attempt ended early: {:?}", outcome),
    }
}

fn ended(progress: Progress<u32>) -> ConnectionOutcome<u32> {
    match progress {
        Progress::Finished(outcome) => outcome,
        Progress::Continue(_, action) => panic!("the attempt goes on: {:?}", action),
    }
}

fn posting() -> Handshake<u32> {
    go_on(begin_real().0.step(LinkEvent::Constructed(41))).0
}

fn waiting() -> Handshake<u32> {
    go_on(posting().step(LinkEvent::Posted(900))).0
}

fn binding() -> Handshake<u32> {
    go_on(waiting().step(LinkEvent::Completed(3000))).0
}

fn stray_events() -> Vec<LinkEvent<u32>> {
    vec![
        LinkEvent::Constructed(77),
        LinkEvent::Posted(1),
        LinkEvent::Completed(3000),
        LinkEvent::Completed(4000),
        LinkEvent::Bound(true),
        LinkEvent::Bound(false),
        LinkEvent::Elapsed,
        LinkEvent::Aborted,
    ]
}

#[test]
fn real_attempt_starts_with_the_construction() {
    let chosen = ControllerConfig {
        touch: TouchStrategy::MaaTouch,
        key: KeyStrategy::AdbShell,
        screencap: ScreencapStrategy::Encode,
    };
    let (handshake, action) = Handshake::<u32>::begin(PathMode::Real, &device(), chosen);
    assert!(handshake.handle().is_none());
    match action {
        LinkAction::Construct(request) => {
            assert_eq!(request.adb_path(), "/opt/adb");
            assert_eq!(request.adb_serial(), "emulator-5554");
            assert_eq!(request.adb_config(), "{\"a\":1}");
            assert_eq!(request.agent_path(), "MaaAgentBinary");
            assert_eq!(request.config(), chosen);
        }
        other => panic!("unexpected first action: {:?}", other),
    }
}

#[test]
fn mock_attempt_starts_with_the_fixed_delay() {
    let device = device();
    let (handshake, action) =
        Handshake::<u32>::begin(PathMode::Mock, &device, select_controller_config(&device));
    assert!(handshake.handle().is_none());
    assert!(matches!(action, LinkAction::Delay(5)));
    assert_eq!(MOCK_DELAY_SECONDS, 5);
}

#[test]
fn mock_attempt_succeeds_whatever_is_reported() {
    for event in stray_events() {
        let device = device();
        let (handshake, _) =
            Handshake::<u32>::begin(PathMode::Mock, &device, select_controller_config(&device));
        assert_eq!(ended(handshake.step(event)), ConnectionOutcome::Simulated);
    }
}

#[test]
fn whole_handshake_goes_through_four_steps() {
    let (handshake, action) = begin_real();
    assert!(matches!(action, LinkAction::Construct(_)));
    let (handshake, action) = go_on(handshake.step(LinkEvent::Constructed(41)));
    assert!(matches!(action, LinkAction::PostConnect));
    assert_eq!(handshake.handle(), Some(&41));
    let (handshake, action) = go_on(handshake.step(LinkEvent::Posted(900)));
    assert!(matches!(action, LinkAction::Wait(900)));
    assert_eq!(handshake.handle(), Some(&41));
    let (handshake, action) = go_on(handshake.step(LinkEvent::Completed(3000)));
    assert!(matches!(action, LinkAction::Bind));
    assert_eq!(handshake.handle(), Some(&41));
    let outcome = ended(handshake.step(LinkEvent::Bound(true)));
    assert_eq!(outcome, ConnectionOutcome::Connected(41));
}

#[test]
fn wait_token_is_the_one_that_was_posted() {
    for token in [0i64, -1, 1, i64::MAX, i64::MIN] {
        let (_, action) = go_on(posting().step(LinkEvent::Posted(token)));
        match action {
            LinkAction::Wait(awaited) => assert_eq!(awaited, token),
            other => panic!("unexpected action: {:?}", other),
        }
    }
}

#[test]
fn non_success_status_ends_in_a_connection_error() {
    for code in [0, 1000, 2000, 4000, -1, 2999, 3001, i32::MAX, i32::MIN] {
        let outcome = ended(waiting().step(LinkEvent::Completed(code)));
        assert_eq!(outcome, ConnectionOutcome::Failed(SessionError::ConnectionError));
    }
}

#[test]
fn aborted_wait_ends_in_a_connection_error() {
    let outcome = ended(waiting().step(LinkEvent::Aborted));
    assert_eq!(outcome, ConnectionOutcome::Failed(SessionError::ConnectionError));
}

#[test]
fn failed_binding_ends_in_a_binding_error() {
    let outcome = ended(binding().step(LinkEvent::Bound(false)));
    assert_eq!(outcome, ConnectionOutcome::Failed(SessionError::BindingError));
}

#[test]
fn construction_takes_only_a_built_controller() {
    for event in stray_events() {
        let progress = begin_real().0.step(event);
        match progress {
            Progress::Continue(handshake, action) => {
                assert!(matches!(action, LinkAction::PostConnect));
                assert_eq!(handshake.handle(), Some(&77));
            }
            Progress::Finished(outcome) => {
                assert_eq!(outcome, ConnectionOutcome::Failed(SessionError::ConnectionError));
            }
        }
    }
    let aborted = ended(begin_real().0.step(LinkEvent::Aborted));
    assert_eq!(aborted, ConnectionOutcome::Failed(SessionError::ConnectionError));
}

#[test]
fn submission_takes_only_a_token() {
    for event in stray_events() {
        let is_token = matches!(event, LinkEvent::Posted(_));
        let progress = posting().step(event);
        match progress {
            Progress::Continue(handshake, action) => {
                assert!(is_token);
                assert!(matches!(action, LinkAction::Wait(1)));
                assert_eq!(handshake.handle(), Some(&41));
            }
            Progress::Finished(outcome) => {
                assert!(!is_token);
                assert_eq!(outcome, ConnectionOutcome::Failed(SessionError::ConnectionError));
            }
        }
    }
}

#[test]
fn wait_takes_only_the_success_code() {
    for event in stray_events() {
        let is_success = matches!(event, LinkEvent::Completed(3000));
        let progress = waiting().step(event);
        match progress {
            Progress::Continue(handshake, action) => {
                assert!(is_success);
                assert!(matches!(action, LinkAction::Bind));
                assert_eq!(handshake.handle(), Some(&41));
            }
            Progress::Finished(outcome) => {
                assert!(!is_success);
                assert_eq!(outcome, ConnectionOutcome::Failed(SessionError::ConnectionError));
            }
        }
    }
}

#[test]
fn binding_takes_only_a_successful_binding() {
    for event in stray_events() {
        let is_bound = matches!(event, LinkEvent::Bound(true));
        let outcome = ended(binding().step(event));
        if is_bound {
            assert_eq!(outcome, ConnectionOutcome::Connected(41));
        } else {
            assert_eq!(outcome, ConnectionOutcome::Failed(SessionError::BindingError));
        }
    }
}

#[test]
fn controller_of_a_stray_construction_is_never_handed_over() {
    let outcome = ended(binding().step(LinkEvent::Constructed(77)));
    assert_eq!(outcome, ConnectionOutcome::Failed(SessionError::BindingError));
    let (handshake, _) = go_on(posting().step(LinkEvent::Posted(5)));
    assert_eq!(handshake.handle(), Some(&41));
}
