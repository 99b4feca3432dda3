use ashpd::capability::{CapabilitySet, DeviceType, KeyState};
use ashpd::error::{PortalError, SessionState};
use ashpd::input::InputEvent;
use ashpd::remote_desktop::{
    CreateRemoteOptions, CreateSession, SelectDevicesOptions, SelectedDevices, StartRemoteOptions,
};
use ashpd::request::Outcome;
use ashpd::session::{BrokerCall, Session};
use ashpd::token::HandleToken;
use ashpd::window_identifier::WindowIdentifier;

fn keyboard_and_pointer() -> CapabilitySet {
    CapabilitySet::single(DeviceType::Keyboard).union(&CapabilitySet::single(DeviceType::Pointer))
}

fn created(path: &str) -> Session {
    let mut s = Session::new();
    s.create(CreateRemoteOptions::default()).unwrap();
    s.on_created(Outcome::Success, &CreateSession::new(path.to_string())).unwrap();
    s
}

fn active(requested: CapabilitySet, offered: CapabilitySet) -> Session {
    let mut s = created("/session/abc");
    s.select_devices(SelectDevicesOptions::default().types(requested)).unwrap();
    s.on_devices_selected(Outcome::Success).unwrap();
    s.start(WindowIdentifier::default(), StartRemoteOptions::default()).unwrap();
    s.on_started(Outcome::Success, SelectedDevices { devices: offered }).unwrap();
    s
}

#[test]
fn scenario_grant_pointer_only() {
    let mut s = Session::new();
    let call = s.create(CreateRemoteOptions::default()).unwrap();
    assert!(matches!(
        call,
        BrokerCall::CreateSession { handle_token: None, session_handle_token: None }
    ));
    assert_eq!(s.state(), SessionState::Creating);
    s.on_created(Outcome::Success, &CreateSession::new("/session/abc".to_string())).unwrap();
    assert_eq!(s.state(), SessionState::Created);
    assert_eq!(s.path().unwrap().as_str(), "/session/abc");

    let call = s.select_devices(SelectDevicesOptions::default().types(keyboard_and_pointer())).unwrap();
    match call {
        BrokerCall::SelectDevices { session, handle_token, types } => {
            assert_eq!(session.as_str(), "/session/abc");
            assert!(handle_token.is_none());
            assert_eq!(types, keyboard_and_pointer());
        }
        _ => panic!("expected a select-devices call"),
    }
    s.on_devices_selected(Outcome::Success).unwrap();
    assert_eq!(s.state(), SessionState::DevicesSelected);

    let call = s.start(WindowIdentifier::new(""), StartRemoteOptions::default()).unwrap();
    match call {
        BrokerCall::Start { session, parent_window, .. } => {
            assert_eq!(session.as_str(), "/session/abc");
            assert_eq!(parent_window.as_str(), "");
        }
        _ => panic!("expected a start call"),
    }
    let pointer = CapabilitySet::single(DeviceType::Pointer);
    let granted = s.on_started(Outcome::Success, SelectedDevices { devices: pointer }).unwrap();
    assert_eq!(granted, pointer);
    assert_eq!(s.state(), SessionState::Active);

    assert_eq!(
        s.notify_keyboard_keycode(13, KeyState::Pressed),
        Err(PortalError::CapabilityDenied { kind: DeviceType::Keyboard, granted: pointer })
    );
    let (dx, dy) = (1.0f64, 0.0f64);
    assert_eq!(s.notify_pointer_motion(), Ok(InputEvent::PointerMotion));
    assert_eq!(dx + dy, 1.0);
}

#[test]
fn scenario_create_cancelled() {
    let mut s = Session::new();
    s.create(CreateRemoteOptions::default()).unwrap();
    let r = s.on_created(Outcome::from_code(1), &CreateSession::new(String::new()));
    assert_eq!(r, Err(PortalError::Cancelled));
    assert_eq!(s.state(), SessionState::Closed);
    assert_eq!(s.failure(), Some(PortalError::Cancelled));
    let r = s.select_devices(SelectDevicesOptions::default());
    assert!(matches!(
        r,
        Err(PortalError::InvalidState { current: SessionState::Closed, required: SessionState::Created })
    ));
}

#[test]
fn scenario_select_before_create_completes() {
    let mut s = Session::new();
    let r = s.select_devices(SelectDevicesOptions::default());
    assert!(matches!(
        r,
        Err(PortalError::InvalidState { current: SessionState::Unopened, required: SessionState::Created })
    ));
    assert_eq!(s.state(), SessionState::Unopened);
    s.create(CreateRemoteOptions::default()).unwrap();
    let r = s.select_devices(SelectDevicesOptions::default());
    assert!(matches!(
        r,
        Err(PortalError::InvalidState { current: SessionState::Creating, required: SessionState::Created })
    ));
    assert_eq!(s.state(), SessionState::Creating);
}

#[test]
fn out_of_order_calls_are_refused() {
    let mut s = Session::new();
    assert!(matches!(
        s.start(WindowIdentifier::default(), StartRemoteOptions::default()),
        Err(PortalError::InvalidState { current: SessionState::Unopened, required: SessionState::DevicesSelected })
    ));
    let mut s = created("/session/abc");
    assert!(matches!(
        s.create(CreateRemoteOptions::default()),
        Err(PortalError::InvalidState { current: SessionState::Created, required: SessionState::Unopened })
    ));
    assert!(matches!(
        s.start(WindowIdentifier::default(), StartRemoteOptions::default()),
        Err(PortalError::InvalidState { current: SessionState::Created, required: SessionState::DevicesSelected })
    ));
    assert_eq!(s.state(), SessionState::Created);
    assert_eq!(
        s.on_devices_selected(Outcome::Success),
        Err(PortalError::InvalidState { current: SessionState::Created, required: SessionState::SelectingDevices })
    );
    let mut s = active(keyboard_and_pointer(), keyboard_and_pointer());
    assert!(matches!(
        s.select_devices(SelectDevicesOptions::default()),
        Err(PortalError::InvalidState { current: SessionState::Active, required: SessionState::Created })
    ));
    assert_eq!(s.state(), SessionState::Active);
}

#[test]
fn select_devices_defaults_to_every_kind() {
    let mut s = created("/session/abc");
    s.select_devices(SelectDevicesOptions::default()).unwrap();
    assert_eq!(s.requested(), CapabilitySet::all());
}

#[test]
fn grant_is_cut_to_request() {
    let s = active(CapabilitySet::single(DeviceType::Keyboard), CapabilitySet::all());
    assert_eq!(s.granted(), CapabilitySet::single(DeviceType::Keyboard));
    assert!(s.granted().is_subset(&s.requested()));
}

#[test]
fn empty_grant_still_activates() {
    let s = active(keyboard_and_pointer(), CapabilitySet::empty());
    assert_eq!(s.state(), SessionState::Active);
    assert!(s.granted().is_empty());
    assert_eq!(
        s.notify_pointer_button(272, KeyState::Released),
        Err(PortalError::CapabilityDenied { kind: DeviceType::Pointer, granted: CapabilitySet::empty() })
    );
}

#[test]
fn close_twice_is_quiet() {
    let mut s = created("/session/abc");
    match s.close() {
        Some(BrokerCall::CloseSession { session }) => assert_eq!(session.as_str(), "/session/abc"),
        _ => panic!("expected a close call"),
    }
    assert_eq!(s.state(), SessionState::Closed);
    assert!(s.close().is_none());
    assert_eq!(s.state(), SessionState::Closed);
    assert!(s.path().is_none());
}

#[test]
fn close_unopened_has_nothing_to_send() {
    let mut s = Session::new();
    assert!(s.close().is_none());
    assert_eq!(s.state(), SessionState::Closed);
}

#[test]
fn broker_error_closes_session() {
    let mut s = created("/session/abc");
    s.select_devices(SelectDevicesOptions::default()).unwrap();
    assert_eq!(s.on_devices_selected(Outcome::from_code(2)), Err(PortalError::BrokerError(2)));
    assert_eq!(s.state(), SessionState::Closed);
    assert!(s.path().is_none());
}

#[test]
fn start_cancelled_closes_session() {
    let mut s = created("/session/abc");
    s.select_devices(SelectDevicesOptions::default()).unwrap();
    s.on_devices_selected(Outcome::Success).unwrap();
    s.start(WindowIdentifier::default(), StartRemoteOptions::default()).unwrap();
    let r = s.on_started(Outcome::Cancelled, SelectedDevices { devices: CapabilitySet::all() });
    assert_eq!(r, Err(PortalError::Cancelled));
    assert_eq!(s.state(), SessionState::Closed);
    assert!(s.granted().is_empty());
}

#[test]
fn malformed_session_handle_is_a_transport_error() {
    let mut s = Session::new();
    s.create(CreateRemoteOptions::default()).unwrap();
    let r = s.on_created(Outcome::Success, &CreateSession::new("session/abc".to_string()));
    assert_eq!(r, Err(PortalError::TransportError));
    assert_eq!(s.state(), SessionState::Closed);
}

#[test]
fn create_forwards_tokens() {
    let mut s = Session::new();
    let options = CreateRemoteOptions::default()
        .handle_token(HandleToken::new("req1").unwrap())
        .session_handle_token(HandleToken::new("token").unwrap());
    match s.create(options).unwrap() {
        BrokerCall::CreateSession { handle_token, session_handle_token } => {
            assert_eq!(handle_token.unwrap().as_str(), "req1");
            assert_eq!(session_handle_token.unwrap().as_str(), "token");
        }
        _ => panic!("expected a create call"),
    }
}

#[test]
fn events_need_active_session() {
    let s = created("/session/abc");
    assert_eq!(
        s.notify_touch_up(0),
        Err(PortalError::InvalidState { current: SessionState::Created, required: SessionState::Active })
    );
}

#[test]
fn every_emitter_is_gated_by_its_kind() {
    let s = active(CapabilitySet::all(), CapabilitySet::single(DeviceType::Touchscreen));
    let g = s.granted();
    let kb = Err(PortalError::CapabilityDenied { kind: DeviceType::Keyboard, granted: g });
    let ptr = Err(PortalError::CapabilityDenied { kind: DeviceType::Pointer, granted: g });
    assert_eq!(s.notify_keyboard_keycode(1, KeyState::Pressed), kb);
    assert_eq!(s.notify_keyboard_keysym(65, KeyState::Released), kb);
    assert_eq!(s.notify_pointer_motion(), ptr);
    assert_eq!(s.notify_pointer_motion_absolute(3), ptr);
    assert_eq!(s.notify_pointer_button(272, KeyState::Pressed), ptr);
    assert_eq!(s.notify_pointer_axis(), ptr);
    assert_eq!(s.notify_pointer_axis_discrete(ashpd::capability::Axis::Vertical, 2), ptr);
    assert_eq!(s.notify_touch_down(3, 0), Ok(InputEvent::TouchDown { stream: 3, slot: 0 }));
    assert_eq!(s.notify_touch_motion(3, 0), Ok(InputEvent::TouchMotion { stream: 3, slot: 0 }));
    assert_eq!(s.notify_touch_up(0), Ok(InputEvent::TouchUp { slot: 0 }));
}

#[test]
fn full_grant_lets_keyboard_through() {
    let s = active(CapabilitySet::all(), CapabilitySet::all());
    assert_eq!(
        s.notify_keyboard_keycode(13, KeyState::Pressed),
        Ok(InputEvent::KeyboardKeycode { keycode: 13, state: KeyState::Pressed })
    );
    assert_eq!(InputEvent::PointerAxis.device(), DeviceType::Pointer);
}
