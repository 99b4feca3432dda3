use ashpd::capability::{Axis, CapabilitySet, DeviceType, KeyState};
use ashpd::error::PortalError;
use ashpd::object_path::ObjectRef;
use ashpd::remote_desktop::{CreateSession, SelectDevicesOptions, StartRemoteOptions};
use ashpd::request::{Correlator, Delivery, Outcome, RequestKind};
use ashpd::screenshot::{PickColorOptions, ScreenshotOptions};
use ashpd::token::{request_path, session_path, HandleToken, TokenGenerator};
use ashpd::window_identifier::WindowIdentifier;

#[test]
fn capability_set_operations() {
    let k = CapabilitySet::single(DeviceType::Keyboard);
    let p = CapabilitySet::single(DeviceType::Pointer);
    let kp = k.union(&p);
    assert!(kp.contains(DeviceType::Keyboard));
    assert!(kp.contains(DeviceType::Pointer));
    assert!(!kp.contains(DeviceType::Touchscreen));
    assert_eq!(kp.intersection(&p), p);
    assert!(k.is_subset(&kp));
    assert!(!kp.is_subset(&k));
    assert!(CapabilitySet::empty().is_empty());
    assert!(!k.is_empty());
    assert_eq!(CapabilitySet::empty().with(DeviceType::Touchscreen), CapabilitySet::single(DeviceType::Touchscreen));
}

#[test]
fn capability_bits() {
    assert_eq!(CapabilitySet::all().bits(), 7);
    assert_eq!(CapabilitySet::single(DeviceType::Pointer).bits(), 2);
    assert_eq!(CapabilitySet::empty().bits(), 0);
    assert_eq!(CapabilitySet::from_bits(5), CapabilitySet::single(DeviceType::Keyboard).with(DeviceType::Touchscreen));
    assert_eq!(CapabilitySet::from_bits(8 | 2), CapabilitySet::single(DeviceType::Pointer));
    let s = CapabilitySet::single(DeviceType::Keyboard).with(DeviceType::Pointer);
    assert_eq!(CapabilitySet::from_bits(s.bits()), s);
    assert_eq!(DeviceType::Touchscreen.bit(), 4);
    assert_eq!(KeyState::Pressed.code(), 0);
    assert_eq!(KeyState::Released.code(), 1);
    assert_eq!(Axis::Horizontal.code(), 1);
}

#[test]
fn handle_token_validation() {
    assert_eq!(HandleToken::new("token_1").unwrap().as_str(), "token_1");
    assert_eq!(HandleToken::new("").unwrap_err(), PortalError::InvalidToken);
    assert_eq!(HandleToken::new("a-b").unwrap_err(), PortalError::InvalidToken);
    assert_eq!(HandleToken::new("a/b").unwrap_err(), PortalError::InvalidToken);
    assert_eq!(HandleToken::new("é").unwrap_err(), PortalError::InvalidToken);
}

#[test]
fn generated_tokens_are_distinct() {
    let mut g = TokenGenerator::new();
    let mut seen: Vec<String> = Vec::new();
    for _ in 0..120 {
        let t = g.next_token().unwrap();
        let text = t.as_str().to_string();
        assert!(HandleToken::new(&text).is_ok());
        assert!(!seen.contains(&text));
        seen.push(text);
    }
    assert_eq!(seen[0], "ashpd_0");
    assert_eq!(seen[10], "ashpd_10");
    assert_eq!(seen[119], "ashpd_119");
}

#[test]
fn request_and_session_paths() {
    let t = HandleToken::new("abc").unwrap();
    assert_eq!(
        request_path(":1.42", &t).unwrap().as_str(),
        "/org/freedesktop/portal/desktop/request/1_42/abc"
    );
    assert_eq!(
        session_path(":1.42", &t).unwrap().as_str(),
        "/org/freedesktop/portal/desktop/session/1_42/abc"
    );
    assert!(request_path("", &t).is_none());
    assert!(request_path(":1-2", &t).is_none());
}

#[test]
fn object_path_checks() {
    assert!(ObjectRef::new("/".to_string()).is_some());
    assert_eq!(ObjectRef::new("/a/b_1".to_string()).unwrap().as_str(), "/a/b_1");
    assert!(ObjectRef::new(String::new()).is_none());
    assert!(ObjectRef::new("a/b".to_string()).is_none());
    assert!(ObjectRef::new("/a//b".to_string()).is_none());
    assert!(ObjectRef::new("/a/".to_string()).is_none());
    assert!(ObjectRef::new("/a-b".to_string()).is_none());
    let a = ObjectRef::new("/x".to_string()).unwrap();
    assert!(a.same_as(&a.duplicate()));
    assert!(CreateSession::new("/session/abc".to_string()).handle().is_some());
    assert!(CreateSession::new("nope".to_string()).handle().is_none());
}

#[test]
fn outcome_codes() {
    assert_eq!(Outcome::from_code(0), Outcome::Success);
    assert_eq!(Outcome::from_code(1), Outcome::Cancelled);
    assert_eq!(Outcome::from_code(2), Outcome::Other(2));
    assert_eq!(Outcome::from_code(7), Outcome::Other(7));
}

#[test]
fn correlator_delivers_once() {
    let mut c = Correlator::new();
    let p = ObjectRef::new("/org/freedesktop/portal/desktop/request/1_42/t1".to_string()).unwrap();
    let q = ObjectRef::new("/org/freedesktop/portal/desktop/request/1_42/t2".to_string()).unwrap();
    assert!(c.register(p.duplicate(), RequestKind::CreateSession));
    assert!(c.register(q.duplicate(), RequestKind::Start));
    assert!(!c.register(p.duplicate(), RequestKind::Other));
    assert_eq!(c.len(), 2);
    assert_eq!(c.deliver(&q, 0), Some(Delivery { kind: RequestKind::Start, outcome: Outcome::Success }));
    assert_eq!(c.deliver(&q, 0), None);
    assert!(c.is_pending(&p));
    assert_eq!(
        c.deliver(&p, 1),
        Some(Delivery { kind: RequestKind::CreateSession, outcome: Outcome::Cancelled })
    );
    assert_eq!(c.deliver(&p, 1), None);
    assert_eq!(c.len(), 0);
}

#[test]
fn correlator_abandon() {
    let mut c = Correlator::new();
    let p = ObjectRef::new("/r/1".to_string()).unwrap();
    assert!(!c.abandon(&p));
    assert!(c.register(p.duplicate(), RequestKind::SelectDevices));
    assert!(c.abandon(&p));
    assert!(!c.is_pending(&p));
    assert_eq!(c.deliver(&p, 0), None);
}

#[test]
fn window_identifiers() {
    assert_eq!(WindowIdentifier::default().as_str(), "");
    assert_eq!(WindowIdentifier::new("wayland:abc").as_str(), "wayland:abc");
    assert_eq!(WindowIdentifier::from_x11_xid(4194307).as_str(), "x11:4194307");
    assert_eq!(WindowIdentifier::from_x11_xid(0).as_str(), "x11:0");
}

#[test]
fn option_builders() {
    let o = ScreenshotOptions::default().modal(true).interactive(false);
    assert_eq!(o.modal, Some(true));
    assert_eq!(o.interactive, Some(false));
    assert!(o.handle_token.is_none());
    let o = o.handle_token(HandleToken::new("s1").unwrap());
    assert_eq!(o.handle_token.unwrap().as_str(), "s1");
    let p = PickColorOptions::default().handle_token(HandleToken::new("c1").unwrap());
    assert_eq!(p.handle_token.unwrap().as_str(), "c1");
    let s = StartRemoteOptions::default().handle_token(HandleToken::new("st").unwrap());
    assert_eq!(s.handle_token.unwrap().as_str(), "st");
    let d = SelectDevicesOptions::default()
        .types(CapabilitySet::single(DeviceType::Keyboard))
        .handle_token(HandleToken::new("sd").unwrap());
    assert_eq!(d.types, Some(CapabilitySet::single(DeviceType::Keyboard)));
    assert_eq!(d.handle_token.unwrap().as_str(), "sd");
}
