use vstd::prelude::*;
use crate::capability::{Axis, DeviceType, KeyState};
use crate::error::{PortalError, SessionState};
use crate::session::{input_verdict, Session};

verus! {

/// An input notification for the broker. Motion deltas, axis deltas and
/// coordinates are floating-point values that the caller attaches when it
/// sends the event; the other fields are carried here.
#[derive(Clone, Copy, Debug, PartialEq, Eq, Structural)]
pub enum InputEvent {
    /// A keyboard key code was pressed or released.
    KeyboardKeycode { keycode: i32, state: KeyState },
    /// A keyboard symbol was pressed or released.
    KeyboardKeysym { keysym: i32, state: KeyState },
    /// The pointer moved by a relative delta.
    PointerMotion,
    /// The pointer moved to a position in the coordinate space of `stream`.
    PointerMotionAbsolute { stream: u32 },
    /// A pointer button, by its evdev code, was pressed or released.
    PointerButton { button: i32, state: KeyState },
    /// A smooth scroll by a delta.
    PointerAxis,
    /// A scroll by whole steps along an axis.
    PointerAxisDiscrete { axis: Axis, steps: i32 },
    /// A touch point appeared in `slot`, in the coordinate space of `stream`.
    TouchDown { stream: u32, slot: u32 },
    /// The touch point in `slot` moved, in the coordinate space of `stream`.
    TouchMotion { stream: u32, slot: u32 },
    /// The touch point in `slot` went away.
    TouchUp { slot: u32 },
}

/// The device kind that an event needs: keyboard events need the keyboard,
/// pointer events the pointer, touch events the touchscreen.
pub open spec fn device_of(e: InputEvent) -> DeviceType {
    match e {
        InputEvent::KeyboardKeycode { .. } | InputEvent::KeyboardKeysym { .. } => {
            DeviceType::Keyboard
        },
        InputEvent::TouchDown { .. } | InputEvent::TouchMotion { .. } | InputEvent::TouchUp {
            ..
        } => DeviceType::Touchscreen,
        _ => DeviceType::Pointer,
    }
}

/// The result of sending an event from a session in state `v`.
pub open spec fn send_verdict(
    v: crate::session::SessionView,
    e: InputEvent,
) -> Result<InputEvent, PortalError> {
    match input_verdict(v, device_of(e)) {
        Ok(_) => Ok(e),
        Err(err) => Err(err),
    }
}

impl InputEvent {
    /// The device kind that the event needs.
    pub fn device(&self) -> (r: DeviceType)
        ensures
            r == device_of(*self),
    {
        match self {
            InputEvent::KeyboardKeycode { .. } | InputEvent::KeyboardKeysym { .. } => {
                DeviceType::Keyboard
            },
            InputEvent::TouchDown { .. } | InputEvent::TouchMotion { .. } | InputEvent::TouchUp {
                ..
            } => DeviceType::Touchscreen,
            _ => DeviceType::Pointer,
        }
    }
}

impl Session {
    /// Whether an event of a device kind may be sent now: the session must be
    /// active (else `InvalidState`) and the kind granted (else
    /// `CapabilityDenied`, naming the kind and the grant).
    pub fn authorize(&self, kind: DeviceType) -> (r: Result<(), PortalError>)
        ensures
            r == input_verdict(self@, kind),
    {
        let state = self.state();
        if state != SessionState::Active {
            return Err(PortalError::InvalidState { current: state, required: SessionState::Active });
        }
        let granted = self.granted();
        if !granted.contains(kind) {
            return Err(PortalError::CapabilityDenied { kind, granted });
        }
        Ok(())
    }

    /// The event, cleared for sending, or why it may not be sent.
    pub fn notify(&self, event: InputEvent) -> (r: Result<InputEvent, PortalError>)
        ensures
            r == send_verdict(self@, event),
    {
        match self.authorize(event.device()) {
            Ok(()) => Ok(event),
            Err(e) => Err(e),
        }
    }

    /// A keyboard key code event; needs the keyboard.
    pub fn notify_keyboard_keycode(&self, keycode: i32, state: KeyState) -> (r: Result<
        InputEvent,
        PortalError,
    >)
        ensures
            r == send_verdict(self@, InputEvent::KeyboardKeycode { keycode, state }),
    {
        self.notify(InputEvent::KeyboardKeycode { keycode, state })
    }

    /// A keyboard symbol event; needs the keyboard.
    pub fn notify_keyboard_keysym(&self, keysym: i32, state: KeyState) -> (r: Result<
        InputEvent,
        PortalError,
    >)
        ensures
            r == send_verdict(self@, InputEvent::KeyboardKeysym { keysym, state }),
    {
        self.notify(InputEvent::KeyboardKeysym { keysym, state })
    }

    /// A relative pointer motion event; needs the pointer.
    pub fn notify_pointer_motion(&self) -> (r: Result<InputEvent, PortalError>)
        ensures
            r == send_verdict(self@, InputEvent::PointerMotion),
    {
        self.notify(InputEvent::PointerMotion)
    }

    /// An absolute pointer motion event relative to `stream`; needs the pointer.
    pub fn notify_pointer_motion_absolute(&self, stream: u32) -> (r: Result<
        InputEvent,
        PortalError,
    >)
        ensures
            r == send_verdict(self@, InputEvent::PointerMotionAbsolute { stream }),
    {
        self.notify(InputEvent::PointerMotionAbsolute { stream })
    }

    /// A pointer button event; needs the pointer.
    pub fn notify_pointer_button(&self, button: i32, state: KeyState) -> (r: Result<
        InputEvent,
        PortalError,
    >)
        ensures
            r == send_verdict(self@, InputEvent::PointerButton { button, state }),
    {
        self.notify(InputEvent::PointerButton { button, state })
    }

    /// A smooth scroll event; needs the pointer.
    pub fn notify_pointer_axis(&self) -> (r: Result<InputEvent, PortalError>)
        ensures
            r == send_verdict(self@, InputEvent::PointerAxis),
    {
        self.notify(InputEvent::PointerAxis)
    }

    /// A discrete scroll event; needs the pointer.
    pub fn notify_pointer_axis_discrete(&self, axis: Axis, steps: i32) -> (r: Result<
        InputEvent,
        PortalError,
    >)
        ensures
            r == send_verdict(self@, InputEvent::PointerAxisDiscrete { axis, steps }),
    {
        self.notify(InputEvent::PointerAxisDiscrete { axis, steps })
    }

    /// A touch down event; needs the touchscreen.
    pub fn notify_touch_down(&self, stream: u32, slot: u32) -> (r: Result<
        InputEvent,
        PortalError,
    >)
        ensures
            r == send_verdict(self@, InputEvent::TouchDown { stream, slot }),
    {
        self.notify(InputEvent::TouchDown { stream, slot })
    }

    /// A touch motion event; needs the touchscreen.
    pub fn notify_touch_motion(&self, stream: u32, slot: u32) -> (r: Result<
        InputEvent,
        PortalError,
    >)
        ensures
            r == send_verdict(self@, InputEvent::TouchMotion { stream, slot }),
    {
        self.notify(InputEvent::TouchMotion { stream, slot })
    }

    /// A touch up event; needs the touchscreen.
    pub fn notify_touch_up(&self, slot: u32) -> (r: Result<InputEvent, PortalError>)
        ensures
            r == send_verdict(self@, InputEvent::TouchUp { slot }),
    {
        self.notify(InputEvent::TouchUp { slot })
    }
}

/// An event is let through only from an active session whose grant holds the
/// event's device kind; from an active session every event of a kind that was
/// not granted is refused with `CapabilityDenied`.
pub proof fn lemma_events_gated(v: crate::session::SessionView, e: InputEvent)
    ensures
        send_verdict(v, e) is Ok <==> (v.state == SessionState::Active && v.granted@.contains(
            device_of(e),
        )),
        v.state == SessionState::Active && !v.granted@.contains(device_of(e)) ==> send_verdict(
            v,
            e,
        ) == Err::<InputEvent, PortalError>(
            PortalError::CapabilityDenied { kind: device_of(e), granted: v.granted },
        ),
{
}

} // verus!
