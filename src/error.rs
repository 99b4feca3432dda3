use vstd::prelude::*;
use crate::capability::{CapabilitySet, DeviceType};

verus! {

/// Where a remote desktop session stands in its lifecycle.
#[derive(Clone, Copy, Debug, PartialEq, Eq, Structural)]
pub enum SessionState {
    /// No call has been made yet.
    Unopened,
    /// The create-session request is awaiting its result.
    Creating,
    /// The broker created the session.
    Created,
    /// The select-devices request is awaiting its result.
    SelectingDevices,
    /// The user accepted the device selection.
    DevicesSelected,
    /// The start request is awaiting its result.
    Starting,
    /// The session is started: input events may be sent.
    Active,
    /// The session is over.
    Closed,
}

/// Why a portal call was refused or failed.
#[derive(Clone, Copy, Debug, PartialEq, Eq, Structural)]
pub enum PortalError {
    /// A caller-supplied handle token is not a valid path segment.
    InvalidToken,
    /// The call is not allowed in the session's current state.
    InvalidState { current: SessionState, required: SessionState },
    /// The event's device kind was not granted.
    CapabilityDenied { kind: DeviceType, granted: CapabilitySet },
    /// The user dismissed the dialog.
    Cancelled,
    /// The broker reported a failure other than a cancellation.
    BrokerError(u32),
    /// The call or its reply could not be carried over the bus.
    TransportError,
}

} // verus!
