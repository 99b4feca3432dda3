use vstd::prelude::*;
use crate::capability::{CapabilitySet, DeviceType};
use crate::error::{PortalError, SessionState};
use crate::object_path::{is_object_path, ObjectRef};
use crate::remote_desktop::{
    CreateRemoteOptions, CreateSession, SelectDevicesOptions, SelectedDevices, StartRemoteOptions,
};
use crate::request::Outcome;
use crate::token::HandleToken;
use crate::window_identifier::WindowIdentifier;

verus! {

/// A call that the session asks its owner to make on the broker.
#[derive(Debug)]
pub enum BrokerCall {
    /// Create a remote desktop session.
    CreateSession { handle_token: Option<HandleToken>, session_handle_token: Option<HandleToken> },
    /// Ask the user for the given device kinds.
    SelectDevices { session: ObjectRef, handle_token: Option<HandleToken>, types: CapabilitySet },
    /// Start the session, showing the consent dialog over `parent_window`.
    Start {
        session: ObjectRef,
        parent_window: WindowIdentifier,
        handle_token: Option<HandleToken>,
    },
    /// Close the session on the broker.
    CloseSession { session: ObjectRef },
}

/// A session as the contracts see it.
pub struct SessionView {
    /// Where the session stands.
    pub state: SessionState,
    /// The session's object path, while the broker holds the session.
    pub path: Option<Seq<char>>,
    /// The device kinds asked for.
    pub requested: CapabilitySet,
    /// The device kinds granted.
    pub granted: CapabilitySet,
    /// The failure that closed the session, if one did.
    pub failure: Option<PortalError>,
}

/// The states in which the broker holds a session for this client.
pub open spec fn holds_path(s: SessionState) -> bool {
    match s {
        SessionState::Created | SessionState::SelectingDevices | SessionState::DevicesSelected
        | SessionState::Starting | SessionState::Active => true,
        _ => false,
    }
}

/// What holds of every session: the grant lies within the request and is empty
/// until the session starts, and the session has an object path exactly while
/// the broker holds it.
pub open spec fn session_ok(v: SessionView) -> bool {
    &&& v.granted@.subset_of(v.requested@)
    &&& (v.path is Some <==> holds_path(v.state))
    &&& (v.state != SessionState::Active && v.state != SessionState::Closed ==> v.granted@
        == Set::<DeviceType>::empty())
}

/// The three setup calls of a session, and closing it.
pub enum SetupCall {
    /// Create the session.
    Create,
    /// Select the devices, asking for the given kinds.
    SelectDevices(CapabilitySet),
    /// Start the session.
    Start,
    /// Close the session.
    Close,
}

/// The state from which a setup call may be made.
pub open spec fn required_state(c: SetupCall) -> SessionState {
    match c {
        SetupCall::Create => SessionState::Unopened,
        SetupCall::SelectDevices(_) => SessionState::Created,
        SetupCall::Start => SessionState::DevicesSelected,
        SetupCall::Close => SessionState::Closed,
    }
}

/// A session after it is closed.
pub open spec fn closed(v: SessionView) -> SessionView {
    SessionView { state: SessionState::Closed, path: None, ..v }
}

/// A session after a request of it failed with `e`.
pub open spec fn failed(v: SessionView, e: PortalError) -> SessionView {
    SessionView { state: SessionState::Closed, path: None, failure: Some(e), ..v }
}

/// The session after a setup call is issued, or the error that refuses it; a
/// refused call leaves the session as it was and reaches no broker.
pub open spec fn issue(v: SessionView, c: SetupCall) -> Result<SessionView, PortalError> {
    match c {
        SetupCall::Close => Ok(closed(v)),
        _ => if v.state != required_state(c) {
            Err(PortalError::InvalidState { current: v.state, required: required_state(c) })
        } else {
            match c {
                SetupCall::Create => Ok(SessionView { state: SessionState::Creating, ..v }),
                SetupCall::SelectDevices(requested) => Ok(
                    SessionView { state: SessionState::SelectingDevices, requested, ..v },
                ),
                _ => Ok(SessionView { state: SessionState::Starting, ..v }),
            }
        },
    }
}

/// The error that a failed request reports.
pub open spec fn failure_of(o: Outcome) -> PortalError {
    match o {
        Outcome::Cancelled => PortalError::Cancelled,
        Outcome::Other(code) => PortalError::BrokerError(code),
        Outcome::Success => PortalError::TransportError,
    }
}

/// Whether an input event of a device kind may be sent, and else why not.
pub open spec fn input_verdict(v: SessionView, kind: DeviceType) -> Result<(), PortalError> {
    if v.state != SessionState::Active {
        Err(PortalError::InvalidState { current: v.state, required: SessionState::Active })
    } else if !v.granted@.contains(kind) {
        Err(PortalError::CapabilityDenied { kind, granted: v.granted })
    } else {
        Ok(())
    }
}

/// The kinds asked for by select-devices options: every kind when unset.
pub open spec fn requested_by(types: Option<CapabilitySet>) -> CapabilitySet {
    match types {
        Some(t) => t,
        None => CapabilitySet { keyboard: true, pointer: true, touchscreen: true },
    }
}

/// A setup call made out of order is refused with `InvalidState`, names the
/// state it needs, and changes nothing; closing is always allowed.
pub proof fn lemma_out_of_order_refused(v: SessionView, c: SetupCall)
    ensures
        c is Close ==> issue(v, c) == Ok::<SessionView, PortalError>(closed(v)),
        !(c is Close) && v.state != required_state(c) ==> issue(v, c) == Err::<SessionView, PortalError>(
            PortalError::InvalidState { current: v.state, required: required_state(c) },
        ),
        !(c is Close) && v.state == required_state(c) ==> issue(v, c) is Ok,
{
}

/// Closing twice ends in the same closed session as closing once, and the
/// second close has no session left to close on the broker.
pub proof fn lemma_close_idempotent(v: SessionView)
    ensures
        closed(closed(v)) == closed(v),
        closed(v).state == SessionState::Closed,
        closed(v).path is None,
{
}

/// A completed start keeps every session property: the grant, cut down to the
/// kinds asked for, lies within them whatever the broker offered.
pub proof fn lemma_grant_within_request(v: SessionView, offered: CapabilitySet, g: CapabilitySet)
    requires
        session_ok(v),
        v.state == SessionState::Starting,
        g@ == offered@.intersect(v.requested@),
    ensures
        g@.subset_of(v.requested@),
        session_ok(SessionView { state: SessionState::Active, granted: g, ..v }),
{
}

/// A remote desktop session: creation, device selection, start, input, close.
#[derive(Debug)]
pub struct Session {
    state: SessionState,
    path: Option<ObjectRef>,
    requested: CapabilitySet,
    granted: CapabilitySet,
    failure: Option<PortalError>,
}

impl View for Session {
    type V = SessionView;

    closed spec fn view(&self) -> SessionView {
        SessionView {
            state: self.state,
            path: match self.path {
                Some(p) => Some(p@),
                None => None,
            },
            requested: self.requested,
            granted: self.granted,
            failure: self.failure,
        }
    }
}

impl Session {
    #[verifier::type_invariant]
    spec fn well_formed(&self) -> bool {
        session_ok(self.view())
    }

    /// A session on which no call has been made.
    pub fn new() -> (r: Session)
        ensures
            r@.state == SessionState::Unopened,
            r@.path is None,
            r@.requested@ == Set::<DeviceType>::empty(),
            r@.granted@ == Set::<DeviceType>::empty(),
            r@.failure is None,
            session_ok(r@),
    {
        Session {
            state: SessionState::Unopened,
            path: None,
            requested: CapabilitySet::empty(),
            granted: CapabilitySet::empty(),
            failure: None,
        }
    }

    /// Where the session stands.
    pub fn state(&self) -> (r: SessionState)
        ensures
            r == self@.state,
    {
        self.state
    }

    /// The session's object path, while the broker holds the session.
    pub fn path(&self) -> (r: Option<&ObjectRef>)
        ensures
            r is Some <==> self@.path is Some,
            r matches Some(p) ==> self@.path == Some(p@),
    {
        match &self.path {
            Some(p) => Some(p),
            None => None,
        }
    }

    /// The device kinds asked for.
    pub fn requested(&self) -> (r: CapabilitySet)
        ensures
            r == self@.requested,
    {
        self.requested
    }

    /// The device kinds granted; always within those asked for.
    pub fn granted(&self) -> (r: CapabilitySet)
        ensures
            r == self@.granted,
            r@.subset_of(self@.requested@),
    {
        proof {
            use_type_invariant(self);
        }
        self.granted
    }

    /// The failure that closed the session, if one did.
    pub fn failure(&self) -> (r: Option<PortalError>)
        ensures
            r == self@.failure,
    {
        self.failure
    }

    fn refuse(&self, required: SessionState) -> (r: PortalError)
        ensures
            r == (PortalError::InvalidState { current: self@.state, required }),
    {
        PortalError::InvalidState { current: self.state, required }
    }

    fn fail(&mut self, e: PortalError)
        ensures
            final(self)@ == failed(old(self)@, e),
    {
        proof {
            use_type_invariant(&*self);
        }
        *self = Session {
            state: SessionState::Closed,
            path: None,
            requested: self.requested,
            granted: self.granted,
            failure: Some(e),
        };
    }

    /// Issues the create-session call; allowed only on an unopened session.
    pub fn create(&mut self, options: CreateRemoteOptions) -> (r: Result<BrokerCall, PortalError>)
        ensures
            session_ok(final(self)@),
            r is Ok <==> old(self)@.state == SessionState::Unopened,
            r matches Ok(call) ==> issue(old(self)@, SetupCall::Create) == Ok::<
                SessionView,
                PortalError,
            >(final(self)@) && call == (BrokerCall::CreateSession {
                handle_token: options.handle_token,
                session_handle_token: options.session_handle_token,
            }),
            r matches Err(e) ==> issue(old(self)@, SetupCall::Create) == Err::<
                SessionView,
                PortalError,
            >(e) && final(self)@ == old(self)@,
    {
        proof {
            use_type_invariant(&*self);
        }
        if self.state != SessionState::Unopened {
            return Err(self.refuse(SessionState::Unopened));
        }
        self.state = SessionState::Creating;
        Ok(
            BrokerCall::CreateSession {
                handle_token: options.handle_token,
                session_handle_token: options.session_handle_token,
            },
        )
    }

    /// Takes the result of the create-session request. On success the session
    /// holds the returned object path; a reply whose handle is no object path
    /// fails with `TransportError`; a cancelled or failed request closes the
    /// session with `Cancelled` or `BrokerError`.
    pub fn on_created(&mut self, outcome: Outcome, reply: &CreateSession) -> (r: Result<
        (),
        PortalError,
    >)
        ensures
            session_ok(final(self)@),
            old(self)@.state != SessionState::Creating ==> r == Err::<(), PortalError>(
                PortalError::InvalidState {
                    current: old(self)@.state,
                    required: SessionState::Creating,
                },
            ) && final(self)@ == old(self)@,
            old(self)@.state == SessionState::Creating && outcome == Outcome::Success
                && is_object_path(reply@) ==> r is Ok && final(self)@ == (SessionView {
                state: SessionState::Created,
                path: Some(reply@),
                ..old(self)@
            }),
            old(self)@.state == SessionState::Creating && outcome == Outcome::Success
                && !is_object_path(reply@) ==> r == Err::<(), PortalError>(
                PortalError::TransportError,
            ) && final(self)@ == failed(old(self)@, PortalError::TransportError),
            old(self)@.state == SessionState::Creating && outcome != Outcome::Success ==> r
                == Err::<(), PortalError>(failure_of(outcome)) && final(self)@ == failed(
                old(self)@,
                failure_of(outcome),
            ),
    {
        proof {
            use_type_invariant(&*self);
        }
        if self.state != SessionState::Creating {
            return Err(self.refuse(SessionState::Creating));
        }
        match outcome {
            Outcome::Success => match reply.handle() {
                Some(path) => {
                    *self = Session {
                        state: SessionState::Created,
                        path: Some(path),
                        requested: self.requested,
                        granted: self.granted,
                        failure: self.failure,
                    };
                    Ok(())
                },
                None => {
                    self.fail(PortalError::TransportError);
                    Err(PortalError::TransportError)
                },
            },
            Outcome::Cancelled => {
                self.fail(PortalError::Cancelled);
                Err(PortalError::Cancelled)
            },
            Outcome::Other(code) => {
                self.fail(PortalError::BrokerError(code));
                Err(PortalError::BrokerError(code))
            },
        }
    }

    /// Issues the select-devices call, asking for `options.types` (every kind
    /// when unset); allowed only once the session is created.
    pub fn select_devices(&mut self, options: SelectDevicesOptions) -> (r: Result<
        BrokerCall,
        PortalError,
    >)
        requires
            options.types matches Some(t) ==> t@ != Set::<DeviceType>::empty(),
        ensures
            session_ok(final(self)@),
            r is Ok <==> old(self)@.state == SessionState::Created,
            r matches Ok(call) ==> issue(
                old(self)@,
                SetupCall::SelectDevices(requested_by(options.types)),
            ) == Ok::<SessionView, PortalError>(final(self)@) && (call matches BrokerCall::SelectDevices {
                session,
                handle_token,
                types,
            } && old(self)@.path == Some(session@) && handle_token == options.handle_token && types
                == requested_by(options.types)),
            r matches Err(e) ==> issue(
                old(self)@,
                SetupCall::SelectDevices(requested_by(options.types)),
            ) == Err::<SessionView, PortalError>(e) && final(self)@ == old(self)@,
    {
        proof {
            use_type_invariant(&*self);
        }
        if self.state != SessionState::Created {
            return Err(self.refuse(SessionState::Created));
        }
        let types = match options.types {
            Some(t) => t,
            None => CapabilitySet { keyboard: true, pointer: true, touchscreen: true },
        };
        let session = match &self.path {
            Some(p) => p.duplicate(),
            None => {
                return Err(self.refuse(SessionState::Created));
            },
        };
        *self = Session {
            state: SessionState::SelectingDevices,
            path: Some(session.duplicate()),
            requested: types,
            granted: self.granted,
            failure: self.failure,
        };
        Ok(BrokerCall::SelectDevices { session, handle_token: options.handle_token, types })
    }

    /// Takes the result of the select-devices request: on success the devices
    /// are selected; a cancelled or failed request closes the session.
    pub fn on_devices_selected(&mut self, outcome: Outcome) -> (r: Result<(), PortalError>)
        ensures
            session_ok(final(self)@),
            old(self)@.state != SessionState::SelectingDevices ==> r == Err::<(), PortalError>(
                PortalError::InvalidState {
                    current: old(self)@.state,
                    required: SessionState::SelectingDevices,
                },
            ) && final(self)@ == old(self)@,
            old(self)@.state == SessionState::SelectingDevices && outcome == Outcome::Success ==> r
                is Ok && final(self)@ == (SessionView {
                state: SessionState::DevicesSelected,
                ..old(self)@
            }),
            old(self)@.state == SessionState::SelectingDevices && outcome != Outcome::Success ==> r
                == Err::<(), PortalError>(failure_of(outcome)) && final(self)@ == failed(
                old(self)@,
                failure_of(outcome),
            ),
    {
        proof {
            use_type_invariant(&*self);
        }
        if self.state != SessionState::SelectingDevices {
            return Err(self.refuse(SessionState::SelectingDevices));
        }
        match outcome {
            Outcome::Success => {
                self.state = SessionState::DevicesSelected;
                Ok(())
            },
            Outcome::Cancelled => {
                self.fail(PortalError::Cancelled);
                Err(PortalError::Cancelled)
            },
            Outcome::Other(code) => {
                self.fail(PortalError::BrokerError(code));
                Err(PortalError::BrokerError(code))
            },
        }
    }

    /// Issues the start call, which shows the consent dialog over
    /// `parent_window`; allowed only once the devices are selected.
    pub fn start(&mut self, parent_window: WindowIdentifier, options: StartRemoteOptions) -> (r:
        Result<BrokerCall, PortalError>)
        ensures
            session_ok(final(self)@),
            r is Ok <==> old(self)@.state == SessionState::DevicesSelected,
            r matches Ok(call) ==> issue(old(self)@, SetupCall::Start) == Ok::<
                SessionView,
                PortalError,
            >(final(self)@) && (call matches BrokerCall::Start {
                session,
                parent_window: w,
                handle_token,
            } && old(self)@.path == Some(session@) && w == parent_window && handle_token
                == options.handle_token),
            r matches Err(e) ==> issue(old(self)@, SetupCall::Start) == Err::<
                SessionView,
                PortalError,
            >(e) && final(self)@ == old(self)@,
    {
        proof {
            use_type_invariant(&*self);
        }
        if self.state != SessionState::DevicesSelected {
            return Err(self.refuse(SessionState::DevicesSelected));
        }
        let session = match &self.path {
            Some(p) => p.duplicate(),
            None => {
                return Err(self.refuse(SessionState::DevicesSelected));
            },
        };
        self.state = SessionState::Starting;
        Ok(BrokerCall::Start { session, parent_window, handle_token: options.handle_token })
    }

    /// Takes the result of the start request. On success the session is active
    /// and its grant is what the broker reports, cut down to the kinds asked
    /// for; an empty grant still activates the session. A cancelled or failed
    /// request closes the session.
    pub fn on_started(&mut self, outcome: Outcome, reply: SelectedDevices) -> (r: Result<
        CapabilitySet,
        PortalError,
    >)
        ensures
            session_ok(final(self)@),
            old(self)@.state != SessionState::Starting ==> r == Err::<CapabilitySet, PortalError>(
                PortalError::InvalidState {
                    current: old(self)@.state,
                    required: SessionState::Starting,
                },
            ) && final(self)@ == old(self)@,
            old(self)@.state == SessionState::Starting && outcome == Outcome::Success ==> {
                &&& r matches Ok(g)
                &&& g@ == reply.devices@.intersect(old(self)@.requested@)
                &&& final(self)@ == (SessionView {
                    state: SessionState::Active,
                    granted: g,
                    ..old(self)@
                })
            },
            old(self)@.state == SessionState::Starting && outcome != Outcome::Success ==> r
                == Err::<CapabilitySet, PortalError>(failure_of(outcome)) && final(self)@ == failed(
                old(self)@,
                failure_of(outcome),
            ),
    {
        proof {
            use_type_invariant(&*self);
        }
        if self.state != SessionState::Starting {
            return Err(self.refuse(SessionState::Starting));
        }
        match outcome {
            Outcome::Success => {
                let granted = reply.devices.intersection(&self.requested);
                let path = match &self.path {
                    Some(p) => p.duplicate(),
                    None => {
                        return Err(self.refuse(SessionState::Starting));
                    },
                };
                *self = Session {
                    state: SessionState::Active,
                    path: Some(path),
                    requested: self.requested,
                    granted,
                    failure: self.failure,
                };
                Ok(granted)
            },
            Outcome::Cancelled => {
                self.fail(PortalError::Cancelled);
                Err(PortalError::Cancelled)
            },
            Outcome::Other(code) => {
                self.fail(PortalError::BrokerError(code));
                Err(PortalError::BrokerError(code))
            },
        }
    }

    /// Closes the session. Allowed in every state; closing a closed session
    /// changes nothing. Returns the call that closes the session on the broker,
    /// when the broker holds one.
    pub fn close(&mut self) -> (r: Option<BrokerCall>)
        ensures
            session_ok(final(self)@),
            final(self)@ == closed(old(self)@),
            r is Some <==> old(self)@.path is Some,
            r matches Some(call) ==> (call matches BrokerCall::CloseSession { session }
                && old(self)@.path == Some(session@)),
    {
        proof {
            use_type_invariant(&*self);
        }
        let path = match &self.path {
            Some(p) => Some(p.duplicate()),
            None => None,
        };
        *self = Session {
            state: SessionState::Closed,
            path: None,
            requested: self.requested,
            granted: self.granted,
            failure: self.failure,
        };
        match path {
            Some(session) => Some(BrokerCall::CloseSession { session }),
            None => None,
        }
    }
}

} // verus!
