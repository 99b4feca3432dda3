use vstd::prelude::*;
use crate::capability::CapabilitySet;
use crate::object_path::{is_object_path, ObjectRef};
use crate::token::HandleToken;

verus! {

/// Options of a create-session request.
#[derive(Debug)]
pub struct CreateRemoteOptions {
    /// A string that will be used as the last element of the request handle.
    pub handle_token: Option<HandleToken>,
    /// A string that will be used as the last element of the session handle.
    pub session_handle_token: Option<HandleToken>,
}

impl Default for CreateRemoteOptions {
    fn default() -> (r: CreateRemoteOptions)
        ensures
            r.handle_token is None,
            r.session_handle_token is None,
    {
        CreateRemoteOptions { handle_token: None, session_handle_token: None }
    }
}

impl CreateRemoteOptions {
    /// Sets the handle token.
    pub fn handle_token(self, handle_token: HandleToken) -> (r: CreateRemoteOptions)
        ensures
            r.handle_token == Some(handle_token),
            r.session_handle_token == self.session_handle_token,
    {
        CreateRemoteOptions { handle_token: Some(handle_token), ..self }
    }

    /// Sets the session handle token.
    pub fn session_handle_token(self, session_handle_token: HandleToken) -> (r: CreateRemoteOptions)
        ensures
            r.handle_token == self.handle_token,
            r.session_handle_token == Some(session_handle_token),
    {
        CreateRemoteOptions { session_handle_token: Some(session_handle_token), ..self }
    }
}

/// The reply to a create-session request.
#[derive(Debug)]
pub struct CreateSession {
    session_handle: String,
}

impl View for CreateSession {
    type V = Seq<char>;

    /// The session handle as the broker sent it.
    closed spec fn view(&self) -> Seq<char> {
        self.session_handle@
    }
}

impl CreateSession {
    /// A reply carrying the given session handle.
    pub fn new(session_handle: String) -> (r: CreateSession)
        ensures
            r@ == session_handle@,
    {
        CreateSession { session_handle }
    }

    /// The created session's object path; `None` if the broker sent a handle
    /// that is no valid object path.
    pub fn handle(&self) -> (r: Option<ObjectRef>)
        ensures
            r is Some <==> is_object_path(self@),
            r matches Some(p) ==> p@ == self@,
    {
        ObjectRef::new(self.session_handle.clone())
    }
}

/// Options of a select-devices request.
#[derive(Debug)]
pub struct SelectDevicesOptions {
    /// A string that will be used as the last element of the request handle.
    pub handle_token: Option<HandleToken>,
    /// The device kinds to ask for; every kind when unset.
    pub types: Option<CapabilitySet>,
}

impl Default for SelectDevicesOptions {
    fn default() -> (r: SelectDevicesOptions)
        ensures
            r.handle_token is None,
            r.types is None,
    {
        SelectDevicesOptions { handle_token: None, types: None }
    }
}

impl SelectDevicesOptions {
    /// Sets the handle token.
    pub fn handle_token(self, handle_token: HandleToken) -> (r: SelectDevicesOptions)
        ensures
            r.handle_token == Some(handle_token),
            r.types == self.types,
    {
        SelectDevicesOptions { handle_token: Some(handle_token), ..self }
    }

    /// Sets the device kinds to ask for.
    pub fn types(self, types: CapabilitySet) -> (r: SelectDevicesOptions)
        ensures
            r.handle_token == self.handle_token,
            r.types == Some(types),
    {
        SelectDevicesOptions { types: Some(types), ..self }
    }
}

/// Options of a start request.
#[derive(Debug)]
pub struct StartRemoteOptions {
    /// A string that will be used as the last element of the request handle.
    pub handle_token: Option<HandleToken>,
}

impl Default for StartRemoteOptions {
    fn default() -> (r: StartRemoteOptions)
        ensures
            r.handle_token is None,
    {
        StartRemoteOptions { handle_token: None }
    }
}

impl StartRemoteOptions {
    /// Sets the handle token.
    pub fn handle_token(self, handle_token: HandleToken) -> (r: StartRemoteOptions)
        ensures
            r.handle_token == Some(handle_token),
    {
        StartRemoteOptions { handle_token: Some(handle_token) }
    }
}

/// The reply to a start request: the device kinds that the user granted.
#[derive(Clone, Copy, Debug, PartialEq, Eq, Structural)]
pub struct SelectedDevices {
    /// The granted device kinds.
    pub devices: CapabilitySet,
}

} // verus!
