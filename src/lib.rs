//! Client side of the remote desktop portal: the session state machine, the
//! capability sets it negotiates, the handle tokens and object paths that name
//! requests and sessions, and the correlation of asynchronous request results.

pub mod capability;
pub mod error;
pub mod object_path;
pub mod token;
pub mod request;
pub mod window_identifier;
pub mod remote_desktop;
pub mod session;
pub mod input;
pub mod screenshot;
