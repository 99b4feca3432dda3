use vstd::prelude::*;
use crate::token::HandleToken;

verus! {

/// Options of a screenshot request.
#[derive(Debug)]
pub struct ScreenshotOptions {
    /// A string that will be used as the last element of the request handle.
    pub handle_token: Option<HandleToken>,
    /// Whether the dialog should be modal.
    pub modal: Option<bool>,
    /// Whether the dialog should offer customization before taking a screenshot.
    pub interactive: Option<bool>,
}

impl Default for ScreenshotOptions {
    fn default() -> (r: ScreenshotOptions)
        ensures
            r.handle_token is None,
            r.modal is None,
            r.interactive is None,
    {
        ScreenshotOptions { handle_token: None, modal: None, interactive: None }
    }
}

impl ScreenshotOptions {
    /// Sets the handle token.
    pub fn handle_token(self, handle_token: HandleToken) -> (r: ScreenshotOptions)
        ensures
            r.handle_token == Some(handle_token),
            r.modal == self.modal,
            r.interactive == self.interactive,
    {
        ScreenshotOptions { handle_token: Some(handle_token), ..self }
    }

    /// Sets whether the dialog should be modal.
    pub fn modal(self, modal: bool) -> (r: ScreenshotOptions)
        ensures
            r.handle_token == self.handle_token,
            r.modal == Some(modal),
            r.interactive == self.interactive,
    {
        ScreenshotOptions { modal: Some(modal), ..self }
    }

    /// Sets whether the dialog should offer customization before a screenshot.
    pub fn interactive(self, interactive: bool) -> (r: ScreenshotOptions)
        ensures
            r.handle_token == self.handle_token,
            r.modal == self.modal,
            r.interactive == Some(interactive),
    {
        ScreenshotOptions { interactive: Some(interactive), ..self }
    }
}

/// The reply to a screenshot request.
#[derive(Debug)]
pub struct Screenshot {
    /// The URI of the screenshot.
    pub uri: String,
}

/// Options of a pick-color request.
#[derive(Debug)]
pub struct PickColorOptions {
    /// A string that will be used as the last element of the request handle.
    pub handle_token: Option<HandleToken>,
}

impl Default for PickColorOptions {
    fn default() -> (r: PickColorOptions)
        ensures
            r.handle_token is None,
    {
        PickColorOptions { handle_token: None }
    }
}

impl PickColorOptions {
    /// Sets the handle token.
    pub fn handle_token(self, handle_token: HandleToken) -> (r: PickColorOptions)
        ensures
            r.handle_token == Some(handle_token),
    {
        PickColorOptions { handle_token: Some(handle_token) }
    }
}

} // verus!
