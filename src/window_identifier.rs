use vstd::prelude::*;
use vstd::string::StringExecFns;
use crate::token::{append_decimal, decimal};

verus! {

/// Identifies the application window that a portal dialog should be placed on:
/// `x11:XID` under X11, `wayland:HANDLE` under Wayland, or empty when no
/// suitable handle is known.
#[derive(Clone, Debug)]
pub struct WindowIdentifier(String);

impl View for WindowIdentifier {
    type V = Seq<char>;

    closed spec fn view(&self) -> Seq<char> {
        self.0@
    }
}

impl WindowIdentifier {
    /// An identifier with the given text.
    pub fn new(identifier: &str) -> (r: WindowIdentifier)
        ensures
            r@ == identifier@,
    {
        WindowIdentifier(String::from_str(identifier))
    }

    /// The identifier of an X11 window: `x11:` followed by its XID in decimal.
    pub fn from_x11_xid(xid: u64) -> (r: WindowIdentifier)
        ensures
            r@ == "x11:"@ + decimal(xid as nat),
    {
        let mut text = String::from_str("x11:");
        append_decimal(&mut text, xid);
        WindowIdentifier(text)
    }

    /// The text of the identifier.
    pub fn as_str(&self) -> (r: &str)
        ensures
            r@ == self@,
    {
        self.0.as_str()
    }
}

impl Default for WindowIdentifier {
    /// The empty identifier, for when no window handle is known.
    fn default() -> (r: WindowIdentifier)
        ensures
            r@ == Seq::<char>::empty(),
    {
        let r = WindowIdentifier::new("");
        proof {
            reveal_strlit("");
        }
        r
    }
}

} // verus!
