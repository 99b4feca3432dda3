use vstd::prelude::*;

verus! {

/// A character that may stand in an element of an object path.
pub open spec fn is_segment_char(c: char) -> bool {
    ('a' <= c && c <= 'z') || ('A' <= c && c <= 'Z') || ('0' <= c && c <= '9') || c == '_'
}

/// A D-Bus object path: `/` alone, or `/`-separated non-empty elements of
/// ASCII letters, digits and `_`, starting with `/` and not ending with one.
pub open spec fn is_object_path(s: Seq<char>) -> bool {
    &&& s.len() > 0
    &&& s[0] == '/'
    &&& forall|i: int| 0 <= i < s.len() ==> is_segment_char(#[trigger] s[i]) || s[i] == '/'
    &&& forall|i: int| 0 <= i < s.len() - 1 ==> !(#[trigger] s[i] == '/' && s[i + 1] == '/')
    &&& s.len() > 1 ==> s[s.len() - 1] != '/'
}

/// Relies on zvariant's `ObjectPath::try_from(&str)`, which accepts a string
/// exactly when it is a well-formed object path.
#[verifier::external_body]
fn zvariant_accepts(s: &str) -> (r: bool)
    ensures
        r == is_object_path(s@),
{
    zvariant::ObjectPath::try_from(s).is_ok()
}

/// An object path that names a request or a session on the broker.
#[derive(Debug)]
pub struct ObjectRef {
    path: String,
}

impl View for ObjectRef {
    type V = Seq<char>;

    closed spec fn view(&self) -> Seq<char> {
        self.path@
    }
}

impl ObjectRef {
    #[verifier::type_invariant]
    spec fn well_formed(&self) -> bool {
        is_object_path(self.path@)
    }

    /// The path, if the text is a well-formed object path.
    pub fn new(text: String) -> (r: Option<ObjectRef>)
        ensures
            r is Some <==> is_object_path(text@),
            r matches Some(p) ==> p@ == text@,
    {
        if zvariant_accepts(text.as_str()) {
            Some(ObjectRef { path: text })
        } else {
            None
        }
    }

    /// The text of the path.
    pub fn as_str(&self) -> (r: &str)
        ensures
            r@ == self@,
            is_object_path(r@),
    {
        proof {
            use_type_invariant(self);
        }
        self.path.as_str()
    }

    /// A second value naming the same path.
    pub fn duplicate(&self) -> (r: ObjectRef)
        ensures
            r@ == self@,
    {
        proof {
            use_type_invariant(self);
        }
        ObjectRef { path: self.path.clone() }
    }

    /// Whether two values name the same path.
    pub fn same_as(&self, other: &ObjectRef) -> (r: bool)
        ensures
            r == (self@ == other@),
    {
        self.path == other.path
    }
}

} // verus!
