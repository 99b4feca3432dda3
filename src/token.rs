use vstd::prelude::*;
use vstd::string::{StrSliceExecFns, StringExecFns};
use crate::error::PortalError;
use crate::object_path::{is_segment_char, ObjectRef, is_object_path};

verus! {

/// A handle token: a non-empty single element of an object path.
pub open spec fn is_token(s: Seq<char>) -> bool {
    s.len() > 0 && forall|i: int| 0 <= i < s.len() ==> is_segment_char(#[trigger] s[i])
}

/// The character of a decimal digit.
pub open spec fn digit_char(d: nat) -> char {
    if d == 0 {
        '0'
    } else if d == 1 {
        '1'
    } else if d == 2 {
        '2'
    } else if d == 3 {
        '3'
    } else if d == 4 {
        '4'
    } else if d == 5 {
        '5'
    } else if d == 6 {
        '6'
    } else if d == 7 {
        '7'
    } else if d == 8 {
        '8'
    } else {
        '9'
    }
}

/// The decimal digits of a number, most significant first.
pub open spec fn decimal(n: nat) -> Seq<char>
    decreases n,
{
    if n < 10 {
        seq![digit_char(n)]
    } else {
        decimal(n / 10).push(digit_char(n % 10))
    }
}

/// The prefix of every generated token.
pub open spec fn token_prefix() -> Seq<char> {
    seq!['a', 's', 'h', 'p', 'd', '_']
}

/// The token that a generator issues as its `n`-th one, counting from zero.
pub open spec fn generated_token(n: nat) -> Seq<char> {
    token_prefix() + decimal(n)
}

/// The path element that stands for a bus name: its leading `:` dropped and
/// each `.` replaced by `_`.
pub open spec fn sender_segment(sender: Seq<char>) -> Seq<char> {
    let rest = if sender.len() > 0 && sender[0] == ':' {
        sender.drop_first()
    } else {
        sender
    };
    rest.map_values(|c: char| if c == '.' { '_' } else { c })
}

/// The path under which the broker publishes requests.
pub open spec fn request_prefix() -> Seq<char> {
    "/org/freedesktop/portal/desktop/request/"@
}

/// The path under which the broker publishes sessions.
pub open spec fn session_prefix() -> Seq<char> {
    "/org/freedesktop/portal/desktop/session/"@
}

/// The object path of a request or session made by `sender` with `token`.
pub open spec fn path_text(prefix: Seq<char>, sender: Seq<char>, token: Seq<char>) -> Seq<char> {
    prefix + sender_segment(sender) + seq!['/'] + token
}

proof fn lemma_digit_char_injective(a: nat, b: nat)
    requires
        a < 10,
        b < 10,
        digit_char(a) == digit_char(b),
    ensures
        a == b,
{
}

proof fn lemma_decimal_chars(n: nat)
    ensures
        decimal(n).len() >= 1,
        n >= 10 ==> decimal(n).len() >= 2,
        forall|i: int| 0 <= i < decimal(n).len() ==> is_segment_char(#[trigger] decimal(n)[i]),
    decreases n,
{
    if n >= 10 {
        lemma_decimal_chars(n / 10);
        assert forall|i: int| 0 <= i < decimal(n).len() implies is_segment_char(
            #[trigger] decimal(n)[i],
        ) by {
            if i < decimal(n / 10).len() {
                assert(decimal(n)[i] == decimal(n / 10)[i]);
            }
        }
    }
}

/// Distinct numbers have distinct decimal representations.
pub proof fn lemma_decimal_injective(a: nat, b: nat)
    requires
        decimal(a) == decimal(b),
    ensures
        a == b,
    decreases a,
{
    lemma_decimal_chars(a);
    lemma_decimal_chars(b);
    let da = decimal(a);
    let db = decimal(b);
    if a < 10 && b < 10 {
        assert(da[0] == db[0]);
        lemma_digit_char_injective(a, b);
    } else if a >= 10 && b >= 10 {
        assert(da[da.len() - 1] == db[db.len() - 1]);
        lemma_digit_char_injective(a % 10, b % 10);
        assert(decimal(a / 10) =~= da.drop_last());
        assert(decimal(b / 10) =~= db.drop_last());
        lemma_decimal_injective(a / 10, b / 10);
    } else {
        assert(da.len() != db.len());
    }
}

/// Tokens issued as different draws of a generator are different.
pub proof fn lemma_generated_tokens_distinct(a: nat, b: nat)
    requires
        a != b,
    ensures
        generated_token(a) != generated_token(b),
{
    if generated_token(a) == generated_token(b) {
        assert(decimal(a) =~= generated_token(a).subrange(6, generated_token(a).len() as int));
        assert(decimal(b) =~= generated_token(b).subrange(6, generated_token(b).len() as int));
        lemma_decimal_injective(a, b);
    }
}

/// A generated token is a valid handle token.
pub proof fn lemma_generated_token_valid(n: nat)
    ensures
        is_token(generated_token(n)),
{
    lemma_decimal_chars(n);
    let t = generated_token(n);
    assert forall|i: int| 0 <= i < t.len() implies is_segment_char(#[trigger] t[i]) by {
        if i >= 6 {
            assert(t[i] == decimal(n)[i - 6]);
        }
    }
}

/// A token naming a request or a session: the last element of its object path.
#[derive(Debug)]
pub struct HandleToken {
    text: String,
}

impl View for HandleToken {
    type V = Seq<char>;

    closed spec fn view(&self) -> Seq<char> {
        self.text@
    }
}

pub(crate) fn append_decimal(out: &mut String, n: u64)
    ensures
        final(out)@ == old(out)@ + decimal(n as nat),
    decreases n,
{
    if n >= 10 {
        append_decimal(out, n / 10);
    }
    let d: usize = (n % 10) as usize;
    let digits = "0123456789";
    proof {
        reveal_strlit("0123456789");
    }
    let s = digits.substring_char(d, d + 1);
    assert(s@ =~= seq![digit_char(d as nat)]);
    out.append(s);
    if n >= 10 {
        assert(final(out)@ =~= old(out)@ + decimal(n as nat));
    } else {
        assert(final(out)@ =~= old(out)@ + decimal(n as nat));
    }
}

impl HandleToken {
    #[verifier::type_invariant]
    spec fn well_formed(&self) -> bool {
        is_token(self.text@)
    }

    /// A token with the given text; fails with `InvalidToken` unless the text
    /// is a non-empty run of ASCII letters, digits and `_`.
    pub fn new(text: &str) -> (r: Result<HandleToken, PortalError>)
        ensures
            r is Ok <==> is_token(text@),
            r matches Ok(t) ==> t@ == text@,
            r matches Err(e) ==> e == PortalError::InvalidToken,
    {
        let n = text.unicode_len();
        if n == 0 {
            return Err(PortalError::InvalidToken);
        }
        let mut i: usize = 0;
        while i < n
            invariant
                n == text@.len(),
                i <= n,
                forall|j: int| 0 <= j < i ==> is_segment_char(#[trigger] text@[j]),
            decreases n - i,
        {
            let c = text.get_char(i);
            let ok = ('a' <= c && c <= 'z') || ('A' <= c && c <= 'Z') || ('0' <= c && c <= '9')
                || c == '_';
            if !ok {
                return Err(PortalError::InvalidToken);
            }
            i = i + 1;
        }
        Ok(HandleToken { text: String::from_str(text) })
    }

    /// The text of the token.
    pub fn as_str(&self) -> (r: &str)
        ensures
            r@ == self@,
            is_token(r@),
    {
        proof {
            use_type_invariant(self);
        }
        self.text.as_str()
    }

    /// A second token with the same text.
    pub fn duplicate(&self) -> (r: HandleToken)
        ensures
            r@ == self@,
    {
        proof {
            use_type_invariant(self);
        }
        HandleToken { text: self.text.clone() }
    }
}

/// Issues handle tokens that differ from every token it issued before.
#[derive(Debug)]
pub struct TokenGenerator {
    next: u64,
}

impl TokenGenerator {
    /// How many tokens the generator has issued.
    pub closed spec fn issued(&self) -> nat {
        self.next as nat
    }

    /// A generator that has issued nothing.
    pub fn new() -> (r: TokenGenerator)
        ensures
            r.issued() == 0,
    {
        TokenGenerator { next: 0 }
    }

    /// The next token: the `n`-th one issued is `generated_token(n)`. `None`
    /// only once the counter is spent, after 2^64 - 1 tokens.
    pub fn next_token(&mut self) -> (r: Option<HandleToken>)
        ensures
            old(self).issued() < u64::MAX ==> {
                &&& r matches Some(t)
                &&& t@ == generated_token(old(self).issued())
                &&& final(self).issued() == old(self).issued() + 1
            },
            old(self).issued() >= u64::MAX ==> r is None && final(self).issued() == old(self).issued(),
    {
        if self.next == u64::MAX {
            return None;
        }
        let n = self.next;
        let mut text = String::from_str("ashpd_");
        proof {
            reveal_strlit("ashpd_");
        }
        assert(text@ =~= token_prefix());
        append_decimal(&mut text, n);
        proof {
            lemma_generated_token_valid(n as nat);
        }
        self.next = n + 1;
        Some(HandleToken { text })
    }
}

fn append_sender_segment(out: &mut String, sender: &str)
    ensures
        final(out)@ == old(out)@ + sender_segment(sender@),
{
    let n = sender.unicode_len();
    let start: usize = if n > 0 && sender.get_char(0) == ':' { 1 } else { 0 };
    let ghost rest = if sender@.len() > 0 && sender@[0] == ':' {
        sender@.drop_first()
    } else {
        sender@
    };
    assert(rest =~= sender@.subrange(start as int, n as int));
    let ghost f = |c: char| if c == '.' { '_' } else { c };
    let mut i: usize = start;
    while i < n
        invariant
            n == sender@.len(),
            start <= i <= n,
            out@ == old(out)@ + sender@.subrange(start as int, i as int).map_values(f),
            f == (|c: char| if c == '.' { '_' } else { c }),
        decreases n - i,
    {
        let c = sender.get_char(i);
        let ghost before = out@;
        if c == '.' {
            let u = "_";
            proof {
                reveal_strlit("_");
            }
            out.append(u);
        } else {
            out.append(sender.substring_char(i, i + 1));
        }
        assert(sender@.subrange(start as int, i + 1).map_values(f) =~= sender@.subrange(
            start as int,
            i as int,
        ).map_values(f).push(f(c)));
        i = i + 1;
    }
    assert(sender_segment(sender@) =~= sender@.subrange(start as int, n as int).map_values(f));
}

fn build_path(prefix: &str, sender: &str, token: &HandleToken) -> (r: Option<ObjectRef>)
    ensures
        r is Some <==> is_object_path(path_text(prefix@, sender@, token@)),
        r matches Some(p) ==> p@ == path_text(prefix@, sender@, token@),
{
    let mut text = String::from_str(prefix);
    append_sender_segment(&mut text, sender);
    let slash = "/";
    proof {
        reveal_strlit("/");
    }
    text.append(slash);
    text.append(token.as_str());
    assert(text@ =~= path_text(prefix@, sender@, token@));
    ObjectRef::new(text)
}

/// The object path of the request that `sender` (a unique bus name such as
/// `:1.42`) makes with `token`; `None` if that is no valid object path.
pub fn request_path(sender: &str, token: &HandleToken) -> (r: Option<ObjectRef>)
    ensures
        r is Some <==> is_object_path(path_text(request_prefix(), sender@, token@)),
        r matches Some(p) ==> p@ == path_text(request_prefix(), sender@, token@),
{
    let prefix = "/org/freedesktop/portal/desktop/request/";
    build_path(prefix, sender, token)
}

/// The object path of the session that `sender` creates with `token`; `None`
/// if that is no valid object path.
pub fn session_path(sender: &str, token: &HandleToken) -> (r: Option<ObjectRef>)
    ensures
        r is Some <==> is_object_path(path_text(session_prefix(), sender@, token@)),
        r matches Some(p) ==> p@ == path_text(session_prefix(), sender@, token@),
{
    let prefix = "/org/freedesktop/portal/desktop/session/";
    build_path(prefix, sender, token)
}

} // verus!
