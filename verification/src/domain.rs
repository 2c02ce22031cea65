use vstd::prelude::*;
use vstd::string::*;
use vstd::utf8::encode_utf8;

use crate::routes::SubReq;

verus! {

/// The most bytes (in UTF-8) that a name or an email may take.
pub const MAX_FIELD_BYTES: usize = 256;

/// The length of a text in bytes, as UTF-8 encodes it.
pub open spec fn utf8_len(s: Seq<char>) -> nat {
    encode_utf8(s).len()
}

/// Unicode's `White_Space` property, the one `char::is_whitespace` tests.
pub open spec fn is_white_space(c: char) -> bool {
    let u = c as u32;
    ||| 0x9 <= u <= 0xd
    ||| u == 0x20
    ||| u == 0x85
    ||| u == 0xa0
    ||| u == 0x1680
    ||| 0x2000 <= u <= 0x200a
    ||| u == 0x2028
    ||| u == 0x2029
    ||| u == 0x202f
    ||| u == 0x205f
    ||| u == 0x3000
}

/// Whether a text is empty once surrounding white space is trimmed, i.e. holds only white space.
pub open spec fn is_blank(s: Seq<char>) -> bool {
    forall|i: int| 0 <= i < s.len() ==> is_white_space(#[trigger] s[i])
}

/// The number of times `c` occurs in `s`.
pub open spec fn count_char(s: Seq<char>, c: char) -> nat
    decreases s.len(),
{
    if s.len() == 0 {
        0
    } else {
        count_char(s.drop_last(), c) + if s.last() == c {
            1nat
        } else {
            0nat
        }
    }
}

/// What checking a text as a subscriber's name gives: the text itself, or the message of
/// the first rule it breaks.
pub open spec fn name_parse(s: Seq<char>) -> Result<Seq<char>, Seq<char>> {
    if utf8_len(s) > MAX_FIELD_BYTES {
        Err("Name too long"@)
    } else if is_blank(s) {
        Err("Name is empty"@)
    } else {
        Ok(s)
    }
}

/// What checking a text as a subscriber's email gives: the text itself, or the message of
/// the first rule it breaks. An email holds exactly one `@`.
pub open spec fn email_parse(s: Seq<char>) -> Result<Seq<char>, Seq<char>> {
    if utf8_len(s) > MAX_FIELD_BYTES {
        Err("Email too long"@)
    } else if count_char(s, '@') != 1 {
        Err("More than one @ symbol"@)
    } else {
        Ok(s)
    }
}

/// What checking a subscription request gives: the name and the email, or the first
/// message, the name being checked first.
pub open spec fn details_parse(name: Seq<char>, email: Seq<char>) -> Result<
    (Seq<char>, Seq<char>),
    Seq<char>,
> {
    match name_parse(name) {
        Err(m) => Err(m),
        Ok(n) => match email_parse(email) {
            Err(m) => Err(m),
            Ok(e) => Ok((n, e)),
        },
    }
}

/// Whether `c` is a white-space character.
pub fn is_white_space_char(c: char) -> (r: bool)
    ensures
        r == is_white_space(c),
{
    let u = c as u32;
    (0x9 <= u && u <= 0xd) || u == 0x20 || u == 0x85 || u == 0xa0 || u == 0x1680 || (0x2000 <= u
        && u <= 0x200a) || u == 0x2028 || u == 0x2029 || u == 0x202f || u == 0x205f || u == 0x3000
}

/// The number of bytes of a text.
fn byte_len(s: &str) -> (r: usize)
    ensures
        r == utf8_len(s@),
{
    s.as_bytes().len()
}

/// Whether a text holds only white space.
fn blank(s: &str) -> (r: bool)
    ensures
        r == is_blank(s@),
{
    let n = s.unicode_len();
    let mut i: usize = 0;
    while i < n
        invariant
            n == s@.len(),
            i <= n,
            forall|j: int| 0 <= j < i ==> is_white_space(#[trigger] s@[j]),
        decreases n - i,
    {
        if !is_white_space_char(s.get_char(i)) {
            return false;
        }
        i = i + 1;
    }
    true
}

/// How many times `c` occurs in a text.
fn count_occurrences(s: &str, c: char) -> (r: usize)
    ensures
        r == count_char(s@, c),
{
    let n = s.unicode_len();
    let mut count: usize = 0;
    let mut i: usize = 0;
    while i < n
        invariant
            n == s@.len(),
            i <= n,
            count == count_char(s@.take(i as int), c),
            count <= i,
        decreases n - i,
    {
        assert(s@.take(i + 1).drop_last() =~= s@.take(i as int));
        if s.get_char(i) == c {
            count = count + 1;
        }
        i = i + 1;
    }
    assert(s@.take(n as int) =~= s@);
    count
}

/// A subscriber's name: at most 256 bytes, and not only white space.
pub struct SubscriberName(String);

/// A subscriber's email: at most 256 bytes, with exactly one `@`.
pub struct SubscriberEmail(String);

impl View for SubscriberName {
    type V = Seq<char>;

    closed spec fn view(&self) -> Seq<char> {
        self.0@
    }
}

impl View for SubscriberEmail {
    type V = Seq<char>;

    closed spec fn view(&self) -> Seq<char> {
        self.0@
    }
}

impl SubscriberName {
    #[verifier::type_invariant]
    spec fn well_formed(self) -> bool {
        name_parse(self.0@) == Ok::<Seq<char>, Seq<char>>(self.0@)
    }

    /// Checks a name: refused with "Name too long" past 256 bytes, then with "Name is empty"
    /// when it holds only white space; else kept unchanged.
    pub fn parse(s: String) -> (r: Result<SubscriberName, String>)
        ensures
            match r {
                Ok(n) => name_parse(s@) == Ok::<Seq<char>, Seq<char>>(n@),
                Err(m) => name_parse(s@) == Err::<Seq<char>, Seq<char>>(m@),
            },
            (r is Ok) <==> (utf8_len(s@) <= 256 && exists|i: int|
                0 <= i < s@.len() && !is_white_space(#[trigger] s@[i])),
            r matches Ok(n) ==> n@ == s@,
    {
        if byte_len(s.as_str()) > MAX_FIELD_BYTES {
            return Err("Name too long".to_string());
        }
        if blank(s.as_str()) {
            return Err("Name is empty".to_string());
        }
        Ok(SubscriberName(s))
    }

    /// A copy of the name.
    pub fn duplicate(&self) -> (r: SubscriberName)
        ensures
            r@ == self@,
    {
        proof {
            use_type_invariant(self);
        }
        SubscriberName(self.0.clone())
    }
}

impl SubscriberEmail {
    #[verifier::type_invariant]
    spec fn well_formed(self) -> bool {
        email_parse(self.0@) == Ok::<Seq<char>, Seq<char>>(self.0@)
    }

    /// Checks an email: refused with "Email too long" past 256 bytes, then with
    /// "More than one @ symbol" unless it holds exactly one `@`; else kept unchanged.
    pub fn parse(s: String) -> (r: Result<SubscriberEmail, String>)
        ensures
            match r {
                Ok(e) => email_parse(s@) == Ok::<Seq<char>, Seq<char>>(e@),
                Err(m) => email_parse(s@) == Err::<Seq<char>, Seq<char>>(m@),
            },
            (r is Ok) <==> (utf8_len(s@) <= 256 && count_char(s@, '@') == 1),
            r matches Ok(e) ==> e@ == s@,
    {
        if byte_len(s.as_str()) > MAX_FIELD_BYTES {
            return Err("Email too long".to_string());
        }
        if count_occurrences(s.as_str(), '@') != 1 {
            return Err("More than one @ symbol".to_string());
        }
        Ok(SubscriberEmail(s))
    }

    /// A copy of the email.
    pub fn duplicate(&self) -> (r: SubscriberEmail)
        ensures
            r@ == self@,
    {
        proof {
            use_type_invariant(self);
        }
        SubscriberEmail(self.0.clone())
    }
}

/// A checked subscription: a valid name and a valid email.
pub struct SubscriberDetails {
    pub name: SubscriberName,
    pub email: SubscriberEmail,
}

impl SubscriberDetails {
    /// Checks a subscription request, the name first, then the email.
    pub fn parse(req: SubReq) -> (r: Result<SubscriberDetails, String>)
        ensures
            match r {
                Ok(d) => details_parse(req.name@, req.email@) == Ok::<
                    (Seq<char>, Seq<char>),
                    Seq<char>,
                >((d.name@, d.email@)),
                Err(m) => details_parse(req.name@, req.email@) == Err::<
                    (Seq<char>, Seq<char>),
                    Seq<char>,
                >(m@),
            },
    {
        let name = SubscriberName::parse(req.name)?;
        let email = SubscriberEmail::parse(req.email)?;
        Ok(SubscriberDetails { name, email })
    }

    /// A copy of the details.
    pub fn duplicate(&self) -> (r: SubscriberDetails)
        ensures
            r.name@ == self.name@,
            r.email@ == self.email@,
    {
        SubscriberDetails { name: self.name.duplicate(), email: self.email.duplicate() }
    }
}

} // verus!

verus! {

impl TryFrom<String> for SubscriberName {
    type Error = String;

    fn try_from(s: String) -> (r: Result<SubscriberName, String>)
        ensures
            match r {
                Ok(n) => name_parse(s@) == Ok::<Seq<char>, Seq<char>>(n@),
                Err(m) => name_parse(s@) == Err::<Seq<char>, Seq<char>>(m@),
            },
    {
        SubscriberName::parse(s)
    }
}

/// `try_from` is described by its own `ensures`; the generic `TryFrom` contract is not claimed.
impl vstd::std_specs::convert::TryFromSpecImpl<String> for SubscriberName {
    open spec fn obeys_try_from_spec() -> bool {
        false
    }

    open spec fn try_from_spec(v: String) -> Result<SubscriberName, String> {
        arbitrary()
    }
}

impl TryFrom<String> for SubscriberEmail {
    type Error = String;

    fn try_from(s: String) -> (r: Result<SubscriberEmail, String>)
        ensures
            match r {
                Ok(e) => email_parse(s@) == Ok::<Seq<char>, Seq<char>>(e@),
                Err(m) => email_parse(s@) == Err::<Seq<char>, Seq<char>>(m@),
            },
    {
        SubscriberEmail::parse(s)
    }
}

/// `try_from` is described by its own `ensures`; the generic `TryFrom` contract is not claimed.
impl vstd::std_specs::convert::TryFromSpecImpl<String> for SubscriberEmail {
    open spec fn obeys_try_from_spec() -> bool {
        false
    }

    open spec fn try_from_spec(v: String) -> Result<SubscriberEmail, String> {
        arbitrary()
    }
}

impl TryFrom<SubReq> for SubscriberDetails {
    type Error = String;

    fn try_from(req: SubReq) -> (r: Result<SubscriberDetails, String>)
        ensures
            match r {
                Ok(d) => details_parse(req.name@, req.email@) == Ok::<
                    (Seq<char>, Seq<char>),
                    Seq<char>,
                >((d.name@, d.email@)),
                Err(m) => details_parse(req.name@, req.email@) == Err::<
                    (Seq<char>, Seq<char>),
                    Seq<char>,
                >(m@),
            },
    {
        SubscriberDetails::parse(req)
    }
}

/// `try_from` is described by its own `ensures`; the generic `TryFrom` contract is not claimed.
impl vstd::std_specs::convert::TryFromSpecImpl<SubReq> for SubscriberDetails {
    open spec fn obeys_try_from_spec() -> bool {
        false
    }

    open spec fn try_from_spec(v: SubReq) -> Result<SubscriberDetails, String> {
        arbitrary()
    }
}

impl Clone for SubscriberEmail {
    fn clone(&self) -> (r: SubscriberEmail)
        ensures
            r@ == self@,
    {
        self.duplicate()
    }
}

impl AsRef<str> for SubscriberName {
    /// The name as text; it always passes the checks it was made with.
    fn as_ref(&self) -> (r: &str)
        ensures
            r@ == self@,
            name_parse(r@) == Ok::<Seq<char>, Seq<char>>(r@),
    {
        proof {
            use_type_invariant(self);
        }
        self.0.as_str()
    }
}

impl AsRef<str> for SubscriberEmail {
    /// The email as text; it always passes the checks it was made with.
    fn as_ref(&self) -> (r: &str)
        ensures
            r@ == self@,
            email_parse(r@) == Ok::<Seq<char>, Seq<char>>(r@),
    {
        proof {
            use_type_invariant(self);
        }
        self.0.as_str()
    }
}

} // verus!
