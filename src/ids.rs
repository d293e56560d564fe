use rand::distr::SampleString;
use crate::user::byte_len;
use vstd::prelude::*;
use vstd::utf8::{encode_utf8, is_ascii_chars, is_ascii_chars_encode_utf8};

verus! {

/// An ASCII letter or digit.
pub open spec fn is_ascii_alphanumeric(c: char) -> bool {
    ('0' <= c && c <= '9') || ('a' <= c && c <= 'z') || ('A' <= c && c <= 'Z')
}

/// A two-factor code is six ASCII letters or digits.
pub open spec fn is_code_text(s: Seq<char>) -> bool {
    &&& s.len() == 6
    &&& forall|i: int| 0 <= i < s.len() ==> is_ascii_alphanumeric(#[trigger] s[i])
}

/// A hexadecimal digit of either case.
pub open spec fn is_hex_digit(c: char) -> bool {
    ('0' <= c && c <= '9') || ('a' <= c && c <= 'f') || ('A' <= c && c <= 'F')
}

/// Thirty-two hexadecimal digits in groups of 8, 4, 4, 4 and 12, joined by hyphens.
pub open spec fn is_hyphenated_uuid(s: Seq<char>) -> bool {
    &&& s.len() == 36
    &&& forall|i: int|
        0 <= i < 36 ==> if i == 8 || i == 13 || i == 18 || i == 23 {
            #[trigger] s[i] == '-'
        } else {
            is_hex_digit(s[i])
        }
}

/// `urn:uuid:` in any mix of letter cases.
pub open spec fn is_urn_prefix(s: Seq<char>) -> bool {
    &&& s.len() == 9
    &&& (s[0] == 'u' || s[0] == 'U') && (s[1] == 'r' || s[1] == 'R') && (s[2] == 'n' || s[2] == 'N')
    &&& s[3] == ':'
    &&& (s[4] == 'u' || s[4] == 'U') && (s[5] == 'u' || s[5] == 'U') && (s[6] == 'i' || s[6] == 'I')
    &&& (s[7] == 'd' || s[7] == 'D')
    &&& s[8] == ':'
}

/// The texts that the uuid crate parses as a UUID: thirty-two hexadecimal digits,
/// the hyphenated form, the hyphenated form in braces, or it after a `urn:uuid:` prefix.
pub open spec fn uuid_accepts(s: Seq<char>) -> bool {
    ||| s.len() == 32 && forall|i: int| 0 <= i < 32 ==> is_hex_digit(#[trigger] s[i])
    ||| is_hyphenated_uuid(s)
    ||| s.len() == 38 && s[0] == '{' && s[37] == '}' && is_hyphenated_uuid(s.subrange(1, 37))
    ||| s.len() == 45 && is_urn_prefix(s.take(9)) && is_hyphenated_uuid(s.skip(9))
}

/// Relies on `uuid::Uuid::parse_str`: whether it accepts the text.
#[verifier::external_body]
fn uuid_parses(s: &str) -> (r: bool)
    ensures
        r == uuid_accepts(s@),
{
    uuid::Uuid::parse_str(s).is_ok()
}

/// Relies on `uuid::Uuid::new_v4` and its `to_string`: a fresh random UUID in the
/// hyphenated form, which `Uuid::parse_str` accepts.
#[verifier::external_body]
fn fresh_uuid_text() -> (r: String)
    ensures
        uuid_accepts(r@),
{
    uuid::Uuid::new_v4().to_string()
}

/// Relies on rand's `Alphanumeric::sample_string` with the thread-local generator:
/// `len` characters, each an ASCII letter or digit.
#[verifier::external_body]
pub(crate) fn random_alphanumeric(len: usize) -> (r: String)
    ensures
        r@.len() == len,
        forall|i: int| 0 <= i < r@.len() ==> is_ascii_alphanumeric(#[trigger] r@[i]),
{
    rand::distr::Alphanumeric.sample_string(&mut rand::rng(), len)
}

/// A text of ASCII letters and digits is as long in bytes as in characters; so it is
/// a code exactly when it is six bytes long.
proof fn lemma_code_text_is_six_bytes(s: Seq<char>)
    ensures
        (forall|i: int| 0 <= i < s.len() ==> is_ascii_alphanumeric(#[trigger] s[i])) ==> (
        is_code_text(s) <==> encode_utf8(s).len() == 6),
{
    if forall|i: int| 0 <= i < s.len() ==> is_ascii_alphanumeric(#[trigger] s[i]) {
        assert(is_ascii_chars(s));
        is_ascii_chars_encode_utf8(s);
    }
}

fn is_alphanumeric_char(c: char) -> (r: bool)
    ensures
        r == is_ascii_alphanumeric(c),
{
    ('0' <= c && c <= '9') || ('a' <= c && c <= 'z') || ('A' <= c && c <= 'Z')
}

/// The identifier of one login that waits for its second factor.
#[derive(Debug, PartialEq)]
pub struct LoginAttemptId(String);

impl Clone for LoginAttemptId {
    fn clone(&self) -> (r: LoginAttemptId)
        ensures
            r@ == self@,
    {
        proof {
            use_type_invariant(self);
        }
        LoginAttemptId(self.0.clone())
    }
}

impl View for LoginAttemptId {
    type V = Seq<char>;

    closed spec fn view(&self) -> Seq<char> {
        self.0@
    }
}

impl LoginAttemptId {
    #[verifier::type_invariant]
    pub(crate) open spec fn inv(&self) -> bool {
        uuid_accepts(self@)
    }

    /// Accepts `id` exactly when it is a UUID.
    pub fn parse(id: String) -> (r: Result<LoginAttemptId, String>)
        ensures
            r is Ok <==> uuid_accepts(id@),
            r matches Ok(a) ==> a@ == id@,
            r matches Err(m) ==> m@ == "Invalid login attempt ID"@,
    {
        if uuid_parses(id.as_str()) {
            Ok(LoginAttemptId(id))
        } else {
            Err("Invalid login attempt ID".to_owned())
        }
    }

    pub fn as_str(&self) -> (r: &str)
        ensures
            r@ == self@,
    {
        self.0.as_str()
    }

    /// Compares two identifiers by exact value.
    pub fn matches(&self, other: &LoginAttemptId) -> (r: bool)
        ensures
            r == (self@ == other@),
    {
        self.0 == other.0
    }
}

impl Default for LoginAttemptId {
    /// A fresh random identifier.
    fn default() -> (r: LoginAttemptId)
        ensures
            uuid_accepts(r@),
    {
        LoginAttemptId(fresh_uuid_text())
    }
}

/// A one-time code of the second factor.
#[derive(Debug, PartialEq)]
pub struct TwoFACode(String);

impl Clone for TwoFACode {
    fn clone(&self) -> (r: TwoFACode)
        ensures
            r@ == self@,
    {
        proof {
            use_type_invariant(self);
        }
        TwoFACode(self.0.clone())
    }
}

impl View for TwoFACode {
    type V = Seq<char>;

    closed spec fn view(&self) -> Seq<char> {
        self.0@
    }
}

impl TwoFACode {
    #[verifier::type_invariant]
    pub(crate) open spec fn inv(&self) -> bool {
        is_code_text(self@)
    }

    /// Accepts `code` exactly when it is six ASCII letters or digits. A code that is
    /// not six bytes long is refused for its length, any other for its characters.
    pub fn parse(code: String) -> (r: Result<TwoFACode, String>)
        ensures
            r is Ok <==> is_code_text(code@),
            r matches Ok(c) ==> c@ == code@,
            r matches Err(m) ==> m@ == if encode_utf8(code@).len() != 6 {
                "Invalid code length"@
            } else {
                "Invalid code characters"@
            },
    {
        proof {
            lemma_code_text_is_six_bytes(code@);
        }
        if byte_len(code.as_str()) != 6 {
            return Err("Invalid code length".to_owned());
        }
        let n = code.as_str().unicode_len();
        let mut i: usize = 0;
        while i < n
            invariant
                n == code@.len(),
                i <= n,
                encode_utf8(code@).len() == 6,
                forall|j: int| 0 <= j < i ==> is_ascii_alphanumeric(#[trigger] code@[j]),
            decreases n - i,
        {
            let c = code.as_str().get_char(i);
            if !is_alphanumeric_char(c) {
                return Err("Invalid code characters".to_owned());
            }
            i = i + 1;
        }
        Ok(TwoFACode(code))
    }

    pub fn as_str(&self) -> (r: &str)
        ensures
            r@ == self@,
    {
        self.0.as_str()
    }

    /// Compares two codes by exact value.
    pub fn matches(&self, other: &TwoFACode) -> (r: bool)
        ensures
            r == (self@ == other@),
    {
        self.0 == other.0
    }
}

impl Default for TwoFACode {
    /// A fresh random code.
    fn default() -> (r: TwoFACode)
        ensures
            is_code_text(r@),
    {
        TwoFACode(random_alphanumeric(6))
    }
}

} // verus!
