use vstd::prelude::*;
use vstd::utf8::encode_utf8;

verus! {

/// Number of `@` characters in `s`.
pub open spec fn at_sign_count(s: Seq<char>) -> nat
    decreases s.len(),
{
    if s.len() == 0 {
        0
    } else {
        at_sign_count(s.drop_last()) + if s.last() == '@' { 1nat } else { 0nat }
    }
}

/// An email address is well formed when it holds exactly one `@`.
pub open spec fn is_email_text(s: Seq<char>) -> bool {
    at_sign_count(s) == 1
}

/// A password is well formed when its UTF-8 encoding is at least eight bytes long.
pub open spec fn is_password_text(s: Seq<char>) -> bool {
    encode_utf8(s).len() >= 8
}

/// The length of `s` in bytes.
pub(crate) fn byte_len(s: &str) -> (r: usize)
    ensures
        r == encode_utf8(s@).len(),
{
    s.as_bytes().len()
}

fn has_one_at_sign(s: &str) -> (r: bool)
    ensures
        r == is_email_text(s@),
{
    let n = s.unicode_len();
    let mut count: usize = 0;
    let mut i: usize = 0;
    while i < n
        invariant
            n == s@.len(),
            i <= n,
            count == at_sign_count(s@.take(i as int)),
            count <= i,
        decreases n - i,
    {
        let c = s.get_char(i);
        assert(s@.take(i as int + 1).drop_last() =~= s@.take(i as int));
        if c == '@' {
            count = count + 1;
        }
        i = i + 1;
    }
    assert(s@.take(n as int) =~= s@);
    count == 1
}

/// A validated email address.
#[derive(Debug, PartialEq, Eq, Hash)]
pub struct Email(String);

impl Clone for Email {
    fn clone(&self) -> (r: Email)
        ensures
            r@ == self@,
    {
        proof {
            use_type_invariant(self);
        }
        Email(self.0.clone())
    }
}

impl View for Email {
    type V = Seq<char>;

    closed spec fn view(&self) -> Seq<char> {
        self.0@
    }
}

impl Email {
    #[verifier::type_invariant]
    pub(crate) open spec fn inv(&self) -> bool {
        is_email_text(self@)
    }

    /// Accepts `s` exactly when it holds one `@`.
    pub fn from_str(s: &str) -> (r: Result<Email, String>)
        ensures
            r is Ok <==> is_email_text(s@),
            r matches Ok(e) ==> e@ == s@,
            r matches Err(m) ==> m@ == "Invalid email format"@,
    {
        if has_one_at_sign(s) {
            Ok(Email(s.to_owned()))
        } else {
            Err("Invalid email format".to_owned())
        }
    }

    pub fn as_str(&self) -> (r: &str)
        ensures
            r@ == self@,
            is_email_text(self@),
    {
        proof {
            use_type_invariant(self);
        }
        self.0.as_str()
    }

    /// Compares two addresses by exact value.
    pub fn matches(&self, other: &Email) -> (r: bool)
        ensures
            r == (self@ == other@),
    {
        self.0 == other.0
    }
}

/// A validated password.
#[derive(Debug, PartialEq, Eq, Hash)]
pub struct Password(String);

impl Clone for Password {
    fn clone(&self) -> (r: Password)
        ensures
            r@ == self@,
    {
        proof {
            use_type_invariant(self);
        }
        Password(self.0.clone())
    }
}

impl View for Password {
    type V = Seq<char>;

    closed spec fn view(&self) -> Seq<char> {
        self.0@
    }
}

impl Password {
    #[verifier::type_invariant]
    pub(crate) open spec fn inv(&self) -> bool {
        is_password_text(self@)
    }

    /// Accepts `s` exactly when it is at least eight bytes long.
    pub fn from_str(s: &str) -> (r: Result<Password, String>)
        ensures
            r is Ok <==> is_password_text(s@),
            r matches Ok(p) ==> p@ == s@,
            r matches Err(m) ==> m@ == "Password must be at least 8 characters long"@,
    {
        if byte_len(s) >= 8 {
            Ok(Password(s.to_owned()))
        } else {
            Err("Password must be at least 8 characters long".to_owned())
        }
    }

    pub fn as_str(&self) -> (r: &str)
        ensures
            r@ == self@,
    {
        self.0.as_str()
    }


    /// Compares two passwords by exact value.
    pub fn matches(&self, other: &Password) -> (r: bool)
        ensures
            r == (self@ == other@),
    {
        self.0 == other.0
    }
}

/// What a user record holds.
pub struct UserView {
    pub email: Seq<char>,
    pub password: Seq<char>,
    pub requires_2fa: bool,
}

/// A registered user.
#[derive(Debug)]
pub struct User {
    email: Email,
    password: Password,
    pub requires_2fa: bool,
}

impl Clone for User {
    fn clone(&self) -> (r: User)
        ensures
            r@ == self@,
    {
        User { email: self.email.clone(), password: self.password.clone(), requires_2fa: self.requires_2fa }
    }
}

impl View for User {
    type V = UserView;

    closed spec fn view(&self) -> UserView {
        UserView { email: self.email@, password: self.password@, requires_2fa: self.requires_2fa }
    }
}

impl User {
    pub fn new(email: Email, password: Password, requires_2fa: bool) -> (r: User)
        ensures
            r@ == (UserView { email: email@, password: password@, requires_2fa }),
    {
        User { email, password, requires_2fa }
    }

    /// Builds a user from raw text; fails when the email or the password is malformed.
    pub fn from_str(email: &str, password: &str, requires_2fa: bool) -> (r: Result<User, String>)
        ensures
            r is Ok <==> is_email_text(email@) && is_password_text(password@),
            r matches Ok(u) ==> u@ == (UserView {
                email: email@,
                password: password@,
                requires_2fa,
            }),
            r matches Err(m) ==> m@ == if !is_email_text(email@) {
                "Invalid email format"@
            } else {
                "Password must be at least 8 characters long"@
            },
    {
        let email = match Email::from_str(email) {
            Ok(e) => e,
            Err(msg) => return Err(msg),
        };
        let password = match Password::from_str(password) {
            Ok(p) => p,
            Err(msg) => return Err(msg),
        };
        Ok(User { email, password, requires_2fa })
    }

    pub fn email(&self) -> (r: Email)
        ensures
            r@ == self@.email,
    {
        self.email.clone()
    }

    pub fn email_str(&self) -> (r: &str)
        ensures
            r@ == self@.email,
    {
        self.email.as_str()
    }

    pub fn password(&self) -> (r: Password)
        ensures
            r@ == self@.password,
    {
        self.password.clone()
    }

    pub fn password_str(&self) -> (r: &str)
        ensures
            r@ == self@.password,
    {
        self.password.as_str()
    }

    /// Whether this user is registered under `email`.
    pub fn has_email(&self, email: &Email) -> (r: bool)
        ensures
            r == (self@.email == email@),
    {
        self.email.matches(email)
    }

    pub fn requires_2fa(&self) -> (r: bool)
        ensures
            r == self@.requires_2fa,
    {
        self.requires_2fa
    }

}

} // verus!
