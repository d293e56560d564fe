//! Session tokens. A token is the expiry (sixteen lowercase hexadecimal digits,
//! seconds since the Unix epoch), a random nonce of sixteen letters or digits, the
//! HMAC-SHA-256 tag of expiry, nonce and email (sixty-four hexadecimal digits), then
//! the email.

use crate::data_stores::BannedTokenStore;
use crate::ids::random_alphanumeric;
use crate::user::Email;
use hmac::Mac;
use vstd::arithmetic::div_mod::{lemma_div_denominator, lemma_fundamental_div_mod};
use vstd::prelude::*;
use vstd::string::{StrSliceExecFns, StringExecFns, StringSliceAdditionalSpecFns};

verus! {

/// The HMAC-SHA-256 tag of `msg` under `key`.
pub uninterp spec fn hmac_sha256_of(key: Seq<u8>, msg: Seq<u8>) -> Seq<u8>;

/// Relies on `hmac::Hmac<sha2::Sha256>`: `new_from_slice` accepts a key of any length
/// (it always returns `Ok`), and `finalize` gives the 32-byte tag of the message.
#[verifier::external_body]
fn hmac_sha256(key: &[u8], msg: &[u8]) -> (r: Vec<u8>)
    ensures
        r@ == hmac_sha256_of(key@, msg@),
        r@.len() == 32,
{
    let mut mac = hmac::Hmac::<sha2::Sha256>::new_from_slice(key).expect("HMAC takes keys of any length");
    mac.update(msg);
    mac.finalize().into_bytes().to_vec()
}

/// The 32 bytes of the HMAC-SHA-256 tag of `msg` under `key`.
pub open spec fn tag_of(key: Seq<u8>, msg: Seq<u8>) -> Seq<u8> {
    Seq::new(32, |i: int| hmac_sha256_of(key, msg)[i])
}

/// The lowercase hexadecimal digit of `d`.
pub open spec fn hex_char(d: nat) -> char {
    if d == 0 {
        '0'
    } else if d == 1 {
        '1'
    } else if d == 2 {
        '2'
    } else if d == 3 {
        '3'
    } else if d == 4 {
        '4'
    } else if d == 5 {
        '5'
    } else if d == 6 {
        '6'
    } else if d == 7 {
        '7'
    } else if d == 8 {
        '8'
    } else if d == 9 {
        '9'
    } else if d == 10 {
        'a'
    } else if d == 11 {
        'b'
    } else if d == 12 {
        'c'
    } else if d == 13 {
        'd'
    } else if d == 14 {
        'e'
    } else {
        'f'
    }
}

/// The value of the lowercase hexadecimal digit `c`; 16 when `c` is none.
pub open spec fn hex_value(c: char) -> nat {
    if c == '0' {
        0
    } else if c == '1' {
        1
    } else if c == '2' {
        2
    } else if c == '3' {
        3
    } else if c == '4' {
        4
    } else if c == '5' {
        5
    } else if c == '6' {
        6
    } else if c == '7' {
        7
    } else if c == '8' {
        8
    } else if c == '9' {
        9
    } else if c == 'a' {
        10
    } else if c == 'b' {
        11
    } else if c == 'c' {
        12
    } else if c == 'd' {
        13
    } else if c == 'e' {
        14
    } else if c == 'f' {
        15
    } else {
        16
    }
}

pub open spec fn pow16(k: nat) -> nat
    decreases k,
{
    if k == 0 {
        1
    } else {
        16 * pow16((k - 1) as nat)
    }
}

/// The number that the hexadecimal digits `s` spell, most significant first.
pub open spec fn hex_number(s: Seq<char>) -> nat
    decreases s.len(),
{
    if s.len() == 0 {
        0
    } else {
        hex_number(s.drop_last()) * 16 + hex_value(s.last())
    }
}

/// `n` as sixteen hexadecimal digits.
pub open spec fn hex16(n: nat) -> Seq<char> {
    Seq::new(16, |i: int| hex_char((n / pow16((15 - i) as nat)) % 16))
}

/// The bytes `b` in hexadecimal, two digits each.
pub open spec fn hex_of_bytes(b: Seq<u8>) -> Seq<char>
    decreases b.len(),
{
    if b.len() == 0 {
        Seq::empty()
    } else {
        hex_of_bytes(b.drop_last()) + seq![hex_char((b.last() / 16) as nat), hex_char((b.last() % 16) as nat)]
    }
}

/// The token issued under `key` with `nonce` for `email`, valid before `expiry`: the
/// expiry in sixteen hexadecimal digits, the nonce, the tag of all three, then the email.
pub open spec fn token_text(key: Seq<u8>, expiry: nat, nonce: Seq<char>, email: Seq<char>) -> Seq<
    char,
> {
    let head = hex16(expiry) + nonce;
    head + hex_of_bytes(tag_of(key, vstd::utf8::encode_utf8(head + email))) + email
}

/// The nonce that token text `t` carries.
pub open spec fn token_nonce(t: Seq<char>) -> Seq<char> {
    t.subrange(16, 32)
}

/// The expiry that token text `t` states.
pub open spec fn token_expiry(t: Seq<char>) -> nat {
    hex_number(t.take(16))
}

/// The email that token text `t` names.
pub open spec fn token_subject(t: Seq<char>) -> Seq<char> {
    t.skip(96)
}

/// `t` carries the right tag under `key` for the expiry and email it states.
pub open spec fn is_genuine(key: Seq<u8>, t: Seq<char>) -> bool {
    &&& t.len() >= 96
    &&& forall|i: int| 0 <= i < 16 ==> hex_value(#[trigger] t[i]) < 16
    &&& t.subrange(32, 96) == hex_of_bytes(
        tag_of(key, vstd::utf8::encode_utf8(t.take(32) + token_subject(t))),
    )
}

/// `t` is a genuine, unexpired token under `key` at time `now` that names a well-formed email.
pub open spec fn is_live(key: Seq<u8>, t: Seq<char>, now: nat) -> bool {
    &&& is_genuine(key, t)
    &&& crate::user::is_email_text(token_subject(t))
    &&& now < token_expiry(t)
}

/// The expiry of a token issued at `now` with lifetime `ttl`, capped at the largest `u64`.
pub open spec fn expiry_at(now: u64, ttl: u64) -> u64 {
    if now as int + ttl as int > u64::MAX as int {
        u64::MAX
    } else {
        (now + ttl) as u64
    }
}

fn hex_digit_str(d: u8) -> (r: &'static str)
    requires
        d < 16,
    ensures
        r@ == seq![hex_char(d as nat)],
{
    if d == 0 {
        proof {
            reveal_strlit("0");
        }
        "0"
    } else if d == 1 {
        proof {
            reveal_strlit("1");
        }
        "1"
    } else if d == 2 {
        proof {
            reveal_strlit("2");
        }
        "2"
    } else if d == 3 {
        proof {
            reveal_strlit("3");
        }
        "3"
    } else if d == 4 {
        proof {
            reveal_strlit("4");
        }
        "4"
    } else if d == 5 {
        proof {
            reveal_strlit("5");
        }
        "5"
    } else if d == 6 {
        proof {
            reveal_strlit("6");
        }
        "6"
    } else if d == 7 {
        proof {
            reveal_strlit("7");
        }
        "7"
    } else if d == 8 {
        proof {
            reveal_strlit("8");
        }
        "8"
    } else if d == 9 {
        proof {
            reveal_strlit("9");
        }
        "9"
    } else if d == 10 {
        proof {
            reveal_strlit("a");
        }
        "a"
    } else if d == 11 {
        proof {
            reveal_strlit("b");
        }
        "b"
    } else if d == 12 {
        proof {
            reveal_strlit("c");
        }
        "c"
    } else if d == 13 {
        proof {
            reveal_strlit("d");
        }
        "d"
    } else if d == 14 {
        proof {
            reveal_strlit("e");
        }
        "e"
    } else {
        proof {
            reveal_strlit("f");
        }
        "f"
    }
}

fn hex_digit_value(c: char) -> (r: Option<u8>)
    ensures
        hex_value(c) < 16 ==> r == Some(hex_value(c) as u8),
        hex_value(c) >= 16 ==> r is None,
{
    if c == '0' {
        Some(0)
    } else if c == '1' {
        Some(1)
    } else if c == '2' {
        Some(2)
    } else if c == '3' {
        Some(3)
    } else if c == '4' {
        Some(4)
    } else if c == '5' {
        Some(5)
    } else if c == '6' {
        Some(6)
    } else if c == '7' {
        Some(7)
    } else if c == '8' {
        Some(8)
    } else if c == '9' {
        Some(9)
    } else if c == 'a' {
        Some(10)
    } else if c == 'b' {
        Some(11)
    } else if c == 'c' {
        Some(12)
    } else if c == 'd' {
        Some(13)
    } else if c == 'e' {
        Some(14)
    } else if c == 'f' {
        Some(15)
    } else {
        None
    }
}

proof fn lemma_pow16_values()
    ensures
        pow16(15) == 0x1000_0000_0000_0000,
        pow16(16) == 0x1_0000_0000_0000_0000,
{
    reveal_with_fuel(pow16, 17);
}

proof fn lemma_hex_digit(d: nat)
    requires
        d < 16,
    ensures
        hex_value(hex_char(d)) == d,
{
    assert(d == 0 || d == 1 || d == 2 || d == 3 || d == 4 || d == 5 || d == 6 || d == 7 || d == 8
        || d == 9 || d == 10 || d == 11 || d == 12 || d == 13 || d == 14 || d == 15);
}

proof fn lemma_pow16_grows(a: nat, b: nat)
    requires
        a <= b,
    ensures
        1 <= pow16(a) <= pow16(b),
    decreases b,
{
    if b > a {
        lemma_pow16_grows(a, (b - 1) as nat);
    } else if a > 0 {
        lemma_pow16_grows(0, (a - 1) as nat);
    }
}

/// The first `k` digits of `hex16(n)` spell `n` with its last `16 - k` digits dropped.
proof fn lemma_hex16_prefix(n: nat, k: nat)
    requires
        n < pow16(16),
        k <= 16,
    ensures
        hex_number(hex16(n).take(k as int)) == n / pow16((16 - k) as nat),
    decreases k,
{
    lemma_pow16_grows(0, 16);
    lemma_pow16_values();
    if k == 0 {
        assert(hex16(n).take(0) =~= Seq::<char>::empty());
        assert(n / pow16(16) == 0);
    } else {
        let j = (k - 1) as nat;
        lemma_hex16_prefix(n, j);
        assert(hex16(n).take(k as int).drop_last() =~= hex16(n).take(j as int));
        let p = pow16((15 - j) as nat);
        lemma_pow16_grows(0, (15 - j) as nat);
        assert(pow16((16 - j) as nat) == 16 * p);
        lemma_div_denominator(n as int, p as int, 16);
        lemma_fundamental_div_mod((n / p) as int, 16);
        assert(hex16(n).take(k as int).last() == hex_char((n / p) % 16));
        lemma_hex_digit((n / p) % 16);
    }
}

/// Reading back the digits of `hex16(n)` gives `n`.
pub proof fn lemma_hex16_round_trip(n: nat)
    requires
        n < pow16(16),
    ensures
        hex_number(hex16(n)) == n,
{
    lemma_hex16_prefix(n, 16);
    assert(pow16(0) == 1);
    assert(n / pow16(0) == n);
    assert(hex16(n).take(16) =~= hex16(n));
    assert(hex_number(hex16(n).take(16)) == n);
}

proof fn lemma_hex_of_bytes_len(b: Seq<u8>)
    ensures
        hex_of_bytes(b).len() == 2 * b.len(),
    decreases b.len(),
{
    if b.len() > 0 {
        lemma_hex_of_bytes_len(b.drop_last());
    }
}

/// `n` as sixteen hexadecimal digits.
fn hex16_string(n: u64) -> (r: String)
    ensures
        r@ == hex16(n as nat),
{
    proof {
        lemma_pow16_values();
    }
    let mut s = String::new();
    let mut p: u64 = 0x1000_0000_0000_0000;
    let mut i: usize = 0;
    while i < 16
        invariant
            i <= 16,
            s@ == hex16(n as nat).take(i as int),
            i < 16 ==> p == pow16((15 - i) as nat),
            i < 16 ==> p >= 1,
        decreases 16 - i,
    {
        let d = ((n / p) % 16) as u8;
        s.append(hex_digit_str(d));
        assert(s@ =~= hex16(n as nat).take(i as int + 1));
        if i < 15 {
            proof {
                lemma_pow16_grows(0, (14 - i) as nat);
                assert(pow16((15 - i) as nat) == 16 * pow16((14 - i) as nat));
            }
            p = p / 16;
        }
        i = i + 1;
    }
    assert(hex16(n as nat).take(16) =~= hex16(n as nat));
    s
}

/// The bytes `b` in hexadecimal.
fn hex_string(b: &Vec<u8>) -> (r: String)
    ensures
        r@ == hex_of_bytes(b@),
{
    let mut s = String::new();
    let mut i: usize = 0;
    assert(b@.take(0) =~= Seq::<u8>::empty());
    while i < b.len()
        invariant
            i <= b@.len(),
            s@ == hex_of_bytes(b@.take(i as int)),
        decreases b@.len() - i,
    {
        let x = b[i];
        s.append(hex_digit_str(x / 16));
        s.append(hex_digit_str(x % 16));
        assert(b@.take(i as int + 1).drop_last() =~= b@.take(i as int));
        assert(s@ =~= hex_of_bytes(b@.take(i as int + 1)));
        i = i + 1;
    }
    assert(b@.take(b@.len() as int) =~= b@);
    s
}

/// The number that the first sixteen characters of `t` spell, when they are all
/// hexadecimal digits.
fn parse_hex16(t: &str) -> (r: Option<u64>)
    requires
        t@.len() >= 16,
    ensures
        r is Some <==> forall|i: int| 0 <= i < 16 ==> hex_value(#[trigger] t@[i]) < 16,
        r matches Some(v) ==> v as nat == token_expiry(t@),
{
    proof {
        lemma_pow16_values();
    }
    let mut acc: u64 = 0;
    let mut i: usize = 0;
    assert(t@.take(0) =~= Seq::<char>::empty());
    while i < 16
        invariant
            i <= 16,
            t@.len() >= 16,
            acc as nat == hex_number(t@.take(i as int)),
            acc < pow16(i as nat),
            forall|j: int| 0 <= j < i ==> hex_value(#[trigger] t@[j]) < 16,
        decreases 16 - i,
    {
        let c = t.get_char(i);
        let v = match hex_digit_value(c) {
            Some(v) => v,
            None => return None,
        };
        proof {
            lemma_pow16_values();
            lemma_pow16_grows((i + 1) as nat, 16);
            assert(pow16((i + 1) as nat) == 16 * pow16(i as nat));
            assert(t@.take(i as int + 1).drop_last() =~= t@.take(i as int));
        }
        assert(v < 16);
        assert(acc * 16 + v < pow16((i + 1) as nat));
        assert(acc * 16 + v < 0x1_0000_0000_0000_0000);
        acc = acc * 16 + v as u64;
        i = i + 1;
    }
    Some(acc)
}

/// Why a session token was refused.
#[derive(Debug, Clone, Copy, PartialEq, Eq, Structural)]
pub enum TokenError {
    /// Malformed, wrongly signed or expired.
    Invalid,
    /// Banned.
    Revoked,
}

/// Issues and checks signed, time-bound session tokens.
pub struct TokenService {
    key: Vec<u8>,
    ttl: u64,
}

impl TokenService {
    #[verifier::type_invariant]
    spec fn inv(&self) -> bool {
        self.ttl > 0
    }

    /// The signing key.
    pub closed spec fn key(&self) -> Seq<u8> {
        self.key@
    }

    /// How many seconds a token stays valid.
    pub closed spec fn ttl(&self) -> u64 {
        self.ttl
    }

    pub fn new(key: Vec<u8>, ttl_seconds: u64) -> (r: TokenService)
        requires
            ttl_seconds > 0,
        ensures
            r.key() == key@,
            r.ttl() == ttl_seconds,
    {
        TokenService { key, ttl: ttl_seconds }
    }

    /// The token for `email` with `nonce`, issued at time `now` (seconds since the Unix
    /// epoch).
    pub fn issue_with_nonce(&self, email: &Email, now: u64, nonce: &str) -> (r: String)
        requires
            nonce@.len() == 16,
        ensures
            r@ == token_text(self.key(), expiry_at(now, self.ttl()) as nat, nonce@, email@),
    {
        let expiry = if now > u64::MAX - self.ttl {
            u64::MAX
        } else {
            now + self.ttl
        };
        let mut head = hex16_string(expiry);
        head.append(nonce);
        let mut payload = head.clone();
        payload.append(email.as_str());
        let mac = hmac_sha256(self.key.as_slice(), payload.as_str().as_bytes());
        assert(mac@ =~= tag_of(self.key(), vstd::utf8::encode_utf8(payload@)));
        let tag = hex_string(&mac);
        let mut token = head;
        token.append(tag.as_str());
        token.append(email.as_str());
        token
    }

    /// A token for `email` with a fresh random nonce, issued at time `now`; it stays
    /// valid for the service's lifetime, which is never zero.
    pub fn issue(&self, email: &Email, now: u64) -> (r: String)
        ensures
            token_nonce(r@).len() == 16,
            r@ == token_text(self.key(), expiry_at(now, self.ttl()) as nat, token_nonce(r@), email@),
            now < u64::MAX ==> now < expiry_at(now, self.ttl()),
    {
        proof {
            use_type_invariant(self);
        }
        let nonce = random_alphanumeric(16);
        let r = self.issue_with_nonce(email, now, nonce.as_str());
        assert(token_nonce(r@) =~= nonce@);
        r
    }

    /// The email that `token` names, when it is genuine, unexpired at time `now`
    /// and not banned in `banned`.
    pub fn verify<B: BannedTokenStore>(&self, token: &str, now: u64, banned: &B) -> (r: Result<
        Email,
        TokenError,
    >)
        requires
            banned.well_formed(),
        ensures
            !is_live(self.key(), token@, now as nat) ==> r == Err::<Email, _>(TokenError::Invalid),
            is_live(self.key(), token@, now as nat) && banned.banned().contains(token@) ==> r
                == Err::<Email, _>(TokenError::Revoked),
            is_live(self.key(), token@, now as nat) && !banned.banned().contains(token@) ==> (
            r matches Ok(e) && e@ == token_subject(token@)),
    {
        let n = token.unicode_len();
        if n < 96 {
            return Err(TokenError::Invalid);
        }
        let expiry = match parse_hex16(token) {
            Some(e) => e,
            None => return Err(TokenError::Invalid),
        };
        let subject = token.substring_char(96, n);
        let email = match Email::from_str(subject) {
            Ok(e) => e,
            Err(_) => return Err(TokenError::Invalid),
        };
        let mut payload = token.substring_char(0, 32).to_owned();
        payload.append(subject);
        assert(payload@ =~= token@.take(32) + token_subject(token@));
        let mac = hmac_sha256(self.key.as_slice(), payload.as_str().as_bytes());
        assert(mac@ =~= tag_of(self.key(), vstd::utf8::encode_utf8(payload@)));
        let expected = hex_string(&mac);
        let tag = token.substring_char(32, 96).to_owned();
        if !(tag == expected) {
            return Err(TokenError::Invalid);
        }
        if now >= expiry {
            return Err(TokenError::Invalid);
        }
        match banned.check(token) {
            Ok(()) => Ok(email),
            Err(_) => Err(TokenError::Revoked),
        }
    }
}

/// A token issued for a well-formed `email` is genuine, states the expiry it was
/// issued with and names `email`; so it is accepted exactly while `now` is before
/// that expiry.
pub proof fn lemma_issue_then_verify(
    key: Seq<u8>,
    expiry: u64,
    nonce: Seq<char>,
    email: Seq<char>,
    now: nat,
)
    requires
        nonce.len() == 16,
        crate::user::is_email_text(email),
    ensures
        is_genuine(key, token_text(key, expiry as nat, nonce, email)),
        token_expiry(token_text(key, expiry as nat, nonce, email)) == expiry,
        token_nonce(token_text(key, expiry as nat, nonce, email)) == nonce,
        token_subject(token_text(key, expiry as nat, nonce, email)) == email,
        is_live(key, token_text(key, expiry as nat, nonce, email), now) <==> now < expiry,
{
    let head = hex16(expiry as nat) + nonce;
    let tag = hex_of_bytes(tag_of(key, vstd::utf8::encode_utf8(head + email)));
    let t = token_text(key, expiry as nat, nonce, email);
    lemma_pow16_values();
    lemma_hex16_round_trip(expiry as nat);
    lemma_hex_of_bytes_len(tag_of(key, vstd::utf8::encode_utf8(head + email)));
    assert(head.len() == 32);
    assert(t.take(32) =~= head);
    assert(t.take(16) =~= hex16(expiry as nat));
    assert(head.subrange(16, 32) =~= nonce);
    assert(t.subrange(16, 32) =~= head.subrange(16, 32));
    assert(t.skip(96) =~= email);
    assert(t.subrange(32, 96) =~= tag);
    assert forall|i: int| 0 <= i < 16 implies hex_value(#[trigger] t[i]) < 16 by {
        assert(t[i] == hex16(expiry as nat)[i]);
        lemma_hex_digit((expiry as nat / pow16((15 - i) as nat)) % 16);
    }
}

} // verus!
