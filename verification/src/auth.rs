//! Signed, time-limited tokens.
//!
//! A token is a JSON Web Token signed with the server's secret. Its claims
//! are the identity of a user (`sub`), the second at which it expires
//! (`exp`) and the purpose it was issued for (`kind`). A token is trusted
//! only if its signature, its expiry and its kind all hold; a token that is
//! well signed but expired, or issued for another purpose, is told apart
//! from one that is simply invalid.

use crate::ident::{id_of_text, id_text, parse_id, text_of_id};
use crate::model::Uuid;
use vstd::prelude::*;
use vstd::string::*;

verus! {

/// The purpose a token was issued for.
#[derive(Clone, Copy, Debug, PartialEq, Eq, Structural)]
pub enum TokenKind {
    /// Proves the identity of a signed-in user.
    Session,
    /// Permits one sign-up and names the user who issued it.
    Invitation,
}

/// The claims of a token that was accepted.
#[derive(Clone, Copy, Debug, PartialEq, Eq, Structural)]
pub struct Claims {
    pub kind: TokenKind,
    pub user: Uuid,
    pub expires: u64,
}

/// Why a token was refused.
#[derive(Clone, Copy, Debug, PartialEq, Eq, Structural)]
pub enum TokenError {
    /// The token is malformed, badly signed, or lacks a claim.
    Invalid,
    /// The token is well signed but its time has passed.
    Expired,
    /// The token is well signed and current but was issued for another
    /// purpose.
    WrongKind,
}

/// The claims of a token as they were written, before any is interpreted.
#[derive(Clone, Debug, PartialEq, Eq)]
pub struct RawClaims {
    pub sub: Option<String>,
    pub kind: Option<String>,
    pub exp: Option<u64>,
}

/// What came of checking a token's signature and expiry.
#[derive(Clone, Debug, PartialEq, Eq)]
pub enum Decoded {
    /// The signature holds and the token has not expired.
    Claims(RawClaims),
    /// The signature holds but the token has expired.
    Expired,
    /// Anything else.
    Rejected,
}

/// A value of a claim as it stands in a token.
#[derive(Clone, Debug, PartialEq, Eq)]
pub enum ClaimValue {
    /// A string.
    Text(String),
    /// Any other value, as JSON text.
    Json(String),
}

/// A claim of a token: a name and a value.
#[derive(Clone, Debug, PartialEq, Eq)]
pub struct Claim {
    pub name: String,
    pub value: ClaimValue,
}

/// What the check of signature and expiry returns: every claim of the
/// token as it stands, or the reason for the refusal.
#[derive(Clone, Debug, PartialEq, Eq)]
pub enum Opened {
    Claims(Vec<Claim>),
    Expired,
    Rejected,
}

/// The claims `claims` as plain text, name by name.
pub open spec fn text_claims(claims: Seq<(String, String)>) -> Seq<(Seq<char>, Seq<char>)> {
    claims.map_values(|claim: (String, String)| (claim.0@, claim.1@))
}

/// The claims `claims` with their names as plain text.
pub open spec fn number_claims(claims: Seq<(String, u64)>) -> Seq<(Seq<char>, u64)> {
    claims.map_values(|claim: (String, u64)| (claim.0@, claim.1))
}

/// The text of the token that carries the given claims under the given
/// secret: first the claims that are strings, then those that are numbers,
/// each with its name.
pub uninterp spec fn jwt_text(
    secret: Seq<char>,
    texts: Seq<(Seq<char>, Seq<char>)>,
    numbers: Seq<(Seq<char>, u64)>,
) -> Seq<char>;

/// Calls `jsonwebtoken::encode` with the default header (HS256), the given
/// claims as a JSON object, and `secret` as the HMAC key. The object is
/// filled in the order given and the signature is an HMAC, so the text is
/// a function of the arguments. With an HMAC key and the default header no
/// path of the call returns an error, so the text is always there.
#[verifier::external_body]
fn jwt_encode(
    secret: &str,
    texts: &Vec<(String, String)>,
    numbers: &Vec<(String, u64)>,
) -> (r: Option<String>)
    ensures
        r is Some,
        r matches Some(token) ==> token@ == jwt_text(
            secret@,
            text_claims(texts@),
            number_claims(numbers@),
        ),
{
    let mut claims = serde_json::Map::new();
    for (name, text) in texts {
        claims.insert(name.clone(), serde_json::Value::from(text.as_str()));
    }
    for (name, number) in numbers {
        claims.insert(name.clone(), serde_json::Value::from(*number));
    }
    let key = jsonwebtoken::EncodingKey::from_secret(secret.as_bytes());
    jsonwebtoken::encode(&jsonwebtoken::Header::default(), &claims, &key).ok()
}

/// Calls `jsonwebtoken::decode` with the default validation: the signature
/// must be an HS256 signature under `secret`, and `exp` must be present and
/// not in the past by the system clock. The claims are handed on as they
/// stand, a string as its text and any other value as JSON text. The error
/// kind `ExpiredSignature` becomes `Expired`, every other error `Rejected`.
/// Nothing is claimed of the result: it depends on the time of the call.
#[verifier::external_body]
fn jwt_decode(secret: &str, token: &str) -> (r: Opened) {
    let key = jsonwebtoken::DecodingKey::from_secret(secret.as_bytes());
    let validation = jsonwebtoken::Validation::default();
    match jsonwebtoken::decode::<serde_json::Map<String, serde_json::Value>>(token, &key, &validation) {
        Ok(data) => Opened::Claims(data.claims.into_iter().map(|(name, value)| match value {
            serde_json::Value::String(text) => Claim { name, value: ClaimValue::Text(text) },
            other => Claim { name, value: ClaimValue::Json(other.to_string()) },
        }).collect()),
        Err(error) => match error.kind() {
            jsonwebtoken::errors::ErrorKind::ExpiredSignature => Opened::Expired,
            _ => Opened::Rejected,
        },
    }
}

/// The value of a decimal digit, if `c` is one.
pub open spec fn decimal_digit(c: char) -> Option<u8> {
    let n = c as u32;
    if 48 <= n <= 57 {
        Some((n - 48) as u8)
    } else {
        None
    }
}

/// True if every character of `s` is a decimal digit.
pub open spec fn all_decimal(s: Seq<char>) -> bool {
    forall|i: int| 0 <= i < s.len() ==> (#[trigger] decimal_digit(s[i])) is Some
}

/// The number that the decimal digits of `s` denote. A character that is
/// no digit counts as zero.
pub open spec fn decimal_number(s: Seq<char>) -> nat
    decreases s.len(),
{
    if s.len() == 0 {
        0
    } else {
        let low: nat = match decimal_digit(s.last()) {
            Some(d) => d as nat,
            None => 0,
        };
        10 * decimal_number(s.drop_last()) + low
    }
}

/// The number that `s` denotes, if `s` is one or more decimal digits and
/// the number fits.
pub open spec fn decimal_value(s: Seq<char>) -> Option<u64> {
    if s.len() > 0 && all_decimal(s) && decimal_number(s) <= u64::MAX {
        Some(decimal_number(s) as u64)
    } else {
        None
    }
}

/// A number is no smaller than the number that its first digits denote.
proof fn lemma_decimal_grows(s: Seq<char>, k: int)
    requires
        0 <= k <= s.len(),
    ensures
        decimal_number(s.take(k)) <= decimal_number(s),
    decreases s.len() - k,
{
    if k == s.len() {
        assert(s.take(k) =~= s);
    } else {
        lemma_decimal_grows(s, k + 1);
        assert(s.take(k + 1).drop_last() =~= s.take(k));
    }
}

/// Reads a number written in decimal digits. Anything else, and a number
/// that does not fit, is refused.
pub fn parse_decimal(text: &str) -> (r: Option<u64>)
    ensures
        r == decimal_value(text@),
{
    let n = text.unicode_len();
    if n == 0 {
        return None;
    }
    let mut value: u64 = 0;
    let mut i: usize = 0;
    assert(text@.take(0).len() == 0);
    while i < n
        invariant
            i <= n,
            n == text@.len(),
            all_decimal(text@.take(i as int)),
            value == decimal_number(text@.take(i as int)),
        decreases n - i,
    {
        let c = text.get_char(i);
        let code: u32 = c as u32;
        let ghost longer = text@.take(i as int + 1);
        proof {
            assert(longer.drop_last() =~= text@.take(i as int));
            assert(longer.last() == c);
        }
        if code < 48 || code > 57 {
            assert(!all_decimal(text@)) by {
                assert(decimal_digit(text@[i as int]) is None);
            }
            return None;
        }
        let d: u64 = (code - 48) as u64;
        if value > (u64::MAX - d) / 10 {
            proof {
                lemma_decimal_grows(text@, i as int + 1);
            }
            return None;
        }
        assert forall|k: int| 0 <= k < longer.len() implies (#[trigger] decimal_digit(
            longer[k],
        )) is Some by {
            if k < i {
                assert(longer[k] == text@.take(i as int)[k]);
            }
        }
        value = value * 10 + d;
        i += 1;
    }
    assert(text@.take(n as int) =~= text@);
    Some(value)
}

/// The value of the first of `claims` that has the name `name`.
pub open spec fn claim_named(claims: Seq<Claim>, name: Seq<char>) -> Option<ClaimValue>
    decreases claims.len(),
{
    if claims.len() == 0 {
        None
    } else if claims[0].name@ == name {
        Some(claims[0].value)
    } else {
        claim_named(claims.skip(1), name)
    }
}

/// The claim `name` of `claims`, if it is a string.
pub open spec fn text_claim(claims: Seq<Claim>, name: Seq<char>) -> Option<String> {
    match claim_named(claims, name) {
        Some(ClaimValue::Text(text)) => Some(text),
        _ => None,
    }
}

/// The claim `name` of `claims`, if it is a number written in decimal
/// digits.
pub open spec fn number_claim(claims: Seq<Claim>, name: Seq<char>) -> Option<u64> {
    match claim_named(claims, name) {
        Some(ClaimValue::Json(text)) => decimal_value(text@),
        _ => None,
    }
}

/// The three claims that a token of this service carries, as far as
/// `claims` holds them: `sub` and `kind` as strings, `exp` as a number.
pub open spec fn raw_of(claims: Seq<Claim>) -> RawClaims {
    RawClaims {
        sub: text_claim(claims, "sub"@),
        kind: text_claim(claims, "kind"@),
        exp: number_claim(claims, "exp"@),
    }
}

/// What the check of signature and expiry comes to, once the claims are
/// picked.
pub open spec fn decoded_of(opened: Opened) -> Decoded {
    match opened {
        Opened::Claims(claims) => Decoded::Claims(raw_of(claims@)),
        Opened::Expired => Decoded::Expired,
        Opened::Rejected => Decoded::Rejected,
    }
}

/// The value of the first of `claims` that has the name `name`.
pub fn find_claim<'a>(claims: &'a Vec<Claim>, name: &str) -> (r: Option<&'a ClaimValue>)
    ensures
        r == match claim_named(claims@, name@) {
            Some(value) => Some(&value),
            None => None,
        },
{
    let wanted = String::from_str(name);
    let mut i: usize = 0;
    assert(claims@.skip(0) =~= claims@);
    while i < claims.len()
        invariant
            i <= claims.len(),
            wanted@ == name@,
            claim_named(claims@, name@) == claim_named(claims@.skip(i as int), name@),
        decreases claims.len() - i,
    {
        let ghost rest = claims@.skip(i as int);
        assert(rest[0] == claims@[i as int]);
        assert(rest.skip(1) =~= claims@.skip(i as int + 1));
        if claims[i].name == wanted {
            return Some(&claims[i].value);
        }
        i += 1;
    }
    None
}

/// Picks the three claims that a token of this service carries.
pub fn pick_claims(claims: &Vec<Claim>) -> (r: RawClaims)
    ensures
        r == raw_of(claims@),
{
    let sub = match find_claim(claims, "sub") {
        Some(ClaimValue::Text(text)) => Some(text.clone()),
        _ => None,
    };
    let kind = match find_claim(claims, "kind") {
        Some(ClaimValue::Text(text)) => Some(text.clone()),
        _ => None,
    };
    let exp = match find_claim(claims, "exp") {
        Some(ClaimValue::Json(text)) => parse_decimal(text.as_str()),
        _ => None,
    };
    RawClaims { sub, kind, exp }
}

/// Picks the claims of what the check of signature and expiry returned.
pub fn interpret(opened: Opened) -> (r: Decoded)
    ensures
        r == decoded_of(opened),
{
    match opened {
        Opened::Claims(claims) => Decoded::Claims(pick_claims(&claims)),
        Opened::Expired => Decoded::Expired,
        Opened::Rejected => Decoded::Rejected,
    }
}

/// The text of the token of kind `kind` for `user` that expires at the
/// second `expires`, under `secret`: the claims `sub` and `kind` as
/// strings and the claim `exp` as a number.
pub open spec fn token_text(secret: Seq<char>, kind: TokenKind, user: Uuid, expires: u64) -> Seq<
    char,
> {
    jwt_text(
        secret,
        seq![("sub"@, text_of_id(user)), ("kind"@, kind.spec_name())],
        seq![("exp"@, expires)],
    )
}

impl TokenKind {
    /// The word that stands for this kind in a token.
    pub open spec fn spec_name(self) -> Seq<char> {
        match self {
            TokenKind::Session => "session"@,
            TokenKind::Invitation => "invitation"@,
        }
    }

    /// The kind that `name` stands for, if any.
    pub open spec fn spec_from_name(name: Seq<char>) -> Option<TokenKind> {
        if name == "session"@ {
            Some(TokenKind::Session)
        } else if name == "invitation"@ {
            Some(TokenKind::Invitation)
        } else {
            None
        }
    }

    /// The word that stands for this kind in a token.
    pub fn name(self) -> (r: &'static str)
        ensures
            r@ == self.spec_name(),
    {
        match self {
            TokenKind::Session => "session",
            TokenKind::Invitation => "invitation",
        }
    }

    /// The kind that `name` stands for, if any.
    pub fn from_name(name: &String) -> (r: Option<TokenKind>)
        ensures
            r == Self::spec_from_name(name@),
    {
        if *name == String::from_str("session") {
            Some(TokenKind::Session)
        } else if *name == String::from_str("invitation") {
            Some(TokenKind::Invitation)
        } else {
            None
        }
    }

    /// Every kind is read back from its own name.
    pub proof fn lemma_name_round_trip(self)
        ensures
            Self::spec_from_name(self.spec_name()) == Some(self),
    {
        reveal_strlit("session");
        reveal_strlit("invitation");
        assert("session"@.len() != "invitation"@.len());
    }
}

/// The claims that `raw` states, if all three are present and well formed.
pub open spec fn claims_of(raw: RawClaims) -> Option<Claims> {
    match (raw.sub, raw.kind, raw.exp) {
        (Some(sub), Some(kind), Some(expires)) => match (
            id_of_text(sub@),
            TokenKind::spec_from_name(kind@),
        ) {
            (Some(user), Some(kind)) => Some(Claims { kind, user, expires }),
            _ => None,
        },
        _ => None,
    }
}

/// What a token is worth to a caller who expects one of kind `expected`.
pub open spec fn verdict(decoded: Decoded, expected: TokenKind) -> Result<Claims, TokenError> {
    match decoded {
        Decoded::Expired => Err(TokenError::Expired),
        Decoded::Rejected => Err(TokenError::Invalid),
        Decoded::Claims(raw) => match claims_of(raw) {
            None => Err(TokenError::Invalid),
            Some(claims) => if claims.kind == expected {
                Ok(claims)
            } else {
                Err(TokenError::WrongKind)
            },
        },
    }
}

/// Interprets the claims of a token whose signature and expiry hold.
pub fn read_claims(raw: &RawClaims) -> (r: Option<Claims>)
    ensures
        r == claims_of(*raw),
{
    match (&raw.sub, &raw.kind, raw.exp) {
        (Some(sub), Some(kind), Some(expires)) => match (
            parse_id(sub.as_str()),
            TokenKind::from_name(kind),
        ) {
            (Some(user), Some(kind)) => Some(Claims { kind, user, expires }),
            _ => None,
        },
        _ => None,
    }
}

/// Decides what a decoded token is worth to a caller who expects one of
/// kind `expected`.
pub fn judge(decoded: &Decoded, expected: TokenKind) -> (r: Result<Claims, TokenError>)
    ensures
        r == verdict(*decoded, expected),
{
    match decoded {
        Decoded::Expired => Err(TokenError::Expired),
        Decoded::Rejected => Err(TokenError::Invalid),
        Decoded::Claims(raw) => match read_claims(raw) {
            None => Err(TokenError::Invalid),
            Some(claims) => if claims.kind == expected {
                Ok(claims)
            } else {
                Err(TokenError::WrongKind)
            },
        },
    }
}

/// The credential service: issues and checks tokens under one secret.
pub struct Auth {
    secret: String,
}

impl Auth {
    /// The secret that tokens are signed with.
    pub closed spec fn secret(&self) -> Seq<char> {
        self.secret@
    }

    /// A service that signs with `secret`.
    pub fn new(secret: &str) -> (auth: Auth)
        ensures
            auth.secret() == secret@,
    {
        Auth { secret: String::from_str(secret) }
    }

    /// Issues a token of the given kind for `user` that expires at the
    /// second `expires`. The token is always there.
    pub fn issue(&self, kind: TokenKind, user: Uuid, expires: u64) -> (r: Option<String>)
        ensures
            r matches Some(token) && token@ == token_text(self.secret(), kind, user, expires),
    {
        let mut texts: Vec<(String, String)> = Vec::new();
        texts.push((String::from_str("sub"), id_text(user)));
        texts.push((String::from_str("kind"), String::from_str(kind.name())));
        let mut numbers: Vec<(String, u64)> = Vec::new();
        numbers.push((String::from_str("exp"), expires));
        assert(text_claims(texts@) =~= seq![
            ("sub"@, text_of_id(user)),
            ("kind"@, kind.spec_name()),
        ]);
        assert(number_claims(numbers@) =~= seq![("exp"@, expires)]);
        jwt_encode(self.secret.as_str(), &texts, &numbers)
    }

    /// Checks the signature and the expiry of `token`, which depends on
    /// the time, and picks the claims of what the check returned.
    pub fn decode_jwt(&self, token: &str) -> (r: Decoded)
        ensures
            exists|opened: Opened| r == #[trigger] decoded_of(opened),
    {
        let opened = jwt_decode(self.secret.as_str(), token);
        interpret(opened)
    }

    /// Checks `token` as one of kind `expected`: signature, expiry and kind.
    /// The token is decoded, which depends on the time, and the result is
    /// the verdict on what it decoded to. So whatever the token, claims
    /// that are returned are of that kind.
    pub fn check(&self, token: &str, expected: TokenKind) -> (r: Result<Claims, TokenError>)
        ensures
            exists|decoded: Decoded| r == #[trigger] verdict(decoded, expected),
            r matches Ok(claims) ==> claims.kind == expected,
    {
        let decoded = self.decode_jwt(token);
        judge(&decoded, expected)
    }
}

} // verus!
