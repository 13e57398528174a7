use crate::domain::email::Email;
use crate::utils::constants::{JWT_COOKIE_NAME, TOKEN_TTL_SECONDS};
use chrono::Utc;
use jsonwebtoken::{decode, encode, DecodingKey, EncodingKey, Header, Validation};
use serde_json::Value;
use vstd::prelude::*;

verus! {

/// What a [`Claims`] is, as plain values.
pub struct ClaimsView {
    pub sub: Seq<char>,
    pub exp: usize,
}

/// What a token says: whom it was made for, and the second after which it
/// is no longer good.
#[derive(Debug)]
pub struct Claims {
    pub sub: String,
    pub exp: usize,
}

impl View for Claims {
    type V = ClaimsView;

    open spec fn view(&self) -> ClaimsView {
        ClaimsView { sub: self.sub@, exp: self.exp }
    }
}

/// Why a token was refused.
#[derive(Debug, Clone, Copy, PartialEq, Eq, Structural)]
pub enum JwtError {
    /// The token was not signed with our key, or does not say what a
    /// token of ours says.
    InvalidToken,
    /// The token is one of ours, and has run out.
    ExpiredSignature,
}

/// The name of the claim that tells whom a token was made for.
pub const SUBJECT_CLAIM: &'static str = "sub";

/// The name of the claim that tells when a token runs out.
pub const EXPIRY_CLAIM: &'static str = "exp";

/// The token that `jsonwebtoken::encode` makes for the claims
/// [`SUBJECT_CLAIM`] and [`EXPIRY_CLAIM`] with the values `sub` and `exp`,
/// signed with `secret` under the default header.
pub uninterp spec fn jwt_signed(secret: Seq<char>, sub: Seq<char>, exp: u64) -> Seq<char>;

/// The values of the claims [`SUBJECT_CLAIM`] and [`EXPIRY_CLAIM`] that
/// `jsonwebtoken::decode` reads from `token` when it checks the signature
/// against `secret` and does not look at the clock; `None` where it
/// refuses the token, or one of the two is missing or of another kind.
pub uninterp spec fn jwt_claims(secret: Seq<char>, token: Seq<char>) -> Option<(Seq<char>, u64)>;

/// What is signed reads back: the token made for `sub` and `exp` carries
/// these two claims for whoever holds the secret.
pub open spec fn reads_back(secret: Seq<char>, sub: Seq<char>, exp: u64) -> bool {
    jwt_claims(secret, jwt_signed(secret, sub, exp)) == Some((sub, exp))
}

/// Signs two claims with `jsonwebtoken::encode`, under
/// `Header::default()` and the key `EncodingKey::from_secret` makes of
/// `secret`: the text `sub` under the name `subject_claim`, the number
/// `exp` under the name `expiry_claim`.
///
/// A token comes out for every input: the key is of the family of the
/// header's algorithm, a header and two claims of these kinds are always
/// written, and signing with a secret cannot fail. It is made of three
/// parts with a dot between them, so it is not empty.
///
/// The token that comes out is read back by `decode` with the same
/// secret as the same two claims: the header names the one algorithm
/// `decode` admits by default, the signature is the one it computes, and
/// the payload is the claims as they were written.
#[verifier::external_body]
fn sign_claims(
    secret: &str,
    subject_claim: &str,
    sub: &str,
    expiry_claim: &str,
    exp: u64,
) -> (signed: Option<String>)
    requires
        subject_claim@ == SUBJECT_CLAIM@,
        expiry_claim@ == EXPIRY_CLAIM@,
    ensures
        signed is Some,
        signed matches Some(token) ==> token@ == jwt_signed(secret@, sub@, exp) && token@.len()
            > 0,
        signed matches Some(token) ==> jwt_claims(secret@, token@) == Some((sub@, exp)),
{
    let mut claims = serde_json::Map::new();
    claims.insert(subject_claim.to_owned(), Value::from(sub));
    claims.insert(expiry_claim.to_owned(), Value::from(exp));
    encode(&Header::default(), &claims, &EncodingKey::from_secret(secret.as_bytes())).ok()
}

/// Reads `token` with `jsonwebtoken::decode`, under `Validation::default()`
/// with the check of the expiry switched off, and the key
/// `DecodingKey::from_secret` makes of `secret`. With that check off,
/// `decode` does not read the clock. The text under the name
/// `subject_claim` and the whole number under the name `expiry_claim` are
/// picked from what was read; a token without them is refused like one
/// with a wrong signature.
#[verifier::external_body]
fn read_claims(secret: &str, token: &str, subject_claim: &str, expiry_claim: &str) -> (read: Option<
    (String, u64),
>)
    requires
        subject_claim@ == SUBJECT_CLAIM@,
        expiry_claim@ == EXPIRY_CLAIM@,
    ensures
        read is Some <==> jwt_claims(secret@, token@) is Some,
        read matches Some(claims) ==> jwt_claims(secret@, token@) == Some((claims.0@, claims.1)),
{
    let mut checks = Validation::default();
    checks.validate_exp = false;
    let key = DecodingKey::from_secret(secret.as_bytes());
    let claims = decode::<Value>(token, &key, &checks).ok()?.claims;
    let sub = claims.get(subject_claim)?.as_str()?.to_owned();
    let exp = claims.get(expiry_claim)?.as_u64()?;
    Some((sub, exp))
}

/// The time by `chrono::Utc::now`, in seconds since the epoch, as
/// `DateTime::timestamp` gives it. `Utc::now` measures the time from the
/// epoch on, so the second is not before it; nothing else is known of it
/// beforehand.
#[verifier::external_body]
pub(crate) fn unix_now() -> (now: i64)
    ensures
        0 <= now,
{
    Utc::now().timestamp()
}

/// The second at which a token made at `now` runs out, where it can be
/// written down.
pub open spec fn expiry_model(now: i64) -> Result<usize, Seq<char>> {
    if now + TOKEN_TTL_SECONDS > i64::MAX {
        Err("Date is out of range"@)
    } else if now + TOKEN_TTL_SECONDS < 0 || now + TOKEN_TTL_SECONDS > usize::MAX {
        Err("Unable to convert expiration type"@)
    } else {
        Ok((now + TOKEN_TTL_SECONDS) as usize)
    }
}

/// The token for `sub` that is made at `now`, or why none is made: one
/// is made wherever its expiry can be written down.
pub open spec fn mint_model(secret: Seq<char>, sub: Seq<char>, now: i64) -> Result<
    Seq<char>,
    Seq<char>,
> {
    match expiry_model(now) {
        Err(why) => Err(why),
        Ok(exp) => Ok(jwt_signed(secret, sub, exp as u64)),
    }
}

/// What `token` is worth at `now`: its claims, if it is one of ours and
/// its expiry has not passed.
pub open spec fn validate_model(secret: Seq<char>, token: Seq<char>, now: i64) -> Result<
    ClaimsView,
    JwtError,
> {
    match jwt_claims(secret, token) {
        None => Err(JwtError::InvalidToken),
        Some((sub, exp)) => if exp > usize::MAX {
            Err(JwtError::InvalidToken)
        } else if exp < now {
            Err(JwtError::ExpiredSignature)
        } else {
            Ok(ClaimsView { sub, exp: exp as usize })
        },
    }
}

/// An answer that holds claims, as plain values.
pub open spec fn claims_answer_view(answer: Result<Claims, JwtError>) -> Result<
    ClaimsView,
    JwtError,
> {
    match answer {
        Ok(claims) => Ok(claims@),
        Err(refusal) => Err(refusal),
    }
}

/// An answer that holds a text, as plain values.
pub open spec fn text_answer_view(answer: Result<String, String>) -> Result<Seq<char>, Seq<char>> {
    match answer {
        Ok(text) => Ok(text@),
        Err(why) => Err(why@),
    }
}

/// The signed token for `claim`.
pub fn create_token(claim: Claims, secret: &str) -> (made: Result<String, String>)
    ensures
        reads_back(secret@, claim@.sub, claim@.exp as u64),
        made is Ok && made->Ok_0@ == jwt_signed(secret@, claim@.sub, claim@.exp as u64),
        made matches Ok(token) ==> token@.len() > 0,
{
    let exp: u64 = claim.exp as u64;
    match sign_claims(secret, SUBJECT_CLAIM, claim.sub.as_str(), EXPIRY_CLAIM, exp) {
        Some(token) => Ok(token),
        None => Err(String::from_str("Fail to generate Json Web Token")),
    }
}

/// The second at which a token made at `now` runs out.
pub fn expiry_at(now: i64) -> (exp: Result<usize, String>)
    ensures
        match expiry_model(now) {
            Ok(at) => exp == Ok::<usize, String>(at),
            Err(why) => exp is Err && exp->Err_0@ == why,
        },
{
    let exp: i64 = match now.checked_add(TOKEN_TTL_SECONDS) {
        Some(exp) => exp,
        None => {
            return Err(String::from_str("Date is out of range"));
        },
    };
    if exp < 0 || exp as u64 > usize::MAX as u64 {
        return Err(String::from_str("Unable to convert expiration type"));
    }
    Ok(exp as usize)
}

/// The token for `email` that is made at the second `now`: it runs out
/// [`TOKEN_TTL_SECONDS`] later, and until then it is good and tells
/// `email` as its subject.
pub fn generate_auth_token_at(email: &Email, secret: &str, now: i64) -> (minted: Result<
    String,
    String,
>)
    ensures
        text_answer_view(minted) == mint_model(secret@, email@, now),
        minted matches Ok(token) ==> token@.len() > 0,
        minted matches Ok(token) ==> jwt_claims(secret@, token@) == Some(
            (email@, (now + TOKEN_TTL_SECONDS) as u64),
        ),
        minted matches Ok(token) ==> forall|at: i64|
            at <= now + TOKEN_TTL_SECONDS ==> #[trigger] validate_model(secret@, token@, at)
                == Ok::<ClaimsView, JwtError>(
                ClaimsView { sub: email@, exp: (now + TOKEN_TTL_SECONDS) as usize },
            ),
{
    let exp: usize = match expiry_at(now) {
        Ok(exp) => exp,
        Err(why) => {
            return Err(why);
        },
    };
    let sub = email.as_str().to_owned();
    let claims = Claims { sub, exp };
    create_token(claims, secret)
}

/// The token for `email` that is made now.
pub fn generate_auth_token(email: &Email, secret: &str) -> (minted: Result<String, String>)
    ensures
        exists|now: i64| 0 <= now && text_answer_view(minted) == mint_model(secret@, email@, now),
        minted matches Ok(token) ==> exists|exp: u64| jwt_claims(secret@, token@) == Some(
            (email@, exp),
        ),
{
    let now: i64 = unix_now();
    let minted = generate_auth_token_at(email, secret, now);
    assert(text_answer_view(minted) == mint_model(secret@, email@, now));
    minted
}

/// What `token` is worth at the second `now`.
pub fn validate_token_at(token: &str, secret: &str, now: i64) -> (checked: Result<
    Claims,
    JwtError,
>)
    ensures
        claims_answer_view(checked) == validate_model(secret@, token@, now),
{
    let (sub, exp): (String, u64) = match read_claims(secret, token, SUBJECT_CLAIM, EXPIRY_CLAIM) {
        Some(claims) => claims,
        None => {
            return Err(JwtError::InvalidToken);
        },
    };
    if exp > usize::MAX as u64 {
        return Err(JwtError::InvalidToken);
    }
    if now >= 0 && exp < now as u64 {
        return Err(JwtError::ExpiredSignature);
    }
    Ok(Claims { sub, exp: exp as usize })
}

/// What `token` says, if it is one of ours, whether or not it has run
/// out.
pub fn read_token(token: &str, secret: &str) -> (read: Option<Claims>)
    ensures
        match jwt_claims(secret@, token@) {
            Some((sub, exp)) => if exp > usize::MAX {
                read is None
            } else {
                read is Some && read->Some_0@ == (ClaimsView { sub, exp: exp as usize })
            },
            None => read is None,
        },
{
    match read_claims(secret, token, SUBJECT_CLAIM, EXPIRY_CLAIM) {
        Some((sub, exp)) => {
            if exp > usize::MAX as u64 {
                None
            } else {
                Some(Claims { sub, exp: exp as usize })
            }
        },
        None => None,
    }
}

/// What `token` is worth now.
pub fn validate_token(token: &str, secret: &str) -> (checked: Result<Claims, JwtError>)
    ensures
        exists|now: i64|
            0 <= now && claims_answer_view(checked) == validate_model(secret@, token@, now),
        checked matches Ok(claims) ==> jwt_claims(secret@, token@) == Some(
            (claims@.sub, claims@.exp as u64),
        ),
{
    let now: i64 = unix_now();
    let checked = validate_token_at(token, secret, now);
    assert(claims_answer_view(checked) == validate_model(secret@, token@, now));
    checked
}

/// Which requests from other sites a cookie goes out with.
#[derive(Debug, Clone, Copy, PartialEq, Eq, Structural)]
pub enum SameSite {
    /// Never from another site.
    Strict,
    /// From another site only when the user follows a link.
    Lax,
    /// From any site.
    Unrestricted,
}

/// What an [`AuthCookie`] is, as plain values.
pub struct AuthCookieView {
    pub name: Seq<char>,
    pub value: Seq<char>,
    pub path: Seq<char>,
    pub http_only: bool,
    pub same_site: SameSite,
}

/// The cookie that carries a token to the client and back.
#[derive(Debug)]
pub struct AuthCookie {
    name: String,
    value: String,
    path: String,
    http_only: bool,
    same_site: SameSite,
}

impl View for AuthCookie {
    type V = AuthCookieView;

    closed spec fn view(&self) -> AuthCookieView {
        AuthCookieView {
            name: self.name@,
            value: self.value@,
            path: self.path@,
            http_only: self.http_only,
            same_site: self.same_site,
        }
    }
}

impl AuthCookie {
    /// The cookie's name.
    pub fn name(&self) -> (name: &str)
        ensures
            name@ == self@.name,
    {
        self.name.as_str()
    }

    /// The token the cookie carries.
    pub fn value(&self) -> (value: &str)
        ensures
            value@ == self@.value,
    {
        self.value.as_str()
    }

    /// The paths the cookie is sent to.
    pub fn path(&self) -> (path: Option<&str>)
        ensures
            path is Some && path->Some_0@ == self@.path,
    {
        Some(self.path.as_str())
    }

    /// Whether the cookie is kept from scripts.
    pub fn http_only(&self) -> (kept: Option<bool>)
        ensures
            kept == Some(self@.http_only),
    {
        Some(self.http_only)
    }

    /// Which requests from other sites the cookie goes out with.
    pub fn same_site(&self) -> (policy: Option<SameSite>)
        ensures
            policy == Some(self@.same_site),
    {
        Some(self.same_site)
    }
}

/// The cookie for `token`: named [`JWT_COOKIE_NAME`], sent to every path
/// of the server, kept from scripts, and sent along from other sites only
/// when the user follows a link.
pub open spec fn auth_cookie_model(token: Seq<char>) -> AuthCookieView {
    AuthCookieView {
        name: JWT_COOKIE_NAME@,
        value: token,
        path: "/"@,
        http_only: true,
        same_site: SameSite::Lax,
    }
}

/// The cookie that carries `token`.
pub fn create_auth_cookie(token: String) -> (cookie: AuthCookie)
    ensures
        cookie@ == auth_cookie_model(token@),
{
    AuthCookie {
        name: String::from_str(JWT_COOKIE_NAME),
        value: token,
        path: String::from_str("/"),
        http_only: true,
        same_site: SameSite::Lax,
    }
}

/// The cookie with the token for `email` that is made at the second
/// `now`, or why none is made.
pub open spec fn cookie_model(secret: Seq<char>, email: Seq<char>, now: i64) -> Result<
    AuthCookieView,
    Seq<char>,
> {
    match mint_model(secret, email, now) {
        Ok(token) => Ok(auth_cookie_model(token)),
        Err(why) => Err(why),
    }
}

/// An answer that holds a cookie, as plain values.
pub open spec fn cookie_answer_view(answer: Result<AuthCookie, String>) -> Result<
    AuthCookieView,
    Seq<char>,
> {
    match answer {
        Ok(cookie) => Ok(cookie@),
        Err(why) => Err(why@),
    }
}

/// The cookie with the token for `email` that is made at the second `now`.
pub fn generate_auth_cookie_at(email: &Email, secret: &str, now: i64) -> (made: Result<
    AuthCookie,
    String,
>)
    ensures
        match mint_model(secret@, email@, now) {
            Ok(token) => made is Ok && made->Ok_0@ == auth_cookie_model(token),
            Err(why) => made is Err && made->Err_0@ == why,
        },
        made matches Ok(cookie) ==> cookie@.value.len() > 0,
        made matches Ok(cookie) ==> jwt_claims(secret@, cookie@.value) == Some(
            (email@, (now + TOKEN_TTL_SECONDS) as u64),
        ),
{
    match generate_auth_token_at(email, secret, now) {
        Ok(token) => Ok(create_auth_cookie(token)),
        Err(why) => Err(why),
    }
}

/// The cookie with the token for `email` that is made now: whatever
/// second the clock gives, the cookie is the one for that second, and
/// where no token can be made for that second the reason is handed on.
pub fn generate_auth_cookie(email: &Email, secret: &str) -> (made: Result<AuthCookie, String>)
    ensures
        exists|now: i64| 0 <= now && cookie_answer_view(made) == cookie_model(secret@, email@, now),
        made matches Ok(cookie) ==> cookie@ == auth_cookie_model(cookie@.value),
        made matches Ok(cookie) ==> exists|exp: u64|
            jwt_claims(secret@, cookie@.value) == Some((email@, exp)),
{
    let now: i64 = unix_now();
    let made = generate_auth_cookie_at(email, secret, now);
    proof {
        if made is Ok {
            let cookie = made->Ok_0;
            assert(cookie@ == auth_cookie_model(cookie@.value));
        }
        assert(cookie_answer_view(made) == cookie_model(secret@, email@, now));
    }
    made
}

} // verus!
