use crate::domain::data_store::{BannedTokenStore, TwoFARecordView};
use crate::domain::email::is_valid_email;
use crate::domain::error::AuthAPIErrorView;
use crate::domain::password::is_valid_password;
use crate::domain::user::UserView;
use crate::routes::jwt::JWToken;
use crate::routes::login::{logged_in_reply, login_model, LoginReplyView, STATUS_OK};
use crate::utils::auth::{
    expiry_model, jwt_claims, mint_model, reads_back, unix_now, validate_model,
    validate_token_at, Claims, ClaimsView, JwtError,
};
use crate::utils::constants::TOKEN_TTL_SECONDS;
use vstd::prelude::*;

verus! {

/// The status that answers a token that is not accepted.
pub const STATUS_UNAUTHORIZED: u16 = 401;

/// What a [`TokenVerdict`] is, as plain values.
pub enum TokenVerdictView {
    Valid(ClaimsView),
    Revoked,
    Invalid,
}

/// What a token that was presented for checking is found to be.
#[derive(Debug)]
pub enum TokenVerdict {
    /// One of ours, not run out, not revoked: these are its claims.
    Valid(Claims),
    /// Revoked: nothing else was looked at.
    Revoked,
    /// Not one of ours, or run out.
    Invalid,
}

impl View for TokenVerdict {
    type V = TokenVerdictView;

    open spec fn view(&self) -> TokenVerdictView {
        match self {
            TokenVerdict::Valid(claims) => TokenVerdictView::Valid(claims@),
            TokenVerdict::Revoked => TokenVerdictView::Revoked,
            TokenVerdict::Invalid => TokenVerdictView::Invalid,
        }
    }
}

impl TokenVerdict {
    /// The status that goes out with this verdict.
    pub fn status_code(&self) -> (status: u16)
        ensures
            status == if self is Valid {
                STATUS_OK
            } else {
                STATUS_UNAUTHORIZED
            },
    {
        match self {
            TokenVerdict::Valid(_) => STATUS_OK,
            TokenVerdict::Revoked => STATUS_UNAUTHORIZED,
            TokenVerdict::Invalid => STATUS_UNAUTHORIZED,
        }
    }
}

/// What a token is found to be at the second `now`, when nothing is in
/// the way: the ledger is asked first, and a revoked token is turned away
/// whatever it says and however long it would still last.
pub open spec fn verify_token_model(
    banned: Set<Seq<char>>,
    secret: Seq<char>,
    token: Seq<char>,
    now: i64,
) -> TokenVerdictView {
    if banned.contains(token) {
        TokenVerdictView::Revoked
    } else {
        match validate_model(secret, token, now) {
            Ok(claims) => TokenVerdictView::Valid(claims),
            Err(_) => TokenVerdictView::Invalid,
        }
    }
}

/// A token that was made for `email` at the second `now` is found valid,
/// and tells `email` as its subject, at any second until it runs out, by
/// any ledger that does not hold it revoked.
pub proof fn lemma_fresh_token_verifies(
    banned: Set<Seq<char>>,
    secret: Seq<char>,
    token: Seq<char>,
    email: Seq<char>,
    now: i64,
    later: i64,
)
    requires
        expiry_model(now) is Ok,
        jwt_claims(secret, token) == Some((email, (now + TOKEN_TTL_SECONDS) as u64)),
        later <= now + TOKEN_TTL_SECONDS,
        !banned.contains(token),
    ensures
        verify_token_model(banned, secret, token, later) == TokenVerdictView::Valid(
            ClaimsView { sub: email, exp: (now + TOKEN_TTL_SECONDS) as usize },
        ),
{
}

/// A login without a second factor, then a check of its token: for an
/// identity that is on record and needs no second factor, a login with
/// its secret gets a token, unless none can be made; and that token is
/// found valid, with the address as its subject, at any second until it
/// runs out, by any ledger that does not hold it revoked.
pub proof fn lemma_login_then_verify(
    users: Map<Seq<char>, UserView>,
    challenges: Map<Seq<char>, TwoFARecordView>,
    banned: Set<Seq<char>>,
    secret: Seq<char>,
    email: Seq<char>,
    password: Seq<char>,
    now: i64,
    id: Seq<char>,
    code: Seq<char>,
    later: i64,
)
    requires
        is_valid_email(email),
        is_valid_password(password),
        users.contains_key(email),
        users[email].password == password,
        !users[email].requires_2fa,
        later <= now + TOKEN_TTL_SECONDS,
        expiry_model(now) matches Ok(exp) ==> reads_back(secret, email, exp as u64),
        mint_model(secret, email, now) matches Ok(token) ==> !banned.contains(token),
    ensures
        ({
            let (after, answer) = login_model(
                users,
                challenges,
                secret,
                email,
                password,
                now,
                id,
                code,
            );
            &&& after == challenges
            &&& match mint_model(secret, email, now) {
                Ok(token) => answer == Ok::<LoginReplyView, AuthAPIErrorView>(
                    logged_in_reply(token),
                ) && verify_token_model(banned, secret, token, later) == TokenVerdictView::Valid(
                    ClaimsView { sub: email, exp: (now + TOKEN_TTL_SECONDS) as usize },
                ),
                Err(why) => answer == Err::<LoginReplyView, AuthAPIErrorView>(
                    AuthAPIErrorView::UnexpectedError(why),
                ),
            }
        }),
{
}

/// The verdict on a token, once the ledger has answered whether it is
/// revoked and validation has answered what it is worth: a revoked token
/// is turned away whatever it is worth.
pub open spec fn verdict_model(banned: bool, checked: Result<ClaimsView, JwtError>)
    -> TokenVerdictView {
    if banned {
        TokenVerdictView::Revoked
    } else {
        match checked {
            Ok(claims) => TokenVerdictView::Valid(claims),
            Err(_) => TokenVerdictView::Invalid,
        }
    }
}

/// The verdict on a token at the second `now`, once the ledger has
/// answered whether it is revoked. A revoked token is not looked at.
pub fn verdict_from(banned: bool, secret: &str, jwt: &JWToken, now: i64) -> (verdict: TokenVerdict)
    ensures
        verdict@ == verdict_model(banned, validate_model(secret@, jwt.token@, now)),
{
    if banned {
        return TokenVerdict::Revoked;
    }
    match validate_token_at(jwt.token.as_str(), secret, now) {
        Ok(claims) => TokenVerdict::Valid(claims),
        Err(_) => TokenVerdict::Invalid,
    }
}

/// Checks a token at the second `now`: against the ledger first, then
/// for its signature and its expiry. Whatever the ledger, the verdict is
/// the one that follows from its answer.
pub fn verify_token_at<B: BannedTokenStore + ?Sized>(
    ledger: &B,
    secret: &str,
    jwt: &JWToken,
    now: i64,
) -> (verdict: TokenVerdict)
    ensures
        verdict@ == verdict_model(verdict is Revoked, validate_model(secret@, jwt.token@, now)),
        ledger.dependable() ==> verdict@ == verify_token_model(ledger@, secret@, jwt.token@, now),
{
    let banned = ledger.check_token(jwt.token.as_str());
    verdict_from(banned, secret, jwt, now)
}

/// Checks a token, now.
pub fn verify_token<B: BannedTokenStore + ?Sized>(
    ledger: &B,
    secret: &str,
    jwt: &JWToken,
) -> (verdict: TokenVerdict)
    ensures
        exists|now: i64|
            0 <= now && #[trigger] verdict_model(
                verdict is Revoked,
                validate_model(secret@, jwt.token@, now),
            ) == verdict@,
        verdict matches TokenVerdict::Valid(claims) ==> jwt_claims(secret@, jwt.token@) == Some(
            (claims@.sub, claims@.exp as u64),
        ),
        ledger.dependable() && ledger@.contains(jwt.token@) ==> verdict is Revoked,
        ledger.dependable() ==> exists|now: i64|
            0 <= now && verdict@ == #[trigger] verify_token_model(
                ledger@,
                secret@,
                jwt.token@,
                now,
            ),
{
    let now: i64 = unix_now();
    let verdict = verify_token_at(ledger, secret, jwt, now);
    proof {
        assert(verdict_model(verdict is Revoked, validate_model(secret@, jwt.token@, now))
            == verdict@);
        if ledger.dependable() {
            assert(verdict@ == verify_token_model(ledger@, secret@, jwt.token@, now));
        }
    }
    verdict
}

} // verus!
