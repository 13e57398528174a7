use crate::domain::data_store::{redeem, redeem_model, TwoFACodeStore, TwoFARecordView};
use crate::domain::email::{is_valid_email, Email};
use crate::domain::error::{AuthAPIError, AuthAPIErrorView};
use crate::domain::login_attempt_id::{canonical_uuid_text, LoginAttemptId};
use crate::domain::two_fa_code::{is_valid_code, TwoFACode};
use crate::domain::user::UserView;
use crate::routes::login::{login_model, pending_reply, LoginReplyView, STATUS_OK};
use crate::utils::auth::{
    auth_cookie_model, generate_auth_cookie_at, jwt_claims, mint_model, unix_now, AuthCookie,
    AuthCookieView,
};
use crate::utils::constants::TOKEN_TTL_SECONDS;
use vstd::prelude::*;

verus! {

/// What a second factor is presented with: the address, the attempt that
/// was handed out at login, and the code that was sent.
pub struct VerifyToken {
    email: String,
    id: String,
    code: String,
}

impl VerifyToken {
    /// A request to close the challenge of `email` with `id` and `code`.
    pub fn new(email: String, id: String, code: String) -> (request: VerifyToken)
        ensures
            request.email_text() == email@,
            request.id_text() == id@,
            request.code_text() == code@,
    {
        VerifyToken { email, id, code }
    }

    /// The address the request names.
    pub closed spec fn email_text(&self) -> Seq<char> {
        self.email@
    }

    /// The attempt the request quotes.
    pub closed spec fn id_text(&self) -> Seq<char> {
        self.id@
    }

    /// The code the request presents.
    pub closed spec fn code_text(&self) -> Seq<char> {
        self.code@
    }
}

/// An answer to a second factor, as plain values.
pub open spec fn verify_2fa_answer_view(answer: Result<(AuthCookie, u16), AuthAPIError>) -> Result<
    (AuthCookieView, u16),
    AuthAPIErrorView,
> {
    match answer {
        Ok(reply) => Ok((reply.0@, reply.1)),
        Err(refusal) => Err(refusal@),
    }
}

/// What presenting a second factor does when nothing is in its way, at
/// the second `now`.
///
/// Malformed values are refused by name. Where no challenge is open for
/// the address the refusal is the one for wrong credentials. A wrong
/// attempt and a wrong code are refused alike, and leave the challenge
/// open. The right pair closes the challenge and gets the token.
pub open spec fn verify_2fa_model(
    challenges: Map<Seq<char>, TwoFARecordView>,
    secret: Seq<char>,
    email: Seq<char>,
    id: Seq<char>,
    code: Seq<char>,
    now: i64,
) -> (Map<Seq<char>, TwoFARecordView>, Result<(AuthCookieView, u16), AuthAPIErrorView>) {
    if !is_valid_email(email) {
        (challenges, Err(AuthAPIErrorView::InvalidData("Email"@)))
    } else if canonical_uuid_text(id) is None {
        (challenges, Err(AuthAPIErrorView::InvalidData("Login ID"@)))
    } else if !is_valid_code(code) {
        (challenges, Err(AuthAPIErrorView::InvalidData("2FA Code"@)))
    } else {
        let attempt = canonical_uuid_text(id)->Some_0;
        let (left, redeemed) = redeem_model(challenges, email, attempt, code);
        match redeemed {
            Err(refusal) => if refusal is Mismatch {
                (left, Err(AuthAPIErrorView::MismatchIdentification))
            } else {
                (left, Err(AuthAPIErrorView::IncorrectCredentials))
            },
            Ok(_) => match mint_model(secret, email, now) {
                Ok(token) => (left, Ok((auth_cookie_model(token), STATUS_OK))),
                Err(why) => (left, Err(AuthAPIErrorView::UnexpectedError(why))),
            },
        }
    }
}

/// A second factor that is wrong in either half is refused as a mismatch,
/// not in two different ways: the attempt that was handed out with a
/// wrong code, and another attempt with the code that was sent.
pub proof fn lemma_wrong_half_is_refused_alike(
    challenges: Map<Seq<char>, TwoFARecordView>,
    secret: Seq<char>,
    email: Seq<char>,
    id: Seq<char>,
    code: Seq<char>,
    wrong_id: Seq<char>,
    wrong_code: Seq<char>,
    now: i64,
)
    requires
        is_valid_email(email),
        canonical_uuid_text(id) == Some(id),
        canonical_uuid_text(wrong_id) == Some(wrong_id),
        is_valid_code(code),
        is_valid_code(wrong_code),
        challenges.contains_key(email),
        challenges[email] == (TwoFARecordView { id, code }),
        wrong_id != id,
        wrong_code != code,
    ensures
        verify_2fa_model(challenges, secret, email, id, wrong_code, now) == (
            challenges,
            Err::<(AuthCookieView, u16), AuthAPIErrorView>(
                AuthAPIErrorView::MismatchIdentification,
            ),
        ),
        verify_2fa_model(challenges, secret, email, wrong_id, code, now) == (
            challenges,
            Err::<(AuthCookieView, u16), AuthAPIErrorView>(
                AuthAPIErrorView::MismatchIdentification,
            ),
        ),
{
}

/// A second factor is good once: presented again after it went through,
/// the same pair finds no challenge, and is refused like wrong
/// credentials.
pub proof fn lemma_second_factor_is_good_once(
    challenges: Map<Seq<char>, TwoFARecordView>,
    secret: Seq<char>,
    email: Seq<char>,
    id: Seq<char>,
    code: Seq<char>,
    now: i64,
    later: i64,
)
    requires
        is_valid_email(email),
        canonical_uuid_text(id) == Some(id),
        is_valid_code(code),
        challenges.contains_key(email),
        challenges[email] == (TwoFARecordView { id, code }),
    ensures
        ({
            let first = verify_2fa_model(challenges, secret, email, id, code, now);
            &&& first.0 == challenges.remove(email)
            &&& first.1 is Ok <==> mint_model(secret, email, now) is Ok
            &&& verify_2fa_model(first.0, secret, email, id, code, later).1 == Err::<
                (AuthCookieView, u16),
                AuthAPIErrorView,
            >(AuthAPIErrorView::IncorrectCredentials)
        }),
{
}

/// The challenge that a login opened is closed by the attempt that the
/// login handed out and the code that was drawn with it, and that gets
/// the token, as far as one can be made.
pub proof fn lemma_challenge_from_login_redeems(
    users: Map<Seq<char>, UserView>,
    challenges: Map<Seq<char>, TwoFARecordView>,
    secret: Seq<char>,
    email: Seq<char>,
    password: Seq<char>,
    now: i64,
    id: Seq<char>,
    code: Seq<char>,
    later: i64,
)
    requires
        canonical_uuid_text(id) == Some(id),
        is_valid_code(code),
        login_model(users, challenges, secret, email, password, now, id, code).1 == Ok::<
            LoginReplyView,
            AuthAPIErrorView,
        >(pending_reply(id)),
    ensures
        ({
            let open = login_model(users, challenges, secret, email, password, now, id, code).0;
            let closed = verify_2fa_model(open, secret, email, id, code, later);
            &&& !closed.0.contains_key(email)
            &&& match mint_model(secret, email, later) {
                Ok(token) => closed.1 == Ok::<(AuthCookieView, u16), AuthAPIErrorView>(
                    (auth_cookie_model(token), STATUS_OK),
                ),
                Err(why) => closed.1 == Err::<(AuthCookieView, u16), AuthAPIErrorView>(
                    AuthAPIErrorView::UnexpectedError(why),
                ),
            }
        }),
{
}

/// No token without the second factor: where a second factor gets a
/// token, the challenge that was open for the address held the attempt
/// and the code that were presented.
pub proof fn lemma_token_needs_the_open_challenge(
    challenges: Map<Seq<char>, TwoFARecordView>,
    secret: Seq<char>,
    email: Seq<char>,
    id: Seq<char>,
    code: Seq<char>,
    now: i64,
)
    requires
        verify_2fa_model(challenges, secret, email, id, code, now).1 is Ok,
    ensures
        challenges.contains_key(email),
        canonical_uuid_text(id) is Some,
        challenges[email] == (TwoFARecordView { id: canonical_uuid_text(id)->Some_0, code }),
{
}

/// Presents a second factor at the second `now`. No token is made unless
/// the challenge that is open for the address holds the attempt and the
/// code that are presented; the challenge is then closed, so that the
/// same pair is good once.
pub fn verify_2fa_at<C: TwoFACodeStore + ?Sized>(
    codes: &mut C,
    secret: &str,
    input: VerifyToken,
    now: i64,
) -> (answer: Result<(AuthCookie, u16), AuthAPIError>)
    ensures
        final(codes).dependable() == old(codes).dependable(),
        answer matches Ok(reply) ==> is_valid_email(input.email_text()) && is_valid_code(
            input.code_text(),
        ) && canonical_uuid_text(input.id_text()) is Some && reply.1 == STATUS_OK && jwt_claims(
            secret@,
            reply.0@.value,
        ) == Some((input.email_text(), (now + TOKEN_TTL_SECONDS) as u64)),
        !is_valid_email(input.email_text()) ==> answer is Err && answer->Err_0@
            == AuthAPIErrorView::InvalidData("Email"@) && final(codes)@ == old(codes)@,
        is_valid_email(input.email_text()) && canonical_uuid_text(input.id_text()) is None
            ==> answer is Err && answer->Err_0@ == AuthAPIErrorView::InvalidData("Login ID"@)
            && final(codes)@ == old(codes)@,
        is_valid_email(input.email_text()) && canonical_uuid_text(input.id_text()) is Some
            && !is_valid_code(input.code_text()) ==> answer is Err && answer->Err_0@
            == AuthAPIErrorView::InvalidData("2FA Code"@) && final(codes)@ == old(codes)@,
        is_valid_email(input.email_text()) && canonical_uuid_text(input.id_text()) is Some
            && is_valid_code(input.code_text()) ==> (answer matches Err(refusal)
            ==> refusal is IncorrectCredentials || refusal is MismatchIdentification
            || refusal is UnexpectedError),
        old(codes).dependable() ==> (final(codes)@, verify_2fa_answer_view(answer))
            == verify_2fa_model(
            old(codes)@,
            secret@,
            input.email_text(),
            input.id_text(),
            input.code_text(),
            now,
        ),
{
    let email = match Email::parse(input.email) {
        Ok(email) => email,
        Err(_) => {
            return Err(AuthAPIError::InvalidData(String::from_str("Email")));
        },
    };
    let id = match LoginAttemptId::parse(input.id) {
        Ok(id) => id,
        Err(_) => {
            return Err(AuthAPIError::InvalidData(String::from_str("Login ID")));
        },
    };
    let code = match TwoFACode::parse(input.code) {
        Ok(code) => code,
        Err(_) => {
            return Err(AuthAPIError::InvalidData(String::from_str("2FA Code")));
        },
    };
    if let Err(refusal) = redeem(codes, &email, &id, &code) {
        return match refusal {
            crate::domain::data_store::TwoFACodeStoreError::Mismatch => Err(
                AuthAPIError::MismatchIdentification,
            ),
            _ => Err(AuthAPIError::IncorrectCredentials),
        };
    }
    match generate_auth_cookie_at(&email, secret, now) {
        Ok(cookie) => Ok((cookie, STATUS_OK)),
        Err(why) => Err(AuthAPIError::UnexpectedError(why)),
    }
}

/// Presents a second factor, now.
pub fn verify_2fa<C: TwoFACodeStore + ?Sized>(
    codes: &mut C,
    secret: &str,
    input: VerifyToken,
) -> (answer: Result<(AuthCookie, u16), AuthAPIError>)
    ensures
        final(codes).dependable() == old(codes).dependable(),
        answer matches Ok(reply) ==> is_valid_email(input.email_text()) && is_valid_code(
            input.code_text(),
        ) && canonical_uuid_text(input.id_text()) is Some && reply.1 == STATUS_OK,
        !is_valid_email(input.email_text()) ==> answer is Err && answer->Err_0@
            == AuthAPIErrorView::InvalidData("Email"@) && final(codes)@ == old(codes)@,
        is_valid_email(input.email_text()) && canonical_uuid_text(input.id_text()) is None
            ==> answer is Err && answer->Err_0@ == AuthAPIErrorView::InvalidData("Login ID"@)
            && final(codes)@ == old(codes)@,
        is_valid_email(input.email_text()) && canonical_uuid_text(input.id_text()) is Some
            && !is_valid_code(input.code_text()) ==> answer is Err && answer->Err_0@
            == AuthAPIErrorView::InvalidData("2FA Code"@) && final(codes)@ == old(codes)@,
        is_valid_email(input.email_text()) && canonical_uuid_text(input.id_text()) is Some
            && is_valid_code(input.code_text()) ==> (answer matches Err(refusal)
            ==> refusal is IncorrectCredentials || refusal is MismatchIdentification
            || refusal is UnexpectedError),
        answer matches Ok(reply) ==> exists|exp: u64|
            jwt_claims(secret@, reply.0@.value) == Some((input.email_text(), exp)),
        old(codes).dependable() ==> exists|now: i64|
            0 <= now && (final(codes)@, verify_2fa_answer_view(answer))
                == #[trigger] verify_2fa_model(
                old(codes)@,
                secret@,
                input.email_text(),
                input.id_text(),
                input.code_text(),
                now,
            ),
{
    let now: i64 = unix_now();
    let ghost email_text = input.email_text();
    let ghost id_text = input.id_text();
    let ghost code_text = input.code_text();
    let answer = verify_2fa_at(codes, secret, input, now);
    proof {
        if old(codes).dependable() {
            assert((final(codes)@, verify_2fa_answer_view(answer)) == verify_2fa_model(
                old(codes)@,
                secret@,
                email_text,
                id_text,
                code_text,
                now,
            ));
        }
    }
    answer
}

} // verus!
