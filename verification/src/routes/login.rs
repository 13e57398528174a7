use crate::domain::data_store::{
    add_code_model, validate_user_model, TwoFACodeStore, TwoFARecordView, UserStore,
};
use crate::domain::email::{is_valid_email, Email};
use crate::domain::email_client::EmailClient;
use crate::domain::error::{AuthAPIError, AuthAPIErrorView};
use crate::domain::login_attempt_id::{canonical_uuid_text, LoginAttemptId};
use crate::domain::password::{is_valid_password, Password};
use crate::domain::two_fa_code::{is_valid_code, TwoFACode};
use crate::domain::user::{User, UserView};
use crate::utils::auth::{
    auth_cookie_model, generate_auth_cookie_at, jwt_claims, mint_model, unix_now, AuthCookie,
    AuthCookieView,
};
use crate::utils::constants::TOKEN_TTL_SECONDS;
use vstd::prelude::*;

verus! {

/// The status that answers a login that went through.
pub const STATUS_OK: u16 = 200;

/// The status that answers a login that waits for its second factor.
pub const STATUS_PARTIAL_CONTENT: u16 = 206;

/// The subject line of the message that carries a code.
pub const TWO_FA_SUBJECT: &'static str = "Let's Get Rusty 2FA Code";

/// What a login is asked with.
pub struct LoginRequest {
    email: String,
    password: String,
}

impl LoginRequest {
    /// A request to log `email` in with `password`.
    pub fn new(email: String, password: String) -> (request: LoginRequest)
        ensures
            request.email_text() == email@,
            request.password_text() == password@,
    {
        LoginRequest { email, password }
    }

    /// The address the request names.
    pub closed spec fn email_text(&self) -> Seq<char> {
        self.email@
    }

    /// The secret the request presents.
    pub closed spec fn password_text(&self) -> Seq<char> {
        self.password@
    }
}

/// What a [`TwoFactorAuthResponse`] is, as plain values.
pub struct TwoFactorAuthResponseView {
    pub message: Seq<char>,
    pub login_attempt_id: Seq<char>,
}

/// What a login that waits for its second factor is answered with: the
/// attempt to quote when the code is presented. The code itself never
/// goes out this way.
#[derive(Debug)]
pub struct TwoFactorAuthResponse {
    pub message: String,
    pub login_attempt_id: String,
}

impl View for TwoFactorAuthResponse {
    type V = TwoFactorAuthResponseView;

    open spec fn view(&self) -> TwoFactorAuthResponseView {
        TwoFactorAuthResponseView {
            message: self.message@,
            login_attempt_id: self.login_attempt_id@,
        }
    }
}

/// What a [`LoginResponse`] is, as plain values.
pub enum LoginResponseView {
    RegularAuth,
    TwoFactorAuth(TwoFactorAuthResponseView),
}

/// The body that answers a login.
#[derive(Debug)]
pub enum LoginResponse {
    RegularAuth,
    TwoFactorAuth(TwoFactorAuthResponse),
}

impl View for LoginResponse {
    type V = LoginResponseView;

    open spec fn view(&self) -> LoginResponseView {
        match self {
            LoginResponse::RegularAuth => LoginResponseView::RegularAuth,
            LoginResponse::TwoFactorAuth(wait) => LoginResponseView::TwoFactorAuth(wait@),
        }
    }
}

/// What a [`LoginReply`] is, as plain values.
pub struct LoginReplyView {
    pub cookie: Option<AuthCookieView>,
    pub status: u16,
    pub body: LoginResponseView,
}

/// All that answers a login: the cookie to set, if the identity is logged
/// in; the status; the body.
#[derive(Debug)]
pub struct LoginReply {
    pub cookie: Option<AuthCookie>,
    pub status: u16,
    pub body: LoginResponse,
}

impl View for LoginReply {
    type V = LoginReplyView;

    open spec fn view(&self) -> LoginReplyView {
        LoginReplyView {
            cookie: match self.cookie {
                Some(cookie) => Some(cookie@),
                None => None,
            },
            status: self.status,
            body: self.body@,
        }
    }
}

/// An answer to a login, as plain values.
pub open spec fn login_answer_view(answer: Result<LoginReply, AuthAPIError>) -> Result<
    LoginReplyView,
    AuthAPIErrorView,
> {
    match answer {
        Ok(reply) => Ok(reply@),
        Err(refusal) => Err(refusal@),
    }
}

/// The reply to a login that waits for the second factor under `id`.
pub open spec fn pending_reply(id: Seq<char>) -> LoginReplyView {
    LoginReplyView {
        cookie: None,
        status: STATUS_PARTIAL_CONTENT,
        body: LoginResponseView::TwoFactorAuth(
            TwoFactorAuthResponseView { message: "2FA required"@, login_attempt_id: id },
        ),
    }
}

/// The reply to a login that went through with `token`.
pub open spec fn logged_in_reply(token: Seq<char>) -> LoginReplyView {
    LoginReplyView {
        cookie: Some(auth_cookie_model(token)),
        status: STATUS_OK,
        body: LoginResponseView::RegularAuth,
    }
}

/// The message that carries `code` to the identity.
pub open spec fn two_fa_message_text(code: Seq<char>) -> Seq<char> {
    "Please use this code to log into the website: "@ + code
}

/// What the second step of a login does when nothing is in its way and
/// the code gets through: the challenge `(id, code)` is opened for
/// `email` in place of any other, and the attempt is handed out.
pub open spec fn handle_2fa_model(
    challenges: Map<Seq<char>, TwoFARecordView>,
    email: Seq<char>,
    id: Seq<char>,
    code: Seq<char>,
) -> (Map<Seq<char>, TwoFARecordView>, Result<LoginReplyView, AuthAPIErrorView>) {
    (add_code_model(challenges, email, id, code), Ok(pending_reply(id)))
}

/// What a login without a second factor comes to at the second `now`.
pub open spec fn handle_no_2fa_model(secret: Seq<char>, email: Seq<char>, now: i64) -> Result<
    LoginReplyView,
    AuthAPIErrorView,
> {
    match mint_model(secret, email, now) {
        Ok(token) => Ok(logged_in_reply(token)),
        Err(why) => Err(AuthAPIErrorView::UnexpectedError(why)),
    }
}

/// What a login does when nothing is in its way, at the second `now` and
/// with `(id, code)` drawn for the challenge.
///
/// Malformed values are refused by name. An address that is not on
/// record and a secret that does not match are refused alike. An identity
/// that needs a second factor gets a challenge and no token; any other
/// gets its token.
pub open spec fn login_model(
    users: Map<Seq<char>, UserView>,
    challenges: Map<Seq<char>, TwoFARecordView>,
    secret: Seq<char>,
    email: Seq<char>,
    password: Seq<char>,
    now: i64,
    id: Seq<char>,
    code: Seq<char>,
) -> (Map<Seq<char>, TwoFARecordView>, Result<LoginReplyView, AuthAPIErrorView>) {
    if !is_valid_email(email) {
        (challenges, Err(AuthAPIErrorView::InvalidData("Email"@)))
    } else if !is_valid_password(password) {
        (challenges, Err(AuthAPIErrorView::InvalidData("Password"@)))
    } else {
        match validate_user_model(users, email, password) {
            Err(_) => (challenges, Err(AuthAPIErrorView::IncorrectCredentials)),
            Ok(user) => if user.requires_2fa {
                handle_2fa_model(challenges, email, id, code)
            } else {
                (challenges, handle_no_2fa_model(secret, email, now))
            },
        }
    }
}

/// An identity that needs a second factor never gets its token from a
/// login: a login that goes through opens the challenge, hands out the
/// attempt, and sets no cookie.
pub proof fn lemma_second_factor_is_asked_for(
    users: Map<Seq<char>, UserView>,
    challenges: Map<Seq<char>, TwoFARecordView>,
    secret: Seq<char>,
    email: Seq<char>,
    password: Seq<char>,
    now: i64,
    id: Seq<char>,
    code: Seq<char>,
)
    requires
        users.contains_key(email),
        users[email].requires_2fa,
    ensures
        ({
            let (after, answer) = login_model(
                users,
                challenges,
                secret,
                email,
                password,
                now,
                id,
                code,
            );
            answer matches Ok(reply) ==> reply == pending_reply(id) && after == add_code_model(
                challenges,
                email,
                id,
                code,
            )
        }),
{
}

/// The message that carries `code` to the identity.
pub fn two_fa_message(code: &TwoFACode) -> (content: String)
    ensures
        content@ == two_fa_message_text(code@),
{
    String::from_str("Please use this code to log into the website: ").concat(code.as_str())
}

/// Whether `mailer` gets the message that carries `code` through to
/// `email`.
pub open spec fn code_delivered<M: EmailClient + ?Sized>(
    mailer: &M,
    email: Seq<char>,
    code: Seq<char>,
) -> bool {
    mailer.delivers(email, TWO_FA_SUBJECT@, two_fa_message_text(code))
}

/// The second step of a login that needs a second factor, with the
/// challenge `(id, code)`: the challenge is opened, the message that
/// carries the code is sent to `email`, and the attempt is handed out.
/// Where the store or the mail fails, the login fails; a challenge that
/// was opened then stays open until it is replaced or its time is up.
pub fn handle_2fa_with<C: TwoFACodeStore + ?Sized, M: EmailClient + ?Sized>(
    email: &Email,
    codes: &mut C,
    mailer: &M,
    id: LoginAttemptId,
    code: TwoFACode,
) -> (answer: Result<LoginReply, AuthAPIError>)
    ensures
        final(codes).dependable() == old(codes).dependable(),
        answer matches Ok(reply) ==> reply@ == pending_reply(id@),
        answer matches Err(refusal) ==> refusal is UnexpectedError,
        old(codes).dependable() ==> final(codes)@ == add_code_model(
            old(codes)@,
            email@,
            id@,
            code@,
        ),
        old(codes).dependable() && mailer.dependable() ==> (answer is Ok <==> code_delivered(
            mailer,
            email@,
            code@,
        )),
{
    if let Err(refusal) = codes.add_code(email.clone(), id.clone(), code.clone()) {
        return Err(AuthAPIError::UnexpectedError(refusal.message()));
    }
    let body = two_fa_message(&code);
    if let Err(why) = mailer.send_email(email, TWO_FA_SUBJECT, body.as_str()) {
        return Err(AuthAPIError::UnexpectedError(why));
    }
    let response = TwoFactorAuthResponse {
        message: String::from_str("2FA required"),
        login_attempt_id: id.as_str().to_owned(),
    };
    Ok(
        LoginReply {
            cookie: None,
            status: STATUS_PARTIAL_CONTENT,
            body: LoginResponse::TwoFactorAuth(response),
        },
    )
}

/// What holds of the second step of a login that needs a second factor,
/// with `(id, code)` drawn for the challenge: the challenge is open, and
/// the attempt is handed out exactly where the code got through.
pub open spec fn handle_2fa_holds(
    before: Map<Seq<char>, TwoFARecordView>,
    after: Map<Seq<char>, TwoFARecordView>,
    answer: Result<LoginReplyView, AuthAPIErrorView>,
    delivered: bool,
    email: Seq<char>,
    id: Seq<char>,
    code: Seq<char>,
) -> bool {
    &&& after == add_code_model(before, email, id, code)
    &&& if delivered {
        answer == Ok::<LoginReplyView, AuthAPIErrorView>(pending_reply(id))
    } else {
        answer matches Err(AuthAPIErrorView::UnexpectedError(_))
    }
}

/// The second step of a login that needs a second factor: a fresh attempt
/// and a random code are drawn for the challenge.
pub fn handle_2fa<C: TwoFACodeStore + ?Sized, M: EmailClient + ?Sized>(
    email: &Email,
    codes: &mut C,
    mailer: &M,
) -> (answer: Result<LoginReply, AuthAPIError>)
    ensures
        final(codes).dependable() == old(codes).dependable(),
        answer matches Ok(reply) ==> exists|id: Seq<char>|
            canonical_uuid_text(id) == Some(id) && reply@ == #[trigger] pending_reply(id),
        answer matches Err(refusal) ==> refusal is UnexpectedError,
        old(codes).dependable() && mailer.dependable() ==> exists|id: Seq<char>, code: Seq<char>|
            canonical_uuid_text(id) == Some(id) && is_valid_code(code)
                && #[trigger] handle_2fa_holds(
                old(codes)@,
                final(codes)@,
                login_answer_view(answer),
                code_delivered(mailer, email@, code),
                email@,
                id,
                code,
            ),
{
    let id = LoginAttemptId::default();
    let code = TwoFACode::default();
    let ghost id_text = id@;
    let ghost code_text = code@;
    let _ = code.as_str();
    let answer = handle_2fa_with(email, codes, mailer, id, code);
    proof {
        if answer is Ok {
            assert(answer->Ok_0@ == pending_reply(id_text));
        }
        if old(codes).dependable() && mailer.dependable() {
            assert(handle_2fa_holds(
                old(codes)@,
                final(codes)@,
                login_answer_view(answer),
                code_delivered(mailer, email@, code_text),
                email@,
                id_text,
                code_text,
            ));
        }
    }
    answer
}

/// The second step of a login that needs no second factor, at the second
/// `now`: the token is made and put in its cookie.
pub fn handle_no_2fa_at(email: &Email, secret: &str, now: i64) -> (answer: Result<
    LoginReply,
    AuthAPIError,
>)
    ensures
        login_answer_view(answer) == handle_no_2fa_model(secret@, email@, now),
        answer matches Ok(reply) ==> reply.cookie is Some && reply.cookie->Some_0@.value.len() > 0,
        answer matches Ok(reply) ==> reply.cookie is Some && jwt_claims(
            secret@,
            reply.cookie->Some_0@.value,
        ) == Some((email@, (now + TOKEN_TTL_SECONDS) as u64)),
{
    let auth_cookie = match generate_auth_cookie_at(email, secret, now) {
        Ok(cookie) => cookie,
        Err(why) => {
            return Err(AuthAPIError::UnexpectedError(why));
        },
    };
    Ok(
        LoginReply {
            cookie: Some(auth_cookie),
            status: STATUS_OK,
            body: LoginResponse::RegularAuth,
        },
    )
}

/// The second step of a login that needs no second factor, now.
pub fn handle_no_2fa(email: &Email, secret: &str) -> (answer: Result<LoginReply, AuthAPIError>)
    ensures
        exists|now: i64|
            0 <= now && login_answer_view(answer) == handle_no_2fa_model(secret@, email@, now),
        answer matches Ok(reply) ==> reply.cookie is Some && reply.cookie->Some_0@.value.len() > 0,
        answer matches Ok(reply) ==> reply.cookie is Some && exists|exp: u64|
            jwt_claims(secret@, reply.cookie->Some_0@.value) == Some((email@, exp)),
        answer matches Err(refusal) ==> refusal is UnexpectedError,
{
    let now: i64 = unix_now();
    let answer = handle_no_2fa_at(email, secret, now);
    assert(login_answer_view(answer) == handle_no_2fa_model(secret@, email@, now));
    answer
}

/// An answer that holds an identity, as plain values.
pub open spec fn credentials_answer_view(answer: Result<User, AuthAPIError>) -> Result<
    UserView,
    AuthAPIErrorView,
> {
    match answer {
        Ok(user) => Ok(user@),
        Err(refusal) => Err(refusal@),
    }
}

/// What the first step of a login comes to when nothing is in its way.
pub open spec fn check_credentials_model(
    users: Map<Seq<char>, UserView>,
    email: Seq<char>,
    password: Seq<char>,
) -> Result<UserView, AuthAPIErrorView> {
    if !is_valid_email(email) {
        Err(AuthAPIErrorView::InvalidData("Email"@))
    } else if !is_valid_password(password) {
        Err(AuthAPIErrorView::InvalidData("Password"@))
    } else {
        match validate_user_model(users, email, password) {
            Err(_) => Err(AuthAPIErrorView::IncorrectCredentials),
            Ok(user) => Ok(user),
        }
    }
}

/// The first step of a login: the values of the request are validated,
/// then looked up. Whatever the store's reason to refuse, the answer is
/// the same.
pub fn check_credentials<U: UserStore + ?Sized>(
    users: &U,
    request: LoginRequest,
) -> (answer: Result<User, AuthAPIError>)
    ensures
        !is_valid_email(request.email_text()) ==> answer is Err && answer->Err_0@
            == AuthAPIErrorView::InvalidData("Email"@),
        is_valid_email(request.email_text()) && !is_valid_password(request.password_text())
            ==> answer is Err && answer->Err_0@ == AuthAPIErrorView::InvalidData("Password"@),
        is_valid_email(request.email_text()) && is_valid_password(request.password_text()) ==> (
        answer matches Err(refusal) ==> refusal is IncorrectCredentials),
        answer matches Ok(user) ==> user@.email == request.email_text(),
        users.dependable() ==> credentials_answer_view(answer) == check_credentials_model(
            users@,
            request.email_text(),
            request.password_text(),
        ),
{
    let email = match Email::parse(request.email) {
        Ok(email) => email,
        Err(_) => {
            return Err(AuthAPIError::InvalidData(String::from_str("Email")));
        },
    };
    let password = match Password::parse(request.password) {
        Ok(password) => password,
        Err(_) => {
            return Err(AuthAPIError::InvalidData(String::from_str("Password")));
        },
    };
    match users.validate_user(&email, &password) {
        Ok(user) => Ok(user),
        Err(_) => Err(AuthAPIError::IncorrectCredentials),
    }
}

/// Whether a login with these values goes on to its second factor:
/// whether they are the address and the secret of an identity on record
/// that needs one.
pub open spec fn second_factor_due(
    users: Map<Seq<char>, UserView>,
    email: Seq<char>,
    password: Seq<char>,
) -> bool {
    check_credentials_model(users, email, password) matches Ok(user) && user.requires_2fa
}

/// What holds of a login with dependable collaborators, at the second
/// `now` and with `(id, code)` drawn for the challenge. Where the code
/// is due and does not get through, the challenge is open and the login
/// fails; in every other case the login is the one of [`login_model`].
pub open spec fn login_holds(
    users: Map<Seq<char>, UserView>,
    before: Map<Seq<char>, TwoFARecordView>,
    after: Map<Seq<char>, TwoFARecordView>,
    answer: Result<LoginReplyView, AuthAPIErrorView>,
    delivered: bool,
    secret: Seq<char>,
    email: Seq<char>,
    password: Seq<char>,
    now: i64,
    id: Seq<char>,
    code: Seq<char>,
) -> bool {
    if second_factor_due(users, email, password) && !delivered {
        &&& after == add_code_model(before, email, id, code)
        &&& answer matches Err(AuthAPIErrorView::UnexpectedError(_))
    } else {
        (after, answer) == login_model(users, before, secret, email, password, now, id, code)
    }
}

/// A login at the second `now`, with `(id, code)` for the challenge in
/// case one is needed.
pub fn login_with<U: UserStore + ?Sized, C: TwoFACodeStore + ?Sized, M: EmailClient + ?Sized>(
    users: &U,
    codes: &mut C,
    mailer: &M,
    secret: &str,
    request: LoginRequest,
    now: i64,
    id: LoginAttemptId,
    code: TwoFACode,
) -> (answer: Result<LoginReply, AuthAPIError>)
    ensures
        final(codes).dependable() == old(codes).dependable(),
        !is_valid_email(request.email_text()) ==> answer is Err && answer->Err_0@
            == AuthAPIErrorView::InvalidData("Email"@) && final(codes)@ == old(codes)@,
        is_valid_email(request.email_text()) && !is_valid_password(request.password_text())
            ==> answer is Err && answer->Err_0@ == AuthAPIErrorView::InvalidData("Password"@)
            && final(codes)@ == old(codes)@,
        answer matches Err(refusal) ==> refusal is InvalidData || refusal is IncorrectCredentials
            || refusal is UnexpectedError,
        answer matches Ok(reply) ==> (reply.cookie matches Some(cookie) ==> cookie@.value.len()
            > 0),
        answer matches Ok(reply) ==> (reply.cookie matches Some(cookie) ==> jwt_claims(
            secret@,
            cookie@.value,
        ) == Some((request.email_text(), (now + TOKEN_TTL_SECONDS) as u64))),
        answer matches Ok(reply) ==> (reply.cookie matches Some(cookie) ==> mint_model(
            secret@,
            request.email_text(),
            now,
        ) == Ok::<Seq<char>, Seq<char>>(cookie@.value) && final(codes)@ == old(codes)@),
        answer matches Ok(reply) ==> (reply.cookie is None ==> reply@ == pending_reply(id@)),
        users.dependable() && users@.contains_key(request.email_text())
            && users@[request.email_text()].requires_2fa ==> (answer matches Ok(reply)
            ==> reply.cookie is None),
        users.dependable() && old(codes).dependable() && mailer.dependable() ==> login_holds(
            users@,
            old(codes)@,
            final(codes)@,
            login_answer_view(answer),
            code_delivered(mailer, request.email_text(), code@),
            secret@,
            request.email_text(),
            request.password_text(),
            now,
            id@,
            code@,
        ),
{
    let user = match check_credentials(users, request) {
        Ok(user) => user,
        Err(refusal) => {
            return Err(refusal);
        },
    };
    if user.requires_2fa() {
        handle_2fa_with(user.email(), codes, mailer, id, code)
    } else {
        handle_no_2fa_at(user.email(), secret, now)
    }
}

/// A login, now. An identity that needs a second factor never gets its
/// token here: it gets a challenge, and the attempt to quote when the
/// code is presented.
pub fn login<U: UserStore + ?Sized, C: TwoFACodeStore + ?Sized, M: EmailClient + ?Sized>(
    users: &U,
    codes: &mut C,
    mailer: &M,
    secret: &str,
    request: LoginRequest,
) -> (answer: Result<LoginReply, AuthAPIError>)
    ensures
        final(codes).dependable() == old(codes).dependable(),
        !is_valid_email(request.email_text()) ==> answer is Err && answer->Err_0@
            == AuthAPIErrorView::InvalidData("Email"@) && final(codes)@ == old(codes)@,
        is_valid_email(request.email_text()) && !is_valid_password(request.password_text())
            ==> answer is Err && answer->Err_0@ == AuthAPIErrorView::InvalidData("Password"@)
            && final(codes)@ == old(codes)@,
        answer matches Err(refusal) ==> refusal is InvalidData || refusal is IncorrectCredentials
            || refusal is UnexpectedError,
        answer matches Ok(reply) ==> (reply.cookie is Some ==> final(codes)@ == old(codes)@),
        answer matches Ok(reply) ==> (reply.cookie matches Some(cookie) ==> cookie@.value.len()
            > 0 && exists|exp: u64|
            jwt_claims(secret@, cookie@.value) == Some((request.email_text(), exp))),
        answer matches Ok(reply) ==> (reply.cookie is None ==> exists|id: Seq<char>|
            canonical_uuid_text(id) == Some(id) && reply@ == #[trigger] pending_reply(id)),
        users.dependable() && users@.contains_key(request.email_text())
            && users@[request.email_text()].requires_2fa ==> (answer matches Ok(reply)
            ==> reply.cookie is None),
        users.dependable() && old(codes).dependable() && mailer.dependable() ==> exists|
            now: i64,
            id: Seq<char>,
            code: Seq<char>,
        |
            0 <= now && #[trigger] login_holds(
                users@,
                old(codes)@,
                final(codes)@,
                login_answer_view(answer),
                code_delivered(mailer, request.email_text(), code),
                secret@,
                request.email_text(),
                request.password_text(),
                now,
                id,
                code,
            ),
{
    let ghost email_text = request.email_text();
    let ghost password_text = request.password_text();
    let user = match check_credentials(users, request) {
        Ok(user) => user,
        Err(refusal) => {
            proof {
                if users.dependable() {
                    assert(login_holds(
                        users@,
                        old(codes)@,
                        codes@,
                        login_answer_view(Err::<LoginReply, AuthAPIError>(refusal)),
                        code_delivered(mailer, email_text, Seq::empty()),
                        secret@,
                        email_text,
                        password_text,
                        0,
                        Seq::empty(),
                        Seq::empty(),
                    ));
                }
            }
            return Err(refusal);
        },
    };
    if user.requires_2fa() {
        let answer = handle_2fa(user.email(), codes, mailer);
        proof {
            if users.dependable() && old(codes).dependable() && mailer.dependable() {
                let (id, code) = choose|id: Seq<char>, code: Seq<char>|
                    canonical_uuid_text(id) == Some(id) && is_valid_code(code)
                        && #[trigger] handle_2fa_holds(
                        old(codes)@,
                        final(codes)@,
                        login_answer_view(answer),
                        code_delivered(mailer, email_text, code),
                        email_text,
                        id,
                        code,
                    );
                assert(login_holds(
                    users@,
                    old(codes)@,
                    final(codes)@,
                    login_answer_view(answer),
                    code_delivered(mailer, email_text, code),
                    secret@,
                    email_text,
                    password_text,
                    0,
                    id,
                    code,
                ));
            }
        }
        answer
    } else {
        let answer = handle_no_2fa(user.email(), secret);
        proof {
            let now = choose|now: i64|
                0 <= now && login_answer_view(answer) == handle_no_2fa_model(
                    secret@,
                    email_text,
                    now,
                );
            if users.dependable() {
                assert(login_holds(
                    users@,
                    old(codes)@,
                    codes@,
                    login_answer_view(answer),
                    code_delivered(mailer, email_text, Seq::empty()),
                    secret@,
                    email_text,
                    password_text,
                    now,
                    Seq::empty(),
                    Seq::empty(),
                ));
            }
        }
        answer
    }
}

} // verus!
