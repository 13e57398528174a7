use auth_service::domain::data_store::{BannedTokenStore, TwoFACodeStore, UserStore};
use auth_service::domain::email::Email;
use auth_service::domain::error::AuthAPIError;
use auth_service::domain::login_attempt_id::LoginAttemptId;
use auth_service::domain::two_fa_code::TwoFACode;
use auth_service::routes::delete_account::{delete_account, DeleteAccountRequest};
use auth_service::routes::jwt::JWToken;
use auth_service::routes::login::{
    check_credentials, handle_2fa, handle_2fa_with, handle_no_2fa, handle_no_2fa_at, login,
    login_with, two_fa_message, LoginReply, LoginRequest, LoginResponse,
};
use auth_service::routes::logout::{logout, logout_at};
use auth_service::routes::signup::{signup, SignupRequest};
use auth_service::routes::verify_2fa::{verify_2fa, verify_2fa_at, VerifyToken};
use auth_service::routes::verify_token::{
    verdict_from, verify_token, verify_token_at, TokenVerdict,
};
use auth_service::services::hashmap_two_fa_code_store::HashmapTwoFACodeStore;
use auth_service::services::hashmap_user_store::HashmapUserStore;
use auth_service::services::hashset_banned_token_store::HashsetBannedTokenStore;
use auth_service::services::mock_email_client::MockEmailClient;
use auth_service::utils::auth::{generate_auth_token_at, validate_token};

const SECRET: &str = "secret";

struct App {
    users: HashmapUserStore,
    codes: HashmapTwoFACodeStore,
    banned: HashsetBannedTokenStore,
    mailer: MockEmailClient,
}

fn app() -> App {
    App {
        users: HashmapUserStore::new(),
        codes: HashmapTwoFACodeStore::new(),
        banned: HashsetBannedTokenStore::new(),
        mailer: MockEmailClient,
    }
}

fn register(app: &mut App, email: &str, password: &str, requires_2fa: bool) {
    let request = SignupRequest {
        email: email.to_owned(),
        password: password.to_owned(),
        requires_2fa,
    };
    let (status, body) = signup(&mut app.users, request).unwrap();
    assert_eq!(status, 201);
    assert_eq!(body.message, "User created successfully!");
}

fn log_in(app: &mut App, email: &str, password: &str) -> Result<LoginReply, AuthAPIError> {
    login(
        &app.users,
        &mut app.codes,
        &app.mailer,
        SECRET,
        LoginRequest::new(email.to_owned(), password.to_owned()),
    )
}

fn address(text: &str) -> Email {
    Email::parse(text.to_owned()).unwrap()
}

#[test]
fn signup_should_return_201_if_valid_input() {
    let mut app = app();
    register(&mut app, "test@test.com", "password123!", true);
    assert!(app.users.get_user(&address("test@test.com")).unwrap().requires_2fa());
}

#[test]
fn signup_should_return_400_if_invalid_input() {
    let mut app = app();
    let cases = [
        ("", "password123!", "Invalid data: Invalid Email"),
        ("test.test.com", "password123!", "Invalid data: Invalid Email"),
        ("test@test.com", "", "Invalid data: Invalid Password"),
        ("test@test.com", "pass", "Invalid data: Invalid Password"),
        ("test@test.com", "password", "Invalid data: Invalid Password"),
        ("test.test.com", "pass", "Invalid data: Invalid Email"),
    ];
    for (email, password, words) in cases {
        let request = SignupRequest {
            email: email.to_owned(),
            password: password.to_owned(),
            requires_2fa: true,
        };
        let refusal = signup(&mut app.users, request).unwrap_err();
        assert!(matches!(refusal, AuthAPIError::InvalidData(_)));
        let (status, body) = refusal.into_response();
        assert_eq!(status, 400);
        assert_eq!(body.error, words);
    }
}

#[test]
fn signup_should_return_409_if_email_already_exists() {
    let mut app = app();
    register(&mut app, "test@test.com", "password123!", true);
    let request = SignupRequest {
        email: "test@test.com".to_owned(),
        password: "Another-one1".to_owned(),
        requires_2fa: false,
    };
    let refusal = signup(&mut app.users, request).unwrap_err();
    assert!(matches!(refusal, AuthAPIError::UserAlreadyExists));
    assert_eq!(refusal.status_code(), 409);
    // the identity on record is the first one
    assert!(app.users.get_user(&address("test@test.com")).unwrap().requires_2fa());
}

#[test]
fn login_should_return_200_if_valid_cred_no_2fa() {
    let mut app = app();
    register(&mut app, "test@test.com", "password123!", false);
    let reply = log_in(&mut app, "test@test.com", "password123!").unwrap();
    assert_eq!(reply.status, 200);
    assert!(matches!(reply.body, LoginResponse::RegularAuth));
    let cookie = reply.cookie.expect("No auth cookie found");
    assert_eq!(cookie.name(), "jwt");
    assert!(!cookie.value().is_empty());
    // no challenge was opened
    assert!(app.codes.get_code(&address("test@test.com")).is_err());
}

#[test]
fn login_should_return_206_if_valid_cred_with_2fa() {
    let mut app = app();
    register(&mut app, "test@test.com", "password123!", true);
    let reply = log_in(&mut app, "test@test.com", "password123!").unwrap();
    assert_eq!(reply.status, 206);
    assert!(reply.cookie.is_none());
    let body = match reply.body {
        LoginResponse::TwoFactorAuth(body) => body,
        LoginResponse::RegularAuth => panic!("a second factor was due"),
    };
    assert_eq!(body.message, "2FA required");
    let record = app.codes.get_code(&address("test@test.com")).unwrap();
    assert_eq!(body.login_attempt_id, record.id.as_ref());
}

#[test]
fn login_invalid_input_should_return_400() {
    let mut app = app();
    register(&mut app, "test@test.com", "password123!", false);
    let cases = [
        ("test.test.com", "password123!", "Invalid data: Email"),
        ("", "password123!", "Invalid data: Email"),
        ("test@test.com", "password", "Invalid data: Password"),
        ("test@test.com", "", "Invalid data: Password"),
        ("", "", "Invalid data: Email"),
    ];
    for (email, password, words) in cases {
        let refusal = log_in(&mut app, email, password).unwrap_err();
        let (status, body) = refusal.into_response();
        assert_eq!(status, 400);
        assert_eq!(body.error, words);
    }
}

#[test]
fn login_non_existing_user_should_return_401() {
    let mut app = app();
    let refusal = log_in(&mut app, "test@test.com", "password123!").unwrap_err();
    assert!(matches!(refusal, AuthAPIError::IncorrectCredentials));
    assert_eq!(refusal.status_code(), 401);
}

#[test]
fn login_unauthorize_user_should_return_401() {
    let mut app = app();
    register(&mut app, "test@test.com", "password123!", true);
    let refusal = log_in(&mut app, "test@test.com", "password123?").unwrap_err();
    assert!(matches!(refusal, AuthAPIError::IncorrectCredentials));
    let (status, body) = refusal.into_response();
    assert_eq!(status, 401);
    assert_eq!(body.error, "Invalid credentials");
    // no challenge was opened for a login that was refused
    assert!(app.codes.get_code(&address("test@test.com")).is_err());
}

#[test]
fn check_credentials_hands_back_the_identity() {
    let mut app = app();
    register(&mut app, "test@test.com", "password123!", true);
    let request = LoginRequest::new("test@test.com".to_owned(), "password123!".to_owned());
    let user = check_credentials(&app.users, request).unwrap();
    assert_eq!(user.email().as_str(), "test@test.com");
    assert!(user.requires_2fa());
}

#[test]
fn alice_logs_in_without_a_second_factor() {
    let mut app = app();
    register(&mut app, "alice@example.com", "Password123!", false);
    let reply = log_in(&mut app, "alice@example.com", "Password123!").unwrap();
    let token = reply.cookie.unwrap().value().to_owned();
    let verdict = verify_token(&app.banned, SECRET, &JWToken { token: token.clone() });
    assert_eq!(verdict.status_code(), 200);
    match verdict {
        TokenVerdict::Valid(claims) => assert_eq!(claims.sub, "alice@example.com"),
        _ => panic!("the token was good"),
    }
    assert_eq!(validate_token(&token, SECRET).unwrap().sub, "alice@example.com");
}

#[test]
fn bob_logs_in_with_a_second_factor() {
    let mut app = app();
    register(&mut app, "bob@example.com", "Password123!", true);
    let reply = log_in(&mut app, "bob@example.com", "Password123!").unwrap();
    assert!(reply.cookie.is_none());
    let attempt = match reply.body {
        LoginResponse::TwoFactorAuth(body) => body.login_attempt_id,
        LoginResponse::RegularAuth => panic!("a second factor was due"),
    };
    let right_code = app.codes.get_code(&address("bob@example.com")).unwrap().code;
    let wrong_code = if right_code.as_str() == "000000" { "000001" } else { "000000" };

    let wrong = VerifyToken::new(
        "bob@example.com".to_owned(),
        attempt.clone(),
        wrong_code.to_owned(),
    );
    let refusal = verify_2fa(&mut app.codes, SECRET, wrong).unwrap_err();
    assert!(matches!(refusal, AuthAPIError::MismatchIdentification));

    let right = VerifyToken::new(
        "bob@example.com".to_owned(),
        attempt.clone(),
        right_code.as_str().to_owned(),
    );
    let (cookie, status) = verify_2fa(&mut app.codes, SECRET, right).unwrap();
    assert_eq!(status, 200);
    let verdict = verify_token(&app.banned, SECRET, &JWToken { token: cookie.value().to_owned() });
    match verdict {
        TokenVerdict::Valid(claims) => assert_eq!(claims.sub, "bob@example.com"),
        _ => panic!("the token was good"),
    }

    // the same pair is good once
    let again = VerifyToken::new(
        "bob@example.com".to_owned(),
        attempt,
        right_code.as_str().to_owned(),
    );
    let refusal = verify_2fa(&mut app.codes, SECRET, again).unwrap_err();
    assert!(matches!(refusal, AuthAPIError::IncorrectCredentials));
}

#[test]
fn login_with_fixed_draws() {
    let mut app = app();
    register(&mut app, "alice@example.com", "Password123!", false);
    register(&mut app, "bob@example.com", "Password123!", true);
    let id = LoginAttemptId::parse("550e8400-e29b-41d4-a716-446655440000".to_owned()).unwrap();
    let code = TwoFACode::from_number(42);
    let now = 1_700_000_000;

    let reply = login_with(
        &app.users,
        &mut app.codes,
        &app.mailer,
        SECRET,
        LoginRequest::new("alice@example.com".to_owned(), "Password123!".to_owned()),
        now,
        id.clone(),
        code.clone(),
    )
    .unwrap();
    assert_eq!(reply.status, 200);
    let token = reply.cookie.unwrap().value().to_owned();
    let expected = generate_auth_token_at(&address("alice@example.com"), SECRET, now).unwrap();
    assert_eq!(token, expected);
    // good at once, and until it runs out, by a ledger that does not hold it
    for at in [now, now + 1, now + 600] {
        match verify_token_at(&app.banned, SECRET, &JWToken { token: token.clone() }, at) {
            TokenVerdict::Valid(claims) => {
                assert_eq!(claims.sub, "alice@example.com");
                assert_eq!(claims.exp, 1_700_000_600);
            }
            _ => panic!("the token was good"),
        }
    }
    assert!(matches!(
        verify_token_at(&app.banned, SECRET, &JWToken { token: token.clone() }, now + 601),
        TokenVerdict::Invalid
    ));
    assert!(app.codes.get_code(&address("alice@example.com")).is_err());

    let reply = login_with(
        &app.users,
        &mut app.codes,
        &app.mailer,
        SECRET,
        LoginRequest::new("bob@example.com".to_owned(), "Password123!".to_owned()),
        now,
        id.clone(),
        code.clone(),
    )
    .unwrap();
    assert_eq!(reply.status, 206);
    assert!(reply.cookie.is_none());
    match reply.body {
        LoginResponse::TwoFactorAuth(body) => {
            assert_eq!(body.message, "2FA required");
            assert_eq!(body.login_attempt_id, "550e8400-e29b-41d4-a716-446655440000");
        }
        LoginResponse::RegularAuth => panic!("a second factor was due"),
    }
    let record = app.codes.get_code(&address("bob@example.com")).unwrap();
    assert!(record.id == id);
    assert_eq!(record.code.as_str(), "000042");
}

#[test]
fn second_login_invalidates_the_first_challenge() {
    let mut app = app();
    register(&mut app, "bob@example.com", "Password123!", true);
    let first_id = LoginAttemptId::default();
    let second_id = LoginAttemptId::default();
    let first_code = TwoFACode::from_number(111111);
    let second_code = TwoFACode::from_number(222222);
    for (id, code) in [(&first_id, &first_code), (&second_id, &second_code)] {
        let reply = login_with(
            &app.users,
            &mut app.codes,
            &app.mailer,
            SECRET,
            LoginRequest::new("bob@example.com".to_owned(), "Password123!".to_owned()),
            1_700_000_000,
            id.clone(),
            code.clone(),
        );
        assert!(reply.is_ok());
    }
    let stale = VerifyToken::new(
        "bob@example.com".to_owned(),
        first_id.as_str().to_owned(),
        "111111".to_owned(),
    );
    let refusal = verify_2fa_at(&mut app.codes, SECRET, stale, 1_700_000_000).unwrap_err();
    assert!(matches!(refusal, AuthAPIError::MismatchIdentification));
    let fresh = VerifyToken::new(
        "bob@example.com".to_owned(),
        second_id.as_str().to_owned(),
        "222222".to_owned(),
    );
    let (cookie, status) = verify_2fa_at(&mut app.codes, SECRET, fresh, 1_700_000_000).unwrap();
    assert_eq!(status, 200);
    let expected = generate_auth_token_at(&address("bob@example.com"), SECRET, 1_700_000_000).unwrap();
    assert_eq!(cookie.value(), expected);
}

#[test]
fn handle_2fa_opens_the_challenge() {
    let mut app = app();
    let address = address("test@test.com");
    let reply = handle_2fa(&address, &mut app.codes, &app.mailer).unwrap();
    assert_eq!(reply.status, 206);
    let record = app.codes.get_code(&address).unwrap();
    match reply.body {
        LoginResponse::TwoFactorAuth(body) => assert_eq!(body.login_attempt_id, record.id.as_ref()),
        LoginResponse::RegularAuth => panic!("a second factor was due"),
    }
    let id = LoginAttemptId::default();
    let code = TwoFACode::from_number(999999);
    let reply = handle_2fa_with(&address, &mut app.codes, &app.mailer, id.clone(), code).unwrap();
    assert!(reply.cookie.is_none());
    let record = app.codes.get_code(&address).unwrap();
    assert!(record.id == id);
    assert_eq!(record.code.as_str(), "999999");
}

#[test]
fn handle_no_2fa_makes_the_token() {
    let address = address("test@test.com");
    let reply = handle_no_2fa(&address, SECRET).unwrap();
    assert_eq!(reply.status, 200);
    assert_eq!(validate_token(reply.cookie.unwrap().value(), SECRET).unwrap().sub, "test@test.com");
    let reply = handle_no_2fa_at(&address, SECRET, 1_700_000_000).unwrap();
    let expected = generate_auth_token_at(&address, SECRET, 1_700_000_000).unwrap();
    assert_eq!(reply.cookie.unwrap().value(), expected);
    let refusal = handle_no_2fa_at(&address, SECRET, i64::MAX).unwrap_err();
    let (status, body) = refusal.into_response();
    assert_eq!(status, 500);
    assert_eq!(body.error, "Date is out of range");
}

#[test]
fn two_fa_message_carries_the_code() {
    let code = TwoFACode::from_number(1234);
    assert_eq!(
        two_fa_message(&code),
        "Please use this code to log into the website: 001234"
    );
}

#[test]
fn verify_2fa_should_pass() {
    let mut app = app();
    let address = address("test@test.com");
    let id = LoginAttemptId::default();
    let code = TwoFACode::default();
    let _ = app.codes.add_code(address.clone(), id.clone(), code.clone());
    let request = VerifyToken::new(
        "test@test.com".to_owned(),
        id.as_ref().to_owned(),
        code.as_str().to_owned(),
    );
    let (cookie, status) = verify_2fa(&mut app.codes, SECRET, request).unwrap();
    assert_eq!(status, 200);
    assert_eq!(cookie.name(), "jwt");
    assert_eq!(validate_token(cookie.value(), SECRET).unwrap().sub, "test@test.com");
}

#[test]
fn verify_2fa_malform_field_input_should_return_400() {
    let mut app = app();
    let id = LoginAttemptId::default();
    let code = TwoFACode::default();
    let cases = [
        ("test@test.com", "abc this should not be possible?", code.as_str(), "Invalid data: Login ID"),
        ("", id.as_str(), code.as_str(), "Invalid data: Email"),
        ("test@test.com", id.as_str(), "123A", "Invalid data: 2FA Code"),
        ("test@test.com", "c7585553-84d5-4fbc-bab5-62bad43e42@", code.as_str(), "Invalid data: Login ID"),
        ("test_test_com", id.as_str(), code.as_str(), "Invalid data: Email"),
        ("test@test.com", id.as_str(), "", "Invalid data: 2FA Code"),
    ];
    for (email, id, code, words) in cases {
        let request = VerifyToken::new(email.to_owned(), id.to_owned(), code.to_owned());
        let refusal = verify_2fa(&mut app.codes, SECRET, request).unwrap_err();
        let (status, body) = refusal.into_response();
        assert_eq!(status, 400);
        assert_eq!(body.error, words);
    }
}

#[test]
fn verify_2fa_without_a_challenge_is_refused_like_wrong_credentials() {
    let mut app = app();
    let id = LoginAttemptId::default();
    let request =
        VerifyToken::new("test@test.com".to_owned(), id.as_str().to_owned(), "123456".to_owned());
    let refusal = verify_2fa(&mut app.codes, SECRET, request).unwrap_err();
    assert!(matches!(refusal, AuthAPIError::IncorrectCredentials));
    assert_eq!(refusal.status_code(), 401);
}

#[test]
fn verify_2fa_refuses_either_wrong_half_alike() {
    let mut app = app();
    let address = address("test@test.com");
    let id = LoginAttemptId::default();
    let other_id = LoginAttemptId::default();
    let code = TwoFACode::from_number(123456);
    app.codes.add_code(address.clone(), id.clone(), code.clone()).unwrap();
    let cases = [(id.as_str(), "654321"), (other_id.as_str(), "123456")];
    for (id, code) in cases {
        let request = VerifyToken::new("test@test.com".to_owned(), id.to_owned(), code.to_owned());
        let refusal = verify_2fa(&mut app.codes, SECRET, request).unwrap_err();
        assert!(matches!(refusal, AuthAPIError::MismatchIdentification));
        let (status, body) = refusal.into_response();
        assert_eq!(status, 401);
        assert_eq!(body.error, "Mismatch identity");
    }
    // the challenge is still open, and the attempt may be quoted in another spelling
    let request = VerifyToken::new(
        "test@test.com".to_owned(),
        id.as_str().to_uppercase(),
        "123456".to_owned(),
    );
    assert!(verify_2fa(&mut app.codes, SECRET, request).is_ok());
}

#[test]
fn verify_token_valid_token_should_return_200() {
    let mut app = app();
    register(&mut app, "test@test.com", "password123!", false);
    let reply = log_in(&mut app, "test@test.com", "password123!").unwrap();
    let token = reply.cookie.unwrap().value().to_owned();
    let verdict = verify_token(&app.banned, SECRET, &JWToken { token });
    assert_eq!(verdict.status_code(), 200);
}

#[test]
fn verify_token_invalid_token_should_return_401() {
    let app = app();
    let verdict = verify_token(&app.banned, SECRET, &JWToken { token: "invalid_token".to_owned() });
    assert!(matches!(verdict, TokenVerdict::Invalid));
    assert_eq!(verdict.status_code(), 401);
}

#[test]
fn logout_valid_jwt_should_return_200() {
    let mut app = app();
    register(&mut app, "test@test.com", "password123!", false);
    let reply = log_in(&mut app, "test@test.com", "password123!").unwrap();
    let token = reply.cookie.unwrap().value().to_owned();
    assert_eq!(logout(&mut app.banned, SECRET, Some(&token)).unwrap(), 200);
    assert_eq!(app.banned.check_token(&token), true);
}

#[test]
fn logout_missing_jwt_should_return_400() {
    let mut app = app();
    let refusal = logout(&mut app.banned, SECRET, None).unwrap_err();
    assert!(matches!(refusal, AuthAPIError::MissingToken));
    let (status, body) = refusal.into_response();
    assert_eq!(status, 400);
    assert_eq!(body.error, "Missing JWT Token!");
}

#[test]
fn logout_invalid_jwt_should_return_401() {
    let mut app = app();
    let refusal = logout(&mut app.banned, SECRET, Some("invalid")).unwrap_err();
    assert!(matches!(refusal, AuthAPIError::InvalidToken));
    let (status, body) = refusal.into_response();
    assert_eq!(status, 401);
    assert_eq!(body.error, "Invalid JWT Token");
    // revoked all the same, before it was looked at
    assert!(app.banned.check_token("invalid"));
}

#[test]
fn logout_banned_token_should_return_401() {
    let mut app = app();
    register(&mut app, "test@test.com", "password123!", false);
    let reply = log_in(&mut app, "test@test.com", "password123!").unwrap();
    let token = reply.cookie.unwrap().value().to_owned();
    // good before the logout
    assert!(matches!(
        verify_token(&app.banned, SECRET, &JWToken { token: token.clone() }),
        TokenVerdict::Valid(_)
    ));
    assert!(logout(&mut app.banned, SECRET, Some(&token)).is_ok());
    // turned away after it, though it has not run out
    assert!(validate_token(&token, SECRET).is_ok());
    let verdict = verify_token(&app.banned, SECRET, &JWToken { token: token.clone() });
    assert!(matches!(verdict, TokenVerdict::Revoked));
    assert_eq!(verdict.status_code(), 401);
    // a second logout with the same token still goes through
    assert_eq!(logout(&mut app.banned, SECRET, Some(&token)).unwrap(), 200);
    assert!(app.banned.check_token(&token));
}

#[test]
fn logout_at_a_second() {
    let mut app = app();
    let token = generate_auth_token_at(&address("test@test.com"), SECRET, 1000).unwrap();
    assert_eq!(logout_at(&mut app.banned, SECRET, Some(&token), 1600).unwrap(), 200);
    let mut app = self::app();
    let refusal = logout_at(&mut app.banned, SECRET, Some(&token), 1601).unwrap_err();
    assert!(matches!(refusal, AuthAPIError::InvalidToken));
    assert!(app.banned.check_token(&token));
    assert!(matches!(
        verify_token_at(&app.banned, SECRET, &JWToken { token }, 1000),
        TokenVerdict::Revoked
    ));
}

#[test]
fn delete_account_takes_the_identity_off_the_record() {
    let mut app = app();
    register(&mut app, "test@test.com", "password123!", false);
    let request = DeleteAccountRequest { email: "test@test.com".to_owned() };
    assert_eq!(delete_account(&mut app.users, request).unwrap(), 200);
    let refusal = log_in(&mut app, "test@test.com", "password123!").unwrap_err();
    assert!(matches!(refusal, AuthAPIError::IncorrectCredentials));

    let request = DeleteAccountRequest { email: "test@test.com".to_owned() };
    let refusal = delete_account(&mut app.users, request).unwrap_err();
    assert!(matches!(refusal, AuthAPIError::UserNotFound));
    let (status, body) = refusal.into_response();
    assert_eq!(status, 404);
    assert_eq!(body.error, "User not found");

    let request = DeleteAccountRequest { email: "test.test.com".to_owned() };
    let refusal = delete_account(&mut app.users, request).unwrap_err();
    let (status, body) = refusal.into_response();
    assert_eq!(status, 400);
    assert_eq!(body.error, "Invalid data: Email");
}

#[test]
fn verdict_follows_from_the_ledger_answer() {
    let token = generate_auth_token_at(&address("test@test.com"), SECRET, 1000).unwrap();
    let jwt = JWToken { token };
    assert!(matches!(verdict_from(true, SECRET, &jwt, 1000), TokenVerdict::Revoked));
    assert!(matches!(verdict_from(true, SECRET, &jwt, 5000), TokenVerdict::Revoked));
    match verdict_from(false, SECRET, &jwt, 1000) {
        TokenVerdict::Valid(claims) => {
            assert_eq!(claims.sub, "test@test.com");
            assert_eq!(claims.exp, 1600);
        }
        _ => panic!("the token was good"),
    }
    assert!(matches!(verdict_from(false, SECRET, &jwt, 1601), TokenVerdict::Invalid));
    let forged = JWToken { token: "invalid".to_owned() };
    assert!(matches!(verdict_from(false, SECRET, &forged, 1000), TokenVerdict::Invalid));
    assert!(matches!(verdict_from(true, SECRET, &forged, 1000), TokenVerdict::Revoked));
}
