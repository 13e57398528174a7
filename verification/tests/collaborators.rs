use auth_service::domain::data_store::{TwoFACodeStore, UserStore};
use auth_service::domain::email::Email;
use auth_service::domain::email_client::EmailClient;
use auth_service::domain::error::AuthAPIError;
use auth_service::routes::login::{login, LoginRequest};
use auth_service::routes::signup::{signup, SignupRequest};
use auth_service::services::hashmap_two_fa_code_store::HashmapTwoFACodeStore;
use auth_service::services::hashmap_user_store::HashmapUserStore;

struct DeadLetterBox;

impl EmailClient for DeadLetterBox {
    fn send_email(&self, _recipient: &Email, _subject: &str, _content: &str) -> Result<(), String> {
        Err("the mail server is down".to_owned())
    }
}

#[test]
fn login_fails_when_the_code_cannot_be_sent() {
    let mut users = HashmapUserStore::new();
    let mut codes = HashmapTwoFACodeStore::new();
    let request = SignupRequest {
        email: "bob@example.com".to_owned(),
        password: "Password123!".to_owned(),
        requires_2fa: true,
    };
    signup(&mut users, request).unwrap();
    let refusal = login(
        &users,
        &mut codes,
        &DeadLetterBox,
        "secret",
        LoginRequest::new("bob@example.com".to_owned(), "Password123!".to_owned()),
    )
    .unwrap_err();
    assert!(matches!(refusal, AuthAPIError::UnexpectedError(_)));
    let (status, body) = refusal.into_response();
    assert_eq!(status, 500);
    assert_eq!(body.error, "the mail server is down");
    // the challenge that was opened stays open
    let address = Email::parse("bob@example.com".to_owned()).unwrap();
    assert!(codes.get_code(&address).is_ok());
    assert!(users.get_user(&address).is_ok());
}

#[test]
fn flows_take_stores_behind_a_pointer() {
    let mut users: Box<dyn UserStore> = Box::new(HashmapUserStore::new());
    let mut codes: Box<dyn TwoFACodeStore> = Box::new(HashmapTwoFACodeStore::new());
    let mailer: Box<dyn EmailClient> = Box::new(DeadLetterBox);
    let request = SignupRequest {
        email: "alice@example.com".to_owned(),
        password: "Password123!".to_owned(),
        requires_2fa: false,
    };
    signup(&mut *users, request).unwrap();
    let reply = login(
        &*users,
        &mut *codes,
        &*mailer,
        "secret",
        LoginRequest::new("alice@example.com".to_owned(), "Password123!".to_owned()),
    )
    .unwrap();
    assert_eq!(reply.status, 200);
    assert!(reply.cookie.is_some());
}

struct BrokenLedger;

impl auth_service::domain::data_store::BannedTokenStore for BrokenLedger {
    fn add_token(
        &mut self,
        _token: &str,
    ) -> Result<(), auth_service::domain::data_store::BannedTokenStoreError> {
        Err(auth_service::domain::data_store::BannedTokenStoreError::UnexpectedError)
    }

    fn check_token(&self, _token: &str) -> bool {
        false
    }
}

#[test]
fn logout_goes_on_when_the_ledger_fails() {
    let address = Email::parse("alice@example.com".to_owned()).unwrap();
    let token =
        auth_service::utils::auth::generate_auth_token_at(&address, "secret", 1_700_000_000)
            .unwrap();
    let mut ledger = BrokenLedger;
    let answer =
        auth_service::routes::logout::logout_at(&mut ledger, "secret", Some(&token), 1_700_000_000);
    assert_eq!(answer.unwrap(), 200);
    let refusal = auth_service::routes::logout::logout_at(&mut ledger, "secret", None, 0)
        .unwrap_err();
    assert!(matches!(refusal, AuthAPIError::MissingToken));
}

struct BrokenStores;

impl UserStore for BrokenStores {
    fn add_user(
        &mut self,
        _user: auth_service::domain::user::User,
    ) -> Result<(), auth_service::domain::data_store::UserStoreError> {
        Err(auth_service::domain::data_store::UserStoreError::UnexpectedError)
    }

    fn get_user(
        &self,
        _email: &Email,
    ) -> Result<auth_service::domain::user::User, auth_service::domain::data_store::UserStoreError>
    {
        Err(auth_service::domain::data_store::UserStoreError::UnexpectedError)
    }

    fn validate_user(
        &self,
        _email: &Email,
        _password: &auth_service::domain::password::Password,
    ) -> Result<auth_service::domain::user::User, auth_service::domain::data_store::UserStoreError>
    {
        Err(auth_service::domain::data_store::UserStoreError::UnexpectedError)
    }

    fn delete_user(
        &mut self,
        _email: Email,
    ) -> Result<(), auth_service::domain::data_store::UserStoreError> {
        Err(auth_service::domain::data_store::UserStoreError::UnexpectedError)
    }
}

impl TwoFACodeStore for BrokenStores {
    fn add_code(
        &mut self,
        _email: Email,
        _id: auth_service::domain::login_attempt_id::LoginAttemptId,
        _code: auth_service::domain::two_fa_code::TwoFACode,
    ) -> Result<(), auth_service::domain::data_store::TwoFACodeStoreError> {
        Err(auth_service::domain::data_store::TwoFACodeStoreError::UnexpectedError)
    }

    fn remove_code(
        &mut self,
        _email: &Email,
    ) -> Result<(), auth_service::domain::data_store::TwoFACodeStoreError> {
        Err(auth_service::domain::data_store::TwoFACodeStoreError::UnexpectedError)
    }

    fn get_code(
        &self,
        _email: &Email,
    ) -> Result<
        auth_service::domain::data_store::TwoFARecord,
        auth_service::domain::data_store::TwoFACodeStoreError,
    > {
        Err(auth_service::domain::data_store::TwoFACodeStoreError::UnexpectedError)
    }
}

#[test]
fn requests_fail_when_a_store_they_need_fails() {
    let mut broken = BrokenStores;
    let request = SignupRequest {
        email: "bob@example.com".to_owned(),
        password: "Password123!".to_owned(),
        requires_2fa: true,
    };
    let refusal = signup(&mut broken, request).unwrap_err();
    let (status, body) = refusal.into_response();
    assert_eq!(status, 500);
    assert_eq!(body.error, "Unexpected error");

    // a login cannot tell a failing store from wrong credentials
    let mut codes = HashmapTwoFACodeStore::new();
    let refusal = login(
        &broken,
        &mut codes,
        &DeadLetterBox,
        "secret",
        LoginRequest::new("bob@example.com".to_owned(), "Password123!".to_owned()),
    )
    .unwrap_err();
    assert!(matches!(refusal, AuthAPIError::IncorrectCredentials));

    // the challenge cannot be opened
    let mut users = HashmapUserStore::new();
    let request = SignupRequest {
        email: "bob@example.com".to_owned(),
        password: "Password123!".to_owned(),
        requires_2fa: true,
    };
    signup(&mut users, request).unwrap();
    let refusal = login(
        &users,
        &mut broken,
        &DeadLetterBox,
        "secret",
        LoginRequest::new("bob@example.com".to_owned(), "Password123!".to_owned()),
    )
    .unwrap_err();
    let (status, body) = refusal.into_response();
    assert_eq!(status, 500);
    assert_eq!(body.error, "Unexpected error");

    // nor can a second factor be looked up
    let id = auth_service::domain::login_attempt_id::LoginAttemptId::default();
    let input = auth_service::routes::verify_2fa::VerifyToken::new(
        "bob@example.com".to_owned(),
        id.as_str().to_owned(),
        "123456".to_owned(),
    );
    let refusal = auth_service::routes::verify_2fa::verify_2fa(&mut broken, "secret", input)
        .err()
        .unwrap();
    assert!(matches!(refusal, AuthAPIError::IncorrectCredentials));

    let request = auth_service::routes::delete_account::DeleteAccountRequest {
        email: "bob@example.com".to_owned(),
    };
    let refusal =
        auth_service::routes::delete_account::delete_account(&mut broken, request).unwrap_err();
    assert_eq!(refusal.status_code(), 500);
}
