use auth_service::domain::data_store::{TwoFACodeStoreError, UserStoreError};
use auth_service::domain::email::Email;
use auth_service::domain::error::{log_error_chain, AuthAPIError};
use auth_service::domain::login_attempt_id::LoginAttemptId;
use auth_service::domain::password::Password;
use auth_service::domain::two_fa_code::TwoFACode;
use auth_service::domain::user::User;
use auth_service::services::postgres_user_store::{
    check_digest, check_lanes, compute_password_hash, deleted, inserted, row_for, user_from_row,
    validated, verify_password_hash, InsertOutcome, UserRow,
};
use auth_service::services::redis_banned_token_store;
use auth_service::services::redis_banned_token_store::{ban_command, is_banned, revocation_ttl};
use auth_service::services::redis_two_fa_code_store;
use auth_service::services::redis_two_fa_code_store::{
    add_code_command, record_from_reply, TwoFaTuple,
};
use auth_service::utils::auth::generate_auth_token_at;

const SECRET: &str = "secret";

#[test]
fn error_responses() {
    let cases = [
        (AuthAPIError::UserAlreadyExists, 409, "User already exist"),
        (AuthAPIError::UserNotFound, 404, "User not found"),
        (AuthAPIError::IncorrectCredentials, 401, "Invalid credentials"),
        (AuthAPIError::MissingToken, 400, "Missing JWT Token!"),
        (AuthAPIError::MismatchIdentification, 401, "Mismatch identity"),
        (AuthAPIError::InvalidToken, 401, "Invalid JWT Token"),
        (AuthAPIError::UnexpectedError("the pool is closed".to_owned()), 500, "the pool is closed"),
        (AuthAPIError::InvalidData("Email".to_owned()), 400, "Invalid data: Email"),
        (AuthAPIError::InvalidData("".to_owned()), 400, "Invalid data: "),
    ];
    for (refusal, status, words) in cases {
        assert_eq!(refusal.status_code(), status);
        let (sent, body) = refusal.into_response();
        assert_eq!(sent, status);
        assert_eq!(body.error, words);
    }
}

#[test]
fn error_messages() {
    assert_eq!(AuthAPIError::UserAlreadyExists.message(), "User already exist!");
    assert_eq!(AuthAPIError::UserNotFound.message(), "User not found");
    assert_eq!(AuthAPIError::IncorrectCredentials.message(), "Incorrect credentials was used");
    assert_eq!(
        AuthAPIError::UnexpectedError("x".to_owned()).message(),
        "Something terribly happen, may you qualify as a QA tester someday in the future"
    );
    assert_eq!(AuthAPIError::MissingToken.message(), "No JWT token was provided");
    assert_eq!(
        AuthAPIError::InvalidToken.message(),
        "Oh look here, someone forging JWT. This incident will be logged and reported"
    );
    assert_eq!(
        AuthAPIError::InvalidData("Email".to_owned()).message(),
        "Invalid data input: Email"
    );
    assert_eq!(AuthAPIError::MismatchIdentification.message(), "Mismatch identification");
}

#[test]
fn error_chain_is_laid_out_between_two_rules() {
    let rule = "\n-------------------------------------------------------------------\n";
    let alone = log_error_chain("MissingToken", &vec![]);
    assert_eq!(alone, format!("{}MissingToken\n\n{}", rule, rule));
    let causes = vec!["timed out".to_owned(), "connection reset".to_owned()];
    let chained = log_error_chain("UnexpectedError", &causes);
    assert_eq!(
        chained,
        format!(
            "{}UnexpectedError\n\nCaused by:\n\ntimed out\nCaused by:\n\nconnection reset\n{}",
            rule, rule
        )
    );
}

#[test]
fn password_digest_accepts_its_password_only() {
    let digest = compute_password_hash("Password123!".to_owned()).unwrap();
    assert!(digest.starts_with("$argon2id$v=19$m=15000,t=2,p=1$"));
    assert!(digest != "Password123!");
    assert_eq!(verify_password_hash(digest.clone(), "Password123!".to_owned()), Ok(()));
    assert_eq!(
        verify_password_hash(digest.clone(), "Password123?".to_owned()),
        Err(UserStoreError::InvalidCredentials)
    );
    assert_eq!(
        verify_password_hash(digest.clone(), "".to_owned()),
        Err(UserStoreError::InvalidCredentials)
    );
    // the salt is drawn anew each time
    let other = compute_password_hash("Password123!".to_owned()).unwrap();
    assert!(other != digest);
    assert_eq!(verify_password_hash(other, "Password123!".to_owned()), Ok(()));
    // what is no digest accepts nothing
    assert_eq!(
        verify_password_hash("Password123!".to_owned(), "Password123!".to_owned()),
        Err(UserStoreError::InvalidCredentials)
    );
}

#[test]
fn row_holds_the_digest_in_place_of_the_secret() {
    let user = User::parse("test@test.com".to_owned(), "password123!".to_owned(), true).unwrap();
    let row = row_for(&user).unwrap();
    assert_eq!(row.email, "test@test.com");
    assert!(row.requires_2fa);
    assert!(row.password_hash != "password123!");
    assert_eq!(
        verify_password_hash(row.password_hash.clone(), "password123!".to_owned()),
        Ok(())
    );

    let found = user_from_row(Some(row)).unwrap();
    assert_eq!(found.email().as_str(), "test@test.com");
    assert!(found.requires_2fa());
    let right = Password::parse("password123!".to_owned()).unwrap();
    let wrong = Password::parse("password123?".to_owned()).unwrap();
    let user = validated(Ok(found.clone()), &right).unwrap();
    assert_eq!(user.email().as_str(), "test@test.com");
    assert_eq!(
        validated(Ok(found), &wrong).err().unwrap(),
        UserStoreError::InvalidCredentials
    );
}

#[test]
fn lookup_answers() {
    assert_eq!(user_from_row(None).err().unwrap(), UserStoreError::UserNotFound);
    let broken = UserRow {
        email: "no address".to_owned(),
        password_hash: "$argon2id$whatever".to_owned(),
        requires_2fa: false,
    };
    assert_eq!(user_from_row(Some(broken)).err().unwrap(), UserStoreError::UnexpectedError);
    let broken = UserRow {
        email: "test@test.com".to_owned(),
        password_hash: "short".to_owned(),
        requires_2fa: false,
    };
    assert_eq!(user_from_row(Some(broken)).err().unwrap(), UserStoreError::UnexpectedError);
    let candidate = Password::parse("password123!".to_owned()).unwrap();
    assert_eq!(
        validated(Err(UserStoreError::UserNotFound), &candidate).err().unwrap(),
        UserStoreError::InvalidCredentials
    );
    assert_eq!(
        validated(Err(UserStoreError::UnexpectedError), &candidate).err().unwrap(),
        UserStoreError::UnexpectedError
    );
    assert_eq!(deleted(0), Err(UserStoreError::UserNotFound));
    assert_eq!(deleted(1), Ok(()));
    assert_eq!(deleted(2), Ok(()));
}

#[test]
fn revoked_token_key() {
    assert_eq!(redis_banned_token_store::get_key("token"), "banned_tokentoken");
    assert_eq!(redis_banned_token_store::get_key(""), "banned_token");
}

#[test]
fn revocation_outlives_the_token() {
    // the time the token has left
    assert_eq!(revocation_ttl(Some(1600), 1000), 600);
    assert_eq!(revocation_ttl(Some(1600), 1599), 1);
    assert_eq!(revocation_ttl(Some(5000), 1000), 4000);
    // none left, or nothing known: the full life of a token
    assert_eq!(revocation_ttl(Some(1600), 1600), 600);
    assert_eq!(revocation_ttl(Some(1600), 2000), 600);
    assert_eq!(revocation_ttl(None, 1000), 600);
    // a clock before the epoch
    assert_eq!(revocation_ttl(Some(100), -50), 150);
    assert_eq!(revocation_ttl(Some(0), -1), 1);

    let email = Email::parse("test@test.com".to_owned()).unwrap();
    let token = generate_auth_token_at(&email, SECRET, 1000).unwrap();
    let (key, ttl) = ban_command(&token, SECRET, 1200);
    assert_eq!(key, format!("banned_token{}", token));
    assert_eq!(ttl, 400);
    let (key, ttl) = ban_command("not a token", SECRET, 1200);
    assert_eq!(key, "banned_tokennot a token");
    assert_eq!(ttl, 600);
    // a token signed with another key is no token of ours
    let (_, ttl) = ban_command(&token, "another key", 1200);
    assert_eq!(ttl, 600);
}

#[test]
fn revocation_answers() {
    assert!(is_banned(Some(1)));
    assert!(is_banned(Some(2)));
    assert!(!is_banned(Some(0)));
    assert!(!is_banned(None));
}

#[test]
fn challenge_is_written_as_a_pair_and_reads_back() {
    let email = Email::parse("test@test.com".to_owned()).unwrap();
    let id = LoginAttemptId::parse("550e8400-e29b-41d4-a716-446655440000".to_owned()).unwrap();
    let code = TwoFACode::from_number(42);
    assert_eq!(redis_two_fa_code_store::get_key(&email), "two_fa_code:test@test.com");
    let command = add_code_command(&email, &id, &code).unwrap();
    assert_eq!(command.key, "two_fa_code:test@test.com");
    assert_eq!(command.value, "[\"550e8400-e29b-41d4-a716-446655440000\",\"000042\"]");
    assert_eq!(command.ttl, 600);
    let record = record_from_reply(Some(command.value)).unwrap();
    assert!(record.id == id);
    assert!(record.code == code);
    let tuple = TwoFaTuple("a".to_owned(), "b".to_owned());
    assert_eq!(tuple.0, "a");
    assert_eq!(tuple.1, "b");
}

#[test]
fn challenge_lookup_answers() {
    assert_eq!(
        record_from_reply(None).err().unwrap(),
        TwoFACodeStoreError::LoginAttemptIdNotFound
    );
    for broken in [
        "",
        "not json",
        "[\"550e8400-e29b-41d4-a716-446655440000\"]",
        "[\"not an id\",\"000042\"]",
        "[\"550e8400-e29b-41d4-a716-446655440000\",\"42\"]",
        "[\"550e8400-e29b-41d4-a716-446655440000\",\"000042\",\"more\"]",
    ] {
        assert_eq!(
            record_from_reply(Some(broken.to_owned())).err().unwrap(),
            TwoFACodeStoreError::UnexpectedError
        );
    }
    // an attempt in another spelling is read into the canonical one
    let record = record_from_reply(Some(
        "[\"550E8400E29B41D4A716446655440000\",\"000042\"]".to_owned(),
    ))
    .unwrap();
    assert_eq!(record.id.as_str(), "550e8400-e29b-41d4-a716-446655440000");
}

#[test]
fn digest_that_tells_too_many_lanes_is_refused_unverified() {
    let digest = compute_password_hash("Password123!".to_owned()).unwrap();
    assert!(check_digest(&digest));
    for lanes in ["536870912", "4294967295", "100000000", "000000001"] {
        let forged = digest.replace("p=1$", &format!("p={}$", lanes));
        assert!(forged != digest);
        assert!(!check_digest(&forged));
        assert_eq!(
            verify_password_hash(forged, "Password123!".to_owned()),
            Err(UserStoreError::InvalidCredentials)
        );
    }
    // lanes of eight digits are looked at by the verifier, which refuses them
    let forged = digest.replace("p=1$", "p=99999999$");
    assert!(check_digest(&forged));
    assert_eq!(
        verify_password_hash(forged, "Password123!".to_owned()),
        Err(UserStoreError::InvalidCredentials)
    );
    // what cannot be read as a digest has no lanes to look at
    assert!(check_digest("no digest"));
    assert!(check_digest(""));
}

#[test]
fn lanes_are_looked_up_by_name() {
    let pair = |name: &str, value: &str| (name.to_owned(), value.to_owned());
    assert!(check_lanes(&vec![]));
    assert!(check_lanes(&vec![pair("m", "15000"), pair("t", "2"), pair("p", "1")]));
    assert!(check_lanes(&vec![pair("p", "16777215")]));
    assert!(!check_lanes(&vec![pair("p", "536870912")]));
    assert!(!check_lanes(&vec![pair("m", "15000"), pair("p", "123456789"), pair("t", "2")]));
    // only the lanes are held to the limit
    assert!(check_lanes(&vec![pair("m", "4294967295"), pair("t", "4294967295")]));
    assert!(!check_lanes(&vec![pair("p", "1"), pair("p", "536870912")]));
}

#[test]
fn insert_answers() {
    assert_eq!(inserted(InsertOutcome::Inserted), Ok(()));
    assert_eq!(
        inserted(InsertOutcome::AddressTaken),
        Err(UserStoreError::UserAlreadyExists)
    );
    assert_eq!(inserted(InsertOutcome::Failed), Err(UserStoreError::UnexpectedError));
}
