use crate::domain::data_store::UserStoreError;
use crate::domain::email::{is_valid_email, Email};
use crate::domain::password::{is_valid_password, Password};
use crate::domain::user::{User, UserView};
use argon2::password_hash::SaltString;
use argon2::{Algorithm, Argon2, Params, PasswordHash, PasswordHasher, PasswordVerifier, Version};
use vstd::prelude::*;

verus! {

/// Memory for one digest, in kibibytes.
pub const HASH_MEMORY_KIB: u32 = 15000;

/// Passes over the memory for one digest.
pub const HASH_PASSES: u32 = 2;

/// Lanes worked in parallel for one digest.
pub const HASH_LANES: u32 = 1;

/// The most lanes a digest can be made with.
pub const MAX_LANES: u32 = 0xFF_FFFF;

/// The name under which a digest tells its lanes.
pub const LANES_PARAM: &'static str = "p";

/// The most digits a number of lanes is written with.
pub const MAX_LANES_DIGITS: usize = 8;

/// Whether `argon2` verifies `candidate` against the digest `digest`:
/// whether `PasswordHash::new` reads the digest and
/// `Argon2::default().verify_password` then accepts the candidate.
pub uninterp spec fn argon2_accepts(digest: Seq<char>, candidate: Seq<char>) -> bool;

/// Whether `argon2` makes a digest of `password` with these costs:
/// whether `Params::new` admits them and `Argon2::hash_password` then
/// hashes the password. The salt has no part in it.
pub uninterp spec fn argon2_hashes(
    password: Seq<char>,
    memory_kib: u32,
    passes: u32,
    lanes: u32,
) -> bool;

/// The parameters that `PasswordHash::new` reads from `digest`, each as
/// its name and its value, in the order in which the digest tells them;
/// `None` where it does not read the digest.
pub uninterp spec fn argon2_digest_params(digest: Seq<char>) -> Option<
    Seq<(Seq<char>, Seq<char>)>,
>;

/// Parameters as plain values.
pub open spec fn params_text(params: Seq<(String, String)>) -> Seq<(Seq<char>, Seq<char>)> {
    Seq::new(params.len(), |i: int| (params[i].0@, params[i].1@))
}

/// No number of lanes among `params` is written with more digits than a
/// number of lanes can have.
pub open spec fn lanes_in_order(params: Seq<(Seq<char>, Seq<char>)>) -> bool {
    forall|i: int|
        0 <= i < params.len() && (#[trigger] params[i]).0 == LANES_PARAM@ ==> params[i].1.len()
            <= MAX_LANES_DIGITS
}

/// A digest that can be verified against: one that cannot be read, or
/// one whose lanes are in order. A digest that tells more lanes than
/// there can be accepts nothing, and is not handed on.
pub open spec fn digest_in_order(digest: Seq<char>) -> bool {
    argon2_digest_params(digest) matches Some(params) ==> lanes_in_order(params)
}

/// Digests `password` with `argon2`: a salt from `SaltString::generate`
/// over `rand::thread_rng()`, the parameters from `Params::new`, and
/// `Argon2::hash_password` under Argon2id, version 0x13. `None` where the
/// parameters or the digest are refused, which the costs and the
/// password decide, not the salt.
///
/// `Params::new` multiplies the lanes by eight before it compares them
/// with their maximum, so lanes beyond the maximum are kept out.
///
/// The salt is left to chance, and the digest with it. What holds of
/// every digest that comes out: it names its own algorithm, parameters and
/// salt, the lanes among them as they were given, so verifying the same
/// password against it computes the same output, and accepts.
#[verifier::external_body]
fn argon2_hash(password: &str, memory_kib: u32, passes: u32, lanes: u32) -> (hashed: Option<String>)
    requires
        lanes <= MAX_LANES,
    ensures
        hashed is Some <==> argon2_hashes(password@, memory_kib, passes, lanes),
        hashed matches Some(digest) ==> digest_in_order(digest@) && argon2_accepts(
            digest@,
            password@,
        ),
{
    let salt = SaltString::generate(&mut rand::thread_rng());
    let params = Params::new(memory_kib, passes, lanes, None).ok()?;
    let hasher = Argon2::new(Algorithm::Argon2id, Version::V0x13, params);
    let digest = hasher.hash_password(password.as_bytes(), &salt).ok()?;
    Some(digest.to_string())
}

/// Reads `digest` with `PasswordHash::new` and hands out its parameters
/// as `ParamsString::iter` gives them, each as the text of its name and
/// the text of its value. Nothing is computed from them here.
#[verifier::external_body]
fn digest_params(digest: &str) -> (params: Option<Vec<(String, String)>>)
    ensures
        params is Some <==> argon2_digest_params(digest@) is Some,
        params matches Some(pairs) ==> argon2_digest_params(digest@) == Some(params_text(pairs@)),
{
    let parsed = PasswordHash::new(digest).ok()?;
    let pairs = parsed.params.iter();
    Some(pairs.map(|(name, value)| (name.as_str().to_owned(), value.as_str().to_owned())).collect())
}

/// Reads `digest` with `PasswordHash::new` and verifies `candidate`
/// against it with `Argon2::default().verify_password`. A digest that
/// cannot be read accepts nothing.
///
/// Verifying builds the costs from the digest's parameters with
/// `Params::new`, which multiplies the lanes by eight before it compares
/// them with their maximum. A number of at most eight digits is below
/// the point where that product runs over, so digests that tell more are
/// kept out.
#[verifier::external_body]
fn argon2_verify(digest: &str, candidate: &str) -> (accepted: bool)
    requires
        digest_in_order(digest@),
    ensures
        accepted == argon2_accepts(digest@, candidate@),
{
    match PasswordHash::new(digest) {
        Ok(parsed) => Argon2::default().verify_password(candidate.as_bytes(), &parsed).is_ok(),
        Err(_) => false,
    }
}

/// Whether no number of lanes among `params` is written with more digits
/// than a number of lanes can have.
pub fn check_lanes(params: &Vec<(String, String)>) -> (in_order: bool)
    ensures
        in_order == lanes_in_order(params_text(params@)),
{
    let lanes = String::from_str(LANES_PARAM);
    let mut at: usize = 0;
    while at < params.len()
        invariant
            at <= params@.len(),
            lanes@ == LANES_PARAM@,
            forall|i: int|
                0 <= i < at && (#[trigger] params_text(params@)[i]).0 == LANES_PARAM@
                    ==> params_text(params@)[i].1.len() <= MAX_LANES_DIGITS,
        decreases params@.len() - at,
    {
        if params[at].0 == lanes && params[at].1.as_str().unicode_len() > MAX_LANES_DIGITS {
            assert(params_text(params@)[at as int].0 == LANES_PARAM@);
            return false;
        }
        at = at + 1;
    }
    true
}

/// Whether `expected_password_hash` is a digest that can be verified
/// against.
pub fn check_digest(expected_password_hash: &str) -> (in_order: bool)
    ensures
        in_order == digest_in_order(expected_password_hash@),
{
    match digest_params(expected_password_hash) {
        Some(params) => check_lanes(&params),
        None => true,
    }
}

/// What verifying `candidate` against `digest` comes to: the candidate
/// passes where the digest is in order and accepts it.
pub open spec fn verify_password_hash_model(digest: Seq<char>, candidate: Seq<char>) -> Result<
    (),
    UserStoreError,
> {
    if digest_in_order(digest) && argon2_accepts(digest, candidate) {
        Ok(())
    } else {
        Err(UserStoreError::InvalidCredentials)
    }
}

/// Whether `candidate` is the secret that `expected_password_hash` was
/// made of. The digest's parameters are looked at first, and a digest
/// that tells more lanes than there can be is refused unverified.
pub fn verify_password_hash(
    expected_password_hash: String,
    password_candidate: String,
) -> (verified: Result<(), UserStoreError>)
    ensures
        verified == verify_password_hash_model(expected_password_hash@, password_candidate@),
{
    if !check_digest(expected_password_hash.as_str()) {
        return Err(UserStoreError::InvalidCredentials);
    }
    if argon2_verify(expected_password_hash.as_str(), password_candidate.as_str()) {
        Ok(())
    } else {
        Err(UserStoreError::InvalidCredentials)
    }
}

/// A digest of `password`, salted at random, made with the costs
/// [`HASH_MEMORY_KIB`], [`HASH_PASSES`] and [`HASH_LANES`]. One comes out
/// exactly where `argon2` hashes the password with these costs, and
/// whichever comes out, it accepts `password`.
pub fn compute_password_hash(password: String) -> (hashed: Result<String, UserStoreError>)
    ensures
        hashed is Ok <==> argon2_hashes(password@, HASH_MEMORY_KIB, HASH_PASSES, HASH_LANES),
        hashed matches Ok(digest) ==> verify_password_hash_model(digest@, password@) == Ok::<
            (),
            UserStoreError,
        >(()),
        hashed matches Err(refusal) ==> refusal is UnexpectedError,
{
    match argon2_hash(password.as_str(), HASH_MEMORY_KIB, HASH_PASSES, HASH_LANES) {
        Some(digest) => Ok(digest),
        None => Err(UserStoreError::UnexpectedError),
    }
}

/// What a [`UserRow`] is, as plain values.
pub struct UserRowView {
    pub email: Seq<char>,
    pub password_hash: Seq<char>,
    pub requires_2fa: bool,
}

/// An identity as a relational table holds it: the secret is kept as its
/// digest, never as it was given.
#[derive(Debug)]
pub struct UserRow {
    pub email: String,
    pub password_hash: String,
    pub requires_2fa: bool,
}

impl View for UserRow {
    type V = UserRowView;

    open spec fn view(&self) -> UserRowView {
        UserRowView {
            email: self.email@,
            password_hash: self.password_hash@,
            requires_2fa: self.requires_2fa,
        }
    }
}

/// The row to insert for `user`: its secret is digested on the way. A
/// row comes out exactly where `argon2` hashes the secret with the costs
/// of [`compute_password_hash`].
pub fn row_for(user: &User) -> (row: Result<UserRow, UserStoreError>)
    ensures
        row is Ok <==> argon2_hashes(user@.password, HASH_MEMORY_KIB, HASH_PASSES, HASH_LANES),
        row matches Ok(row) ==> row@.email == user@.email && row@.requires_2fa
            == user@.requires_2fa && verify_password_hash_model(
            row@.password_hash,
            user@.password,
        ) == Ok::<(), UserStoreError>(()),
        row matches Err(refusal) ==> refusal is UnexpectedError,
{
    let password_hash = match compute_password_hash(user.password().as_str().to_owned()) {
        Ok(digest) => digest,
        Err(refusal) => {
            return Err(refusal);
        },
    };
    Ok(
        UserRow {
            email: user.email().as_str().to_owned(),
            password_hash,
            requires_2fa: user.requires_2fa(),
        },
    )
}

/// How an insert into the table ended.
#[derive(Debug, Clone, Copy, PartialEq, Eq, Structural)]
pub enum InsertOutcome {
    /// The row is in the table.
    Inserted,
    /// The table refused the row because it holds one with the same
    /// address.
    AddressTaken,
    /// The insert failed for any other reason.
    Failed,
}

/// The answer to putting an identity on record, once the insert was
/// tried: an address that the table holds already is refused as on
/// record, any other failure is the table's own.
pub fn inserted(outcome: InsertOutcome) -> (answer: Result<(), UserStoreError>)
    ensures
        answer == match outcome {
            InsertOutcome::Inserted => Ok::<(), UserStoreError>(()),
            InsertOutcome::AddressTaken => Err::<(), UserStoreError>(
                UserStoreError::UserAlreadyExists,
            ),
            InsertOutcome::Failed => Err::<(), UserStoreError>(UserStoreError::UnexpectedError),
        },
{
    match outcome {
        InsertOutcome::Inserted => Ok(()),
        InsertOutcome::AddressTaken => Err(UserStoreError::UserAlreadyExists),
        InsertOutcome::Failed => Err(UserStoreError::UnexpectedError),
    }
}

/// An answer that holds an identity, as plain values.
pub open spec fn row_answer_view(answer: Result<User, UserStoreError>) -> Result<
    UserView,
    UserStoreError,
> {
    match answer {
        Ok(user) => Ok(user@),
        Err(refusal) => Err(refusal),
    }
}

/// The identity that the answer to a lookup stands for.
///
/// No row means that the address is not on record. A row stands for the
/// identity with the digest in the place of the secret; a row whose
/// address or digest does not pass for one is a fault of the table.
pub open spec fn user_from_row_model(found: Option<UserRowView>) -> Result<
    UserView,
    UserStoreError,
> {
    match found {
        None => Err(UserStoreError::UserNotFound),
        Some(row) => if is_valid_email(row.email) && is_valid_password(row.password_hash) {
            Ok(
                UserView {
                    email: row.email,
                    password: row.password_hash,
                    requires_2fa: row.requires_2fa,
                },
            )
        } else {
            Err(UserStoreError::UnexpectedError)
        },
    }
}

/// The identity that the answer to a lookup stands for.
pub fn user_from_row(found: Option<UserRow>) -> (user: Result<User, UserStoreError>)
    ensures
        row_answer_view(user) == user_from_row_model(
            match found {
                Some(row) => Some(row@),
                None => None,
            },
        ),
{
    let row = match found {
        Some(row) => row,
        None => {
            return Err(UserStoreError::UserNotFound);
        },
    };
    let email = match Email::parse(row.email) {
        Ok(email) => email,
        Err(_) => {
            return Err(UserStoreError::UnexpectedError);
        },
    };
    let password = match Password::parse(row.password_hash) {
        Ok(password) => password,
        Err(_) => {
            return Err(UserStoreError::UnexpectedError);
        },
    };
    Ok(User::new(email, password, row.requires_2fa))
}

/// The answer to a validation, once the identity was looked up: the
/// identity, if the digest it holds accepts `candidate`. No identity and
/// a wrong secret are refused alike.
pub fn validated(found: Result<User, UserStoreError>, candidate: &Password) -> (answer: Result<
    User,
    UserStoreError,
>)
    ensures
        match found {
            Ok(user) => if verify_password_hash_model(user@.password, candidate@) is Ok {
                answer is Ok && answer->Ok_0@ == user@
            } else {
                answer == Err::<User, UserStoreError>(UserStoreError::InvalidCredentials)
            },
            Err(refusal) => answer == Err::<User, UserStoreError>(
                if refusal is UnexpectedError {
                    UserStoreError::UnexpectedError
                } else {
                    UserStoreError::InvalidCredentials
                },
            ),
        },
{
    let user = match found {
        Ok(user) => user,
        Err(UserStoreError::UnexpectedError) => {
            return Err(UserStoreError::UnexpectedError);
        },
        Err(_) => {
            return Err(UserStoreError::InvalidCredentials);
        },
    };
    let digest = user.password().as_str().to_owned();
    let secret = candidate.as_str().to_owned();
    match verify_password_hash(digest, secret) {
        Ok(_) => Ok(user),
        Err(refusal) => Err(refusal),
    }
}

/// The answer to a deletion that took `rows_affected` rows off the table.
pub fn deleted(rows_affected: u64) -> (answer: Result<(), UserStoreError>)
    ensures
        answer == if rows_affected == 0 {
            Err::<(), UserStoreError>(UserStoreError::UserNotFound)
        } else {
            Ok::<(), UserStoreError>(())
        },
{
    if rows_affected == 0 {
        Err(UserStoreError::UserNotFound)
    } else {
        Ok(())
    }
}

} // verus!
