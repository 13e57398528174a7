use crate::domain::email::Email;
use crate::domain::login_attempt_id::LoginAttemptId;
use crate::domain::password::Password;
use crate::domain::two_fa_code::TwoFACode;
use crate::domain::user::{User, UserView};
use vstd::prelude::*;

verus! {

/// Why an identity store refused a request.
#[derive(Debug, Clone, Copy, PartialEq, Eq, Structural)]
pub enum UserStoreError {
    UserAlreadyExists,
    UserNotFound,
    InvalidCredentials,
    UnexpectedError,
}

impl UserStoreError {
    /// The refusal in words.
    pub open spec fn message_text(self) -> Seq<char> {
        match self {
            UserStoreError::UserAlreadyExists => "User already exists"@,
            UserStoreError::UserNotFound => "User not found"@,
            UserStoreError::InvalidCredentials => "Invalid credentials"@,
            UserStoreError::UnexpectedError => "Unexpected error"@,
        }
    }

    /// The refusal in words.
    pub fn message(&self) -> (text: String)
        ensures
            text@ == self.message_text(),
    {
        match self {
            UserStoreError::UserAlreadyExists => String::from_str("User already exists"),
            UserStoreError::UserNotFound => String::from_str("User not found"),
            UserStoreError::InvalidCredentials => String::from_str("Invalid credentials"),
            UserStoreError::UnexpectedError => String::from_str("Unexpected error"),
        }
    }
}

/// What [`UserStore::add_user`] does to the identities on record when
/// nothing is in its way: it refuses an address that is on record, and
/// puts any other on record.
pub open spec fn add_user_model(users: Map<Seq<char>, UserView>, user: UserView) -> (
    Map<Seq<char>, UserView>,
    Result<(), UserStoreError>,
) {
    if users.contains_key(user.email) {
        (users, Err(UserStoreError::UserAlreadyExists))
    } else {
        (users.insert(user.email, user), Ok(()))
    }
}

/// What [`UserStore::get_user`] answers when nothing is in its way.
pub open spec fn get_user_model(users: Map<Seq<char>, UserView>, email: Seq<char>) -> Result<
    UserView,
    UserStoreError,
> {
    if users.contains_key(email) {
        Ok(users[email])
    } else {
        Err(UserStoreError::UserNotFound)
    }
}

/// What [`UserStore::validate_user`] answers when nothing is in its way.
/// An address that is not on record and a secret that does not match give
/// the same refusal, so that the answer does not tell which addresses are
/// on record.
pub open spec fn validate_user_model(
    users: Map<Seq<char>, UserView>,
    email: Seq<char>,
    password: Seq<char>,
) -> Result<UserView, UserStoreError> {
    if users.contains_key(email) && users[email].password == password {
        Ok(users[email])
    } else {
        Err(UserStoreError::InvalidCredentials)
    }
}

/// What [`UserStore::delete_user`] does to the identities on record when
/// nothing is in its way.
pub open spec fn delete_user_model(users: Map<Seq<char>, UserView>, email: Seq<char>) -> (
    Map<Seq<char>, UserView>,
    Result<(), UserStoreError>,
) {
    if users.contains_key(email) {
        (users.remove(email), Ok(()))
    } else {
        (users, Err(UserStoreError::UserNotFound))
    }
}

/// An address is put on record once: whatever a first request for it
/// came to, a second one for the same address is refused as on record
/// already, and changes nothing.
pub proof fn lemma_second_add_is_refused(
    users: Map<Seq<char>, UserView>,
    first: UserView,
    second: UserView,
)
    requires
        first.email == second.email,
    ensures
        ({
            let after = add_user_model(users, first).0;
            add_user_model(after, second) == (
                after,
                Err::<(), UserStoreError>(UserStoreError::UserAlreadyExists),
            )
        }),
{
}

/// An identity that was put on record validates with its own secret, and
/// comes back as it was given.
pub proof fn lemma_added_user_validates(users: Map<Seq<char>, UserView>, user: UserView)
    requires
        add_user_model(users, user).1 is Ok,
    ensures
        validate_user_model(add_user_model(users, user).0, user.email, user.password) == Ok::<
            UserView,
            UserStoreError,
        >(user),
{
}

/// An answer that holds an identity, as plain values.
pub open spec fn user_answer_view(answer: Result<User, UserStoreError>) -> Result<
    UserView,
    UserStoreError,
> {
    match answer {
        Ok(user) => Ok(user@),
        Err(refusal) => Err(refusal),
    }
}

/// The record of identities, one for each address.
///
/// A store that is [`dependable`](UserStore::dependable) is seen as the map
/// from addresses to the identities on record, and its answers are the
/// ones of the model functions of this module. Of any other store, one
/// that may fail for reasons of its own or keeps secrets in another form,
/// only what can be read off its answers is stated.
pub trait UserStore {
    /// The identities on record, by address. A store that is not
    /// dependable shows nothing here.
    open spec fn view(&self) -> Map<Seq<char>, UserView> {
        Map::empty()
    }

    /// Whether this store answers from its record alone: it loses
    /// nothing, fails for no reason of its own, and keeps identities as
    /// they were given.
    open spec fn dependable(&self) -> bool {
        false
    }

    /// Puts `user` on record, unless its address is on record already.
    fn add_user(&mut self, user: User) -> (added: Result<(), UserStoreError>)
        ensures
            final(self).dependable() == old(self).dependable(),
            added matches Err(refusal) ==> refusal is UserAlreadyExists
                || refusal is UnexpectedError,
            old(self).dependable() ==> (final(self)@, added) == add_user_model(old(self)@, user@),
    ;

    /// The identity on record for `email`.
    fn get_user(&self, email: &Email) -> (found: Result<User, UserStoreError>)
        ensures
            found matches Ok(user) ==> user@.email == email@,
            found matches Err(refusal) ==> refusal is UserNotFound || refusal is UnexpectedError,
            self.dependable() ==> user_answer_view(found) == get_user_model(self@, email@),
    ;

    /// The identity on record for `email`, if `password` is its secret.
    /// An address that is not on record and a secret that does not match
    /// are refused alike.
    fn validate_user(&self, email: &Email, password: &Password) -> (found: Result<
        User,
        UserStoreError,
    >)
        ensures
            found matches Ok(user) ==> user@.email == email@,
            found matches Err(refusal) ==> refusal is InvalidCredentials
                || refusal is UnexpectedError,
            self.dependable() ==> user_answer_view(found) == validate_user_model(
                self@,
                email@,
                password@,
            ),
    ;

    /// Takes the identity of `email` off the record.
    fn delete_user(&mut self, email: Email) -> (deleted: Result<(), UserStoreError>)
        ensures
            final(self).dependable() == old(self).dependable(),
            deleted matches Err(refusal) ==> refusal is UserNotFound || refusal is UnexpectedError,
            old(self).dependable() ==> (final(self)@, deleted) == delete_user_model(
                old(self)@,
                email@,
            ),
    ;
}

/// Why a revocation ledger refused a request.
#[derive(Debug, Clone, Copy, PartialEq, Eq, Structural)]
pub enum BannedTokenStoreError {
    TokenExist,
    TokenDoNotExist,
    UnexpectedError,
}

impl BannedTokenStoreError {
    /// The refusal in words.
    pub open spec fn message_text(self) -> Seq<char> {
        match self {
            BannedTokenStoreError::TokenExist => "Token already exist!"@,
            BannedTokenStoreError::TokenDoNotExist => "Token do not exist!"@,
            BannedTokenStoreError::UnexpectedError => "Unexpected error"@,
        }
    }

    /// The refusal in words.
    pub fn message(&self) -> (text: String)
        ensures
            text@ == self.message_text(),
    {
        match self {
            BannedTokenStoreError::TokenExist => String::from_str("Token already exist!"),
            BannedTokenStoreError::TokenDoNotExist => String::from_str("Token do not exist!"),
            BannedTokenStoreError::UnexpectedError => String::from_str("Unexpected error"),
        }
    }
}

/// What [`BannedTokenStore::add_token`] does to the revoked tokens when
/// nothing is in its way. Whatever it answers, the token is revoked
/// afterwards.
pub open spec fn add_token_model(banned: Set<Seq<char>>, token: Seq<char>) -> (
    Set<Seq<char>>,
    Result<(), BannedTokenStoreError>,
) {
    if banned.contains(token) {
        (banned, Err(BannedTokenStoreError::TokenExist))
    } else {
        (banned.insert(token), Ok(()))
    }
}

/// The ledger of tokens that were revoked before they ran out.
///
/// A ledger that is [`dependable`](BannedTokenStore::dependable) is seen
/// as the set of tokens it holds revoked. Any other ledger may fail for
/// reasons of its own, and may let an entry go once the token it names
/// has run out.
pub trait BannedTokenStore {
    /// The tokens held revoked. A ledger that is not dependable shows
    /// nothing here.
    open spec fn view(&self) -> Set<Seq<char>> {
        Set::empty()
    }

    /// Whether this ledger answers from its record alone: it loses
    /// nothing and fails for no reason of its own.
    open spec fn dependable(&self) -> bool {
        false
    }

    /// Revokes `token`.
    fn add_token(&mut self, token: &str) -> (added: Result<(), BannedTokenStoreError>)
        ensures
            final(self).dependable() == old(self).dependable(),
            added matches Err(refusal) ==> refusal is TokenExist || refusal is UnexpectedError,
            old(self).dependable() ==> (final(self)@, added) == add_token_model(old(self)@, token@),
    ;

    /// Whether `token` is held revoked. A ledger that cannot tell says
    /// that it is not.
    fn check_token(&self, token: &str) -> (banned: bool)
        ensures
            self.dependable() ==> banned == self@.contains(token@),
    ;
}

/// Why a challenge store refused a request.
#[derive(Debug, Clone, Copy, PartialEq, Eq, Structural)]
pub enum TwoFACodeStoreError {
    /// No challenge is open for the address.
    LoginAttemptIdNotFound,
    NotFound,
    /// A challenge is open for the address, and the attempt or the code
    /// that was presented is not the one it holds.
    Mismatch,
    UnexpectedError,
}

impl TwoFACodeStoreError {
    /// The refusal in words.
    pub open spec fn message_text(self) -> Seq<char> {
        match self {
            TwoFACodeStoreError::LoginAttemptIdNotFound => "Login Attempt ID not found"@,
            TwoFACodeStoreError::NotFound => "Not found"@,
            TwoFACodeStoreError::Mismatch => "Mismatch identification"@,
            TwoFACodeStoreError::UnexpectedError => "Unexpected error"@,
        }
    }

    /// The refusal in words.
    pub fn message(&self) -> (text: String)
        ensures
            text@ == self.message_text(),
    {
        match self {
            TwoFACodeStoreError::LoginAttemptIdNotFound => String::from_str(
                "Login Attempt ID not found",
            ),
            TwoFACodeStoreError::NotFound => String::from_str("Not found"),
            TwoFACodeStoreError::Mismatch => String::from_str("Mismatch identification"),
            TwoFACodeStoreError::UnexpectedError => String::from_str("Unexpected error"),
        }
    }
}

/// What a [`TwoFARecord`] is, as plain values.
pub struct TwoFARecordView {
    pub id: Seq<char>,
    pub code: Seq<char>,
}

/// The open challenge of one address: the login attempt it belongs to and
/// the code that answers it.
pub struct TwoFARecord {
    pub id: LoginAttemptId,
    pub code: TwoFACode,
}

impl View for TwoFARecord {
    type V = TwoFARecordView;

    open spec fn view(&self) -> TwoFARecordView {
        TwoFARecordView { id: self.id@, code: self.code@ }
    }
}

impl Clone for TwoFARecord {
    fn clone(&self) -> (copy: Self)
        ensures
            copy@ == self@,
    {
        TwoFARecord { id: self.id.clone(), code: self.code.clone() }
    }
}

/// What [`TwoFACodeStore::add_code`] does to the open challenges when
/// nothing is in its way: the new challenge takes the place of the one
/// that was open for the address, if any.
pub open spec fn add_code_model(
    challenges: Map<Seq<char>, TwoFARecordView>,
    email: Seq<char>,
    id: Seq<char>,
    code: Seq<char>,
) -> Map<Seq<char>, TwoFARecordView> {
    challenges.insert(email, TwoFARecordView { id, code })
}

/// What [`TwoFACodeStore::get_code`] answers when nothing is in its way.
pub open spec fn get_code_model(challenges: Map<Seq<char>, TwoFARecordView>, email: Seq<char>)
    -> Result<TwoFARecordView, TwoFACodeStoreError> {
    if challenges.contains_key(email) {
        Ok(challenges[email])
    } else {
        Err(TwoFACodeStoreError::LoginAttemptIdNotFound)
    }
}

/// What [`TwoFACodeStore::remove_code`] does to the open challenges when
/// nothing is in its way.
pub open spec fn remove_code_model(challenges: Map<Seq<char>, TwoFARecordView>, email: Seq<char>)
    -> (Map<Seq<char>, TwoFARecordView>, Result<(), TwoFACodeStoreError>) {
    if challenges.contains_key(email) {
        (challenges.remove(email), Ok(()))
    } else {
        (challenges, Err(TwoFACodeStoreError::LoginAttemptIdNotFound))
    }
}

/// What [`redeem`] does to the open challenges when nothing is in its
/// way: a challenge is closed by the attempt and the code it holds, once,
/// and by nothing else.
pub open spec fn redeem_model(
    challenges: Map<Seq<char>, TwoFARecordView>,
    email: Seq<char>,
    id: Seq<char>,
    code: Seq<char>,
) -> (Map<Seq<char>, TwoFARecordView>, Result<(), TwoFACodeStoreError>) {
    if !challenges.contains_key(email) {
        (challenges, Err(TwoFACodeStoreError::LoginAttemptIdNotFound))
    } else if challenges[email].id == id && challenges[email].code == code {
        (challenges.remove(email), Ok(()))
    } else {
        (challenges, Err(TwoFACodeStoreError::Mismatch))
    }
}

/// A challenge is good once: the pair that closes it finds no challenge
/// the second time.
pub proof fn lemma_challenge_redeems_once(
    challenges: Map<Seq<char>, TwoFARecordView>,
    email: Seq<char>,
    id: Seq<char>,
    code: Seq<char>,
)
    requires
        challenges.contains_key(email),
        challenges[email] == (TwoFARecordView { id, code }),
    ensures
        redeem_model(challenges, email, id, code).1 is Ok,
        redeem_model(redeem_model(challenges, email, id, code).0, email, id, code).1 == Err::<
            (),
            TwoFACodeStoreError,
        >(TwoFACodeStoreError::LoginAttemptIdNotFound),
{
}

/// A challenge that is opened for an address replaces the one that was
/// open: the earlier attempt no longer closes anything, whatever code is
/// presented with it, and the later pair does.
pub proof fn lemma_new_challenge_replaces_old(
    challenges: Map<Seq<char>, TwoFARecordView>,
    email: Seq<char>,
    first_id: Seq<char>,
    first_code: Seq<char>,
    second_id: Seq<char>,
    second_code: Seq<char>,
    any_code: Seq<char>,
)
    requires
        first_id != second_id,
    ensures
        ({
            let once = add_code_model(challenges, email, first_id, first_code);
            let twice = add_code_model(once, email, second_id, second_code);
            &&& redeem_model(twice, email, first_id, any_code) == (
                twice,
                Err::<(), TwoFACodeStoreError>(TwoFACodeStoreError::Mismatch),
            )
            &&& redeem_model(twice, email, second_id, second_code).1 is Ok
        }),
{
}

/// A pair that is wrong in either half is refused in the same way, and
/// leaves the challenge open: the right attempt with a wrong code, and a
/// wrong attempt with the right code.
pub proof fn lemma_wrong_half_is_mismatch(
    challenges: Map<Seq<char>, TwoFARecordView>,
    email: Seq<char>,
    id: Seq<char>,
    code: Seq<char>,
    wrong_id: Seq<char>,
    wrong_code: Seq<char>,
)
    requires
        challenges.contains_key(email),
        challenges[email] == (TwoFARecordView { id, code }),
        wrong_id != id,
        wrong_code != code,
    ensures
        redeem_model(challenges, email, id, wrong_code) == (
            challenges,
            Err::<(), TwoFACodeStoreError>(TwoFACodeStoreError::Mismatch),
        ),
        redeem_model(challenges, email, wrong_id, code) == (
            challenges,
            Err::<(), TwoFACodeStoreError>(TwoFACodeStoreError::Mismatch),
        ),
{
}

/// An answer that holds a challenge, as plain values.
pub open spec fn record_answer_view(answer: Result<TwoFARecord, TwoFACodeStoreError>) -> Result<
    TwoFARecordView,
    TwoFACodeStoreError,
> {
    match answer {
        Ok(record) => Ok(record@),
        Err(refusal) => Err(refusal),
    }
}

/// The open second-factor challenges, at most one for each address.
///
/// A store that is [`dependable`](TwoFACodeStore::dependable) is seen as
/// the map from addresses to their open challenges. Any other store may
/// fail for reasons of its own, and lets a challenge go when its time is
/// up.
pub trait TwoFACodeStore {
    /// The open challenges, by address. A store that is not dependable
    /// shows nothing here.
    open spec fn view(&self) -> Map<Seq<char>, TwoFARecordView> {
        Map::empty()
    }

    /// Whether this store answers from its record alone: it loses
    /// nothing and fails for no reason of its own.
    open spec fn dependable(&self) -> bool {
        false
    }

    /// Opens a challenge for `email`, in place of the one that was open.
    fn add_code(&mut self, email: Email, id: LoginAttemptId, code: TwoFACode) -> (added: Result<
        (),
        TwoFACodeStoreError,
    >)
        ensures
            final(self).dependable() == old(self).dependable(),
            added matches Err(refusal) ==> refusal is UnexpectedError,
            old(self).dependable() ==> added is Ok && final(self)@ == add_code_model(
                old(self)@,
                email@,
                id@,
                code@,
            ),
    ;

    /// Closes the challenge of `email`.
    fn remove_code(&mut self, email: &Email) -> (removed: Result<(), TwoFACodeStoreError>)
        ensures
            final(self).dependable() == old(self).dependable(),
            removed matches Err(refusal) ==> refusal is LoginAttemptIdNotFound
                || refusal is UnexpectedError,
            old(self).dependable() ==> (final(self)@, removed) == remove_code_model(
                old(self)@,
                email@,
            ),
    ;

    /// The open challenge of `email`.
    fn get_code(&self, email: &Email) -> (found: Result<TwoFARecord, TwoFACodeStoreError>)
        ensures
            found matches Err(refusal) ==> refusal is LoginAttemptIdNotFound
                || refusal is UnexpectedError,
            self.dependable() ==> record_answer_view(found) == get_code_model(self@, email@),
    ;
}

/// Whether `record` holds the attempt and the code that are presented.
/// Both are compared, whichever of them differs.
pub fn challenge_matches(
    record: &TwoFARecord,
    id: &LoginAttemptId,
    code: &TwoFACode,
) -> (same: bool)
    ensures
        same == (record@.id == id@ && record@.code == code@),
{
    let same_attempt = record.id == *id;
    let same_code = record.code == *code;
    same_attempt && same_code
}

/// Closes the challenge of `email` with the attempt and the code that
/// were presented. Both are compared, whichever of them differs, and the
/// challenge stays open unless both are the ones it holds.
pub fn redeem<S: TwoFACodeStore + ?Sized>(
    store: &mut S,
    email: &Email,
    id: &LoginAttemptId,
    code: &TwoFACode,
) -> (redeemed: Result<(), TwoFACodeStoreError>)
    ensures
        final(store).dependable() == old(store).dependable(),
        redeemed matches Err(refusal) ==> refusal is LoginAttemptIdNotFound || refusal is Mismatch
            || refusal is UnexpectedError,
        old(store).dependable() ==> (final(store)@, redeemed) == redeem_model(
            old(store)@,
            email@,
            id@,
            code@,
        ),
{
    let record = match store.get_code(email) {
        Ok(record) => record,
        Err(refusal) => {
            return Err(refusal);
        },
    };
    if !challenge_matches(&record, id, code) {
        return Err(TwoFACodeStoreError::Mismatch);
    }
    store.remove_code(email)
}

} // verus!
