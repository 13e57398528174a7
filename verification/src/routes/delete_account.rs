use crate::domain::data_store::{delete_user_model, UserStore, UserStoreError};
use crate::domain::email::{is_valid_email, Email};
use crate::domain::error::{AuthAPIError, AuthAPIErrorView};
use crate::domain::user::UserView;
use crate::routes::login::STATUS_OK;
use vstd::prelude::*;

verus! {

/// What the deletion of an account is asked with.
#[derive(Debug)]
pub struct DeleteAccountRequest {
    pub email: String,
}

/// An answer to a deletion, as plain values.
pub open spec fn delete_answer_view(answer: Result<u16, AuthAPIError>) -> Result<
    u16,
    AuthAPIErrorView,
> {
    match answer {
        Ok(status) => Ok(status),
        Err(refusal) => Err(refusal@),
    }
}

/// What the deletion of an account does when nothing is in its way.
pub open spec fn delete_account_model(users: Map<Seq<char>, UserView>, email: Seq<char>) -> (
    Map<Seq<char>, UserView>,
    Result<u16, AuthAPIErrorView>,
) {
    if !is_valid_email(email) {
        (users, Err(AuthAPIErrorView::InvalidData("Email"@)))
    } else {
        let (left, deleted) = delete_user_model(users, email);
        match deleted {
            Ok(_) => (left, Ok(STATUS_OK)),
            Err(_) => (left, Err(AuthAPIErrorView::UserNotFound)),
        }
    }
}

/// Takes an identity off the record.
pub fn delete_account<U: UserStore + ?Sized>(
    users: &mut U,
    request: DeleteAccountRequest,
) -> (answer: Result<u16, AuthAPIError>)
    ensures
        final(users).dependable() == old(users).dependable(),
        !is_valid_email(request.email@) ==> answer is Err && answer->Err_0@
            == AuthAPIErrorView::InvalidData("Email"@) && final(users)@ == old(users)@,
        answer matches Ok(status) ==> status == STATUS_OK && is_valid_email(request.email@),
        answer matches Err(refusal) ==> refusal is InvalidData || refusal is UserNotFound
            || refusal is UnexpectedError,
        old(users).dependable() ==> (final(users)@, delete_answer_view(answer))
            == delete_account_model(old(users)@, request.email@),
{
    let email = match Email::parse(request.email) {
        Ok(email) => email,
        Err(_) => {
            return Err(AuthAPIError::InvalidData(String::from_str("Email")));
        },
    };
    match users.delete_user(email) {
        Ok(_) => Ok(STATUS_OK),
        Err(UserStoreError::UserNotFound) => Err(AuthAPIError::UserNotFound),
        Err(refusal) => Err(AuthAPIError::UnexpectedError(refusal.message())),
    }
}

} // verus!
