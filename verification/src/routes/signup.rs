use crate::domain::data_store::{add_user_model, UserStore};
use crate::domain::email::is_valid_email;
use crate::domain::error::{AuthAPIError, AuthAPIErrorView};
use crate::domain::password::is_valid_password;
use crate::domain::user::{User, UserView};
use vstd::prelude::*;

verus! {

/// The status that answers a signup that went through.
pub const STATUS_CREATED: u16 = 201;

/// What a signup is asked with.
pub struct SignupRequest {
    pub email: String,
    pub password: String,
    pub requires_2fa: bool,
}

/// The body that answers a signup that went through.
#[derive(Debug)]
pub struct SignupResponse {
    pub message: String,
}

/// An answer to a signup, as plain values.
pub open spec fn signup_answer_view(answer: Result<(u16, SignupResponse), AuthAPIError>) -> Result<
    (u16, Seq<char>),
    AuthAPIErrorView,
> {
    match answer {
        Ok(reply) => Ok((reply.0, reply.1.message@)),
        Err(refusal) => Err(refusal@),
    }
}

/// What a signup does when nothing is in its way.
///
/// Malformed values are refused in the words of their validation, the
/// address first. An address that is on record is refused. Any other
/// identity is put on record as it was given.
pub open spec fn signup_model(
    users: Map<Seq<char>, UserView>,
    email: Seq<char>,
    password: Seq<char>,
    requires_2fa: bool,
) -> (Map<Seq<char>, UserView>, Result<(u16, Seq<char>), AuthAPIErrorView>) {
    if !is_valid_email(email) {
        (users, Err(AuthAPIErrorView::InvalidData("Invalid Email"@)))
    } else if !is_valid_password(password) {
        (users, Err(AuthAPIErrorView::InvalidData("Invalid Password"@)))
    } else {
        let (grown, added) = add_user_model(users, UserView { email, password, requires_2fa });
        match added {
            Ok(_) => (grown, Ok((STATUS_CREATED, "User created successfully!"@))),
            Err(_) => (grown, Err(AuthAPIErrorView::UserAlreadyExists)),
        }
    }
}

/// A signup. Nothing is put on record unless both values are valid and
/// the address is new.
pub fn signup<U: UserStore + ?Sized>(users: &mut U, request: SignupRequest) -> (answer: Result<
    (u16, SignupResponse),
    AuthAPIError,
>)
    ensures
        final(users).dependable() == old(users).dependable(),
        !is_valid_email(request.email@) ==> answer is Err && answer->Err_0@
            == AuthAPIErrorView::InvalidData("Invalid Email"@) && final(users)@ == old(users)@,
        is_valid_email(request.email@) && !is_valid_password(request.password@) ==> answer is Err
            && answer->Err_0@ == AuthAPIErrorView::InvalidData("Invalid Password"@),
        !is_valid_password(request.password@) ==> final(users)@ == old(users)@,
        answer matches Ok(reply) ==> reply.0 == STATUS_CREATED && reply.1.message@
            == "User created successfully!"@ && is_valid_email(request.email@)
            && is_valid_password(request.password@),
        answer matches Err(refusal) ==> refusal is InvalidData || refusal is UserAlreadyExists
            || refusal is UnexpectedError,
        old(users).dependable() ==> (final(users)@, signup_answer_view(answer)) == signup_model(
            old(users)@,
            request.email@,
            request.password@,
            request.requires_2fa,
        ),
{
    let user = match User::parse(request.email, request.password, request.requires_2fa) {
        Ok(user) => user,
        Err(why) => {
            return Err(AuthAPIError::InvalidData(why));
        },
    };
    if users.get_user(user.email()).is_ok() {
        return Err(AuthAPIError::UserAlreadyExists);
    }
    if let Err(refusal) = users.add_user(user) {
        return Err(AuthAPIError::UnexpectedError(refusal.message()));
    }
    let response = SignupResponse { message: String::from_str("User created successfully!") };
    Ok((STATUS_CREATED, response))
}

} // verus!
