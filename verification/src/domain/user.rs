use crate::domain::email::{is_valid_email, Email};
use crate::domain::password::{is_valid_password, Password};
use vstd::prelude::*;

verus! {

/// What a [`User`] is, as plain values.
pub struct UserView {
    pub email: Seq<char>,
    pub password: Seq<char>,
    pub requires_2fa: bool,
}

/// A registered identity: the address it is known by, its secret, and
/// whether a login must be confirmed by a second factor.
pub struct User {
    email: Email,
    password: Password,
    requires_2fa: bool,
}

impl View for User {
    type V = UserView;

    closed spec fn view(&self) -> UserView {
        UserView {
            email: self.email@,
            password: self.password@,
            requires_2fa: self.requires_2fa,
        }
    }
}

impl User {
    /// An identity made of values that were validated before.
    pub fn new(email: Email, password: Password, requires_2fa: bool) -> (user: User)
        ensures
            user@ == (UserView { email: email@, password: password@, requires_2fa }),
    {
        User { email, password, requires_2fa }
    }

    /// An identity made of raw texts: the address is validated first,
    /// then the secret, and the first refusal is the one reported.
    pub fn parse(email: String, password: String, requires_2fa: bool) -> (parsed: Result<
        User,
        String,
    >)
        ensures
            !is_valid_email(email@) ==> parsed is Err && parsed->Err_0@ == "Invalid Email"@,
            is_valid_email(email@) && !is_valid_password(password@) ==> parsed is Err
                && parsed->Err_0@ == "Invalid Password"@,
            is_valid_email(email@) && is_valid_password(password@) ==> parsed is Ok
                && parsed->Ok_0@ == (UserView { email: email@, password: password@, requires_2fa }),
    {
        let email = match Email::parse(email) {
            Ok(email) => email,
            Err(refusal) => {
                return Err(refusal);
            },
        };
        let password = match Password::parse(password) {
            Ok(password) => password,
            Err(refusal) => {
                return Err(refusal);
            },
        };
        Ok(User { email, password, requires_2fa })
    }

    /// Whether `password` is this identity's secret.
    pub fn password_match(&self, password: &Password) -> (same: bool)
        ensures
            same == (self@.password == password@),
    {
        self.password == *password
    }

    /// Whether a login of this identity needs a second factor.
    pub fn requires_2fa(&self) -> (required: bool)
        ensures
            required == self@.requires_2fa,
    {
        self.requires_2fa
    }

    /// The address this identity is known by.
    pub fn email(&self) -> (email: &Email)
        ensures
            email@ == self@.email,
    {
        &self.email
    }

    /// This identity's secret.
    pub fn password(&self) -> (password: &Password)
        ensures
            password@ == self@.password,
    {
        &self.password
    }
}

impl Clone for User {
    fn clone(&self) -> (copy: Self)
        ensures
            copy@ == self@,
    {
        User {
            email: self.email.clone(),
            password: self.password.clone(),
            requires_2fa: self.requires_2fa,
        }
    }
}

impl AsRef<Email> for User {
    fn as_ref(&self) -> (email: &Email)
        ensures
            ({
                let address: &Email = email;
                address@ == self@.email
            }),
    {
        self.email()
    }
}

impl AsRef<Password> for User {
    fn as_ref(&self) -> (password: &Password)
        ensures
            ({
                let secret: &Password = password;
                secret@ == self@.password
            }),
    {
        self.password()
    }
}

} // verus!
