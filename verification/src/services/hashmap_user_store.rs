use crate::domain::data_store::{UserStore, UserStoreError};
use crate::domain::email::Email;
use crate::domain::password::Password;
use crate::domain::user::{User, UserView};
use crate::services::email_map::EmailMap;
use vstd::prelude::*;

verus! {

/// An identity store that lives in memory. It keeps each identity as it
/// was given and compares secrets as texts.
pub struct HashmapUserStore {
    users: EmailMap<User>,
}

impl HashmapUserStore {
    #[verifier::type_invariant]
    spec fn well_formed(&self) -> bool {
        forall|email: Seq<char>| #[trigger]
            self.users@.contains_key(email) ==> self.users@[email]@.email == email
    }

    /// A store with no identity on record.
    pub fn new() -> (store: HashmapUserStore)
        ensures
            store@ == Map::<Seq<char>, UserView>::empty(),
    {
        let store = HashmapUserStore { users: EmailMap::new() };
        assert(store@ =~= Map::<Seq<char>, UserView>::empty());
        store
    }
}

impl Default for HashmapUserStore {
    fn default() -> (store: HashmapUserStore)
        ensures
            store@ == Map::<Seq<char>, UserView>::empty(),
    {
        HashmapUserStore::new()
    }
}

impl UserStore for HashmapUserStore {
    closed spec fn view(&self) -> Map<Seq<char>, UserView> {
        self.users@.map_values(|user: User| user@)
    }

    open spec fn dependable(&self) -> bool {
        true
    }

    fn add_user(&mut self, user: User) -> (added: Result<(), UserStoreError>) {
        proof {
            use_type_invariant(&*self);
        }
        if self.users.contains_key(user.email()) {
            return Err(UserStoreError::UserAlreadyExists);
        }
        let email = user.email().clone();
        let mut users: EmailMap<User> = EmailMap::new();
        std::mem::swap(&mut self.users, &mut users);
        users.insert(email, user);
        self.users = users;
        assert(self@ =~= old(self)@.insert(user@.email, user@));
        Ok(())
    }

    fn get_user(&self, email: &Email) -> (found: Result<User, UserStoreError>) {
        proof {
            use_type_invariant(self);
        }
        match self.users.get(email) {
            Some(user) => Ok(user.clone()),
            None => Err(UserStoreError::UserNotFound),
        }
    }

    fn validate_user(&self, email: &Email, password: &Password) -> (found: Result<
        User,
        UserStoreError,
    >) {
        proof {
            use_type_invariant(self);
        }
        match self.users.get(email) {
            Some(user) => {
                if user.password_match(password) {
                    Ok(user.clone())
                } else {
                    Err(UserStoreError::InvalidCredentials)
                }
            },
            None => Err(UserStoreError::InvalidCredentials),
        }
    }

    fn delete_user(&mut self, email: Email) -> (deleted: Result<(), UserStoreError>) {
        proof {
            use_type_invariant(&*self);
        }
        let mut users: EmailMap<User> = EmailMap::new();
        std::mem::swap(&mut self.users, &mut users);
        let gone = users.remove(&email);
        self.users = users;
        match gone {
            Some(_) => {
                assert(self@ =~= old(self)@.remove(email@));
                Ok(())
            },
            None => {
                assert(self@ =~= old(self)@);
                Err(UserStoreError::UserNotFound)
            },
        }
    }
}

} // verus!
