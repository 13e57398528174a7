use crate::domain::data_store::{
    add_code_model, TwoFACodeStore, TwoFACodeStoreError, TwoFARecord, TwoFARecordView,
};
use crate::domain::email::Email;
use crate::domain::login_attempt_id::LoginAttemptId;
use crate::domain::two_fa_code::TwoFACode;
use crate::services::email_map::EmailMap;
use vstd::prelude::*;

verus! {

/// A challenge store that lives in memory. A challenge stays open until
/// it is closed or replaced.
pub struct HashmapTwoFACodeStore {
    codes: EmailMap<(LoginAttemptId, TwoFACode)>,
}

impl HashmapTwoFACodeStore {
    /// A store with no challenge open.
    pub fn new() -> (store: HashmapTwoFACodeStore)
        ensures
            store@ == Map::<Seq<char>, TwoFARecordView>::empty(),
    {
        let store = HashmapTwoFACodeStore { codes: EmailMap::new() };
        assert(store@ =~= Map::<Seq<char>, TwoFARecordView>::empty());
        store
    }
}

impl Default for HashmapTwoFACodeStore {
    fn default() -> (store: HashmapTwoFACodeStore)
        ensures
            store@ == Map::<Seq<char>, TwoFARecordView>::empty(),
    {
        HashmapTwoFACodeStore::new()
    }
}

impl TwoFACodeStore for HashmapTwoFACodeStore {
    closed spec fn view(&self) -> Map<Seq<char>, TwoFARecordView> {
        self.codes@.map_values(
            |held: (LoginAttemptId, TwoFACode)| TwoFARecordView { id: held.0@, code: held.1@ },
        )
    }

    open spec fn dependable(&self) -> bool {
        true
    }

    fn add_code(&mut self, email: Email, id: LoginAttemptId, code: TwoFACode) -> (added: Result<
        (),
        TwoFACodeStoreError,
    >) {
        self.codes.insert(email, (id, code));
        assert(self@ =~= add_code_model(old(self)@, email@, id@, code@));
        Ok(())
    }

    fn remove_code(&mut self, email: &Email) -> (removed: Result<(), TwoFACodeStoreError>) {
        match self.codes.remove(email) {
            Some(_) => {
                assert(self@ =~= old(self)@.remove(email@));
                Ok(())
            },
            None => {
                assert(self@ =~= old(self)@);
                Err(TwoFACodeStoreError::LoginAttemptIdNotFound)
            },
        }
    }

    fn get_code(&self, email: &Email) -> (found: Result<TwoFARecord, TwoFACodeStoreError>) {
        match self.codes.get(email) {
            Some(held) => {
                let id = held.0.clone();
                let code = held.1.clone();
                let record = TwoFARecord { id, code };
                Ok(record)
            },
            None => Err(TwoFACodeStoreError::LoginAttemptIdNotFound),
        }
    }
}

} // verus!
