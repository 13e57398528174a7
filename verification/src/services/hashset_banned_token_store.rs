use crate::domain::data_store::{BannedTokenStore, BannedTokenStoreError};
use vstd::prelude::*;

verus! {

/// Whether `token` is one of `tokens`.
pub open spec fn lists_token(tokens: Seq<String>, token: Seq<char>) -> bool {
    exists|i: int| 0 <= i < tokens.len() && (#[trigger] tokens[i])@ == token
}

/// A revocation ledger that lives in memory. A token that was revoked
/// stays revoked for as long as the ledger lives, which is at least as
/// long as the token could have been used.
pub struct HashsetBannedTokenStore {
    blacklist: Vec<String>,
}

impl HashsetBannedTokenStore {
    /// A ledger with no token revoked.
    pub fn new() -> (store: HashsetBannedTokenStore)
        ensures
            store@ == Set::<Seq<char>>::empty(),
    {
        let store = HashsetBannedTokenStore { blacklist: Vec::new() };
        assert(store@ =~= Set::<Seq<char>>::empty());
        store
    }

    fn lists(&self, token: &String) -> (listed: bool)
        ensures
            listed == self@.contains(token@),
    {
        let mut at: usize = 0;
        while at < self.blacklist.len()
            invariant
                at <= self.blacklist@.len(),
                forall|i: int| 0 <= i < at ==> (#[trigger] self.blacklist@[i])@ != token@,
            decreases self.blacklist@.len() - at,
        {
            if self.blacklist[at] == *token {
                return true;
            }
            at = at + 1;
        }
        false
    }
}

impl Default for HashsetBannedTokenStore {
    fn default() -> (store: HashsetBannedTokenStore)
        ensures
            store@ == Set::<Seq<char>>::empty(),
    {
        HashsetBannedTokenStore::new()
    }
}

impl BannedTokenStore for HashsetBannedTokenStore {
    closed spec fn view(&self) -> Set<Seq<char>> {
        Set::new(|token: Seq<char>| lists_token(self.blacklist@, token))
    }

    open spec fn dependable(&self) -> bool {
        true
    }

    fn add_token(&mut self, token: &str) -> (added: Result<(), BannedTokenStoreError>) {
        let owned = token.to_owned();
        if self.lists(&owned) {
            return Err(BannedTokenStoreError::TokenExist);
        }
        self.blacklist.push(owned);
        assert(self@ =~= old(self)@.insert(token@)) by {
            assert forall|other: Seq<char>| self@.contains(other) <==> old(self)@.insert(
                token@,
            ).contains(other) by {
                if lists_token(self.blacklist@, other) {
                    let i = choose|i: int|
                        0 <= i < self.blacklist@.len() && (#[trigger] self.blacklist@[i])@ == other;
                    if i < old(self).blacklist@.len() {
                        assert(old(self).blacklist@[i]@ == other);
                    }
                }
                if other == token@ {
                    assert(self.blacklist@[old(self).blacklist@.len() as int]@ == other);
                }
                if lists_token(old(self).blacklist@, other) {
                    let before = old(self).blacklist@;
                    let i = choose|i: int|
                        0 <= i < before.len() && (#[trigger] before[i])@ == other;
                    assert(self.blacklist@[i]@ == other);
                }
            }
        }
        Ok(())
    }

    fn check_token(&self, token: &str) -> (banned: bool) {
        let owned = token.to_owned();
        self.lists(&owned)
    }
}

} // verus!
