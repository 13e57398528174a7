use crate::domain::email::Email;
use vstd::prelude::*;

verus! {

/// Whether some entry of `entries` is filed under `key`.
pub open spec fn holds_key<T>(entries: Seq<(Email, T)>, key: Seq<char>) -> bool {
    exists|i: int| 0 <= i < entries.len() && (#[trigger] entries[i]).0@ == key
}

/// A place in `entries` where `key` is filed, if it is filed anywhere.
pub open spec fn place_of<T>(entries: Seq<(Email, T)>, key: Seq<char>) -> int {
    choose|i: int| 0 <= i < entries.len() && (#[trigger] entries[i]).0@ == key
}

/// No two entries of `entries` are filed under the same key.
pub open spec fn keys_distinct<T>(entries: Seq<(Email, T)>) -> bool {
    forall|i: int, j: int|
        0 <= i < j < entries.len() ==> (#[trigger] entries[i]).0@ != (#[trigger] entries[j]).0@
}

/// The map that `entries` spell out: each key to the value filed under it.
pub open spec fn as_map<T>(entries: Seq<(Email, T)>) -> Map<Seq<char>, T> {
    Map::new(
        |key: Seq<char>| holds_key(entries, key),
        |key: Seq<char>| entries[place_of(entries, key)].1,
    )
}

/// With distinct keys, the entry at place `i` is the one its key maps to.
pub proof fn lemma_entry_is_mapped<T>(entries: Seq<(Email, T)>, i: int)
    requires
        keys_distinct(entries),
        0 <= i < entries.len(),
    ensures
        as_map(entries).contains_key(entries[i].0@),
        as_map(entries)[entries[i].0@] == entries[i].1,
{
    let key = entries[i].0@;
    assert(holds_key(entries, key));
    let at = place_of(entries, key);
    assert(at == i) by {
        if at < i {
            assert(entries[at].0@ != entries[i].0@);
        } else if i < at {
            assert(entries[i].0@ != entries[at].0@);
        }
    }
}

/// Filing a value under a key that is not yet filed adds it to the map.
pub proof fn lemma_push_inserts<T>(entries: Seq<(Email, T)>, email: Email, value: T)
    requires
        keys_distinct(entries),
        !holds_key(entries, email@),
    ensures
        keys_distinct(entries.push((email, value))),
        as_map(entries.push((email, value))) == as_map(entries).insert(email@, value),
{
    let longer = entries.push((email, value));
    assert forall|i: int, j: int| 0 <= i < j < longer.len() implies (#[trigger] longer[i]).0@ != (
    #[trigger] longer[j]).0@ by {
        if j == entries.len() {
            assert(longer[i] == entries[i]);
            if entries[i].0@ == email@ {
                assert(holds_key(entries, email@));
            }
        } else {
            assert(longer[i] == entries[i]);
            assert(longer[j] == entries[j]);
        }
    }
    assert forall|key: Seq<char>| holds_key(longer, key) <==> (key == email@ || holds_key(
        entries,
        key,
    )) by {
        if holds_key(longer, key) {
            let i = choose|i: int| 0 <= i < longer.len() && (#[trigger] longer[i]).0@ == key;
            if i < entries.len() {
                assert(entries[i].0@ == key);
            }
        }
        if key == email@ {
            assert(longer[entries.len() as int].0@ == key);
        }
        if holds_key(entries, key) {
            let i = choose|i: int| 0 <= i < entries.len() && (#[trigger] entries[i]).0@ == key;
            assert(longer[i].0@ == key);
        }
    }
    assert forall|key: Seq<char>| holds_key(longer, key) implies as_map(longer)[key] == as_map(
        entries,
    ).insert(email@, value)[key] by {
        let i = choose|i: int| 0 <= i < longer.len() && (#[trigger] longer[i]).0@ == key;
        lemma_entry_is_mapped(longer, i);
        if i < entries.len() {
            assert(longer[i] == entries[i]);
            lemma_entry_is_mapped(entries, i);
            if key == email@ {
                assert(holds_key(entries, email@));
            }
        }
    }
    assert(as_map(longer) =~= as_map(entries).insert(email@, value));
}

/// Taking out the entry at place `i` takes its key out of the map.
pub proof fn lemma_remove_removes<T>(entries: Seq<(Email, T)>, i: int)
    requires
        keys_distinct(entries),
        0 <= i < entries.len(),
    ensures
        keys_distinct(entries.remove(i)),
        !holds_key(entries.remove(i), entries[i].0@),
        as_map(entries.remove(i)) == as_map(entries).remove(entries[i].0@),
{
    let shorter = entries.remove(i);
    let gone = entries[i].0@;
    assert forall|j: int| 0 <= j < shorter.len() implies #[trigger] shorter[j] == entries[if j
        < i {
        j
    } else {
        j + 1
    }] by {}
    assert forall|a: int, b: int| 0 <= a < b < shorter.len() implies (#[trigger] shorter[a]).0@ != (
    #[trigger] shorter[b]).0@ by {
        let a0 = if a < i {
            a
        } else {
            a + 1
        };
        let b0 = if b < i {
            b
        } else {
            b + 1
        };
        assert(shorter[a] == entries[a0]);
        assert(shorter[b] == entries[b0]);
        assert(entries[a0].0@ != entries[b0].0@);
    }
    assert forall|key: Seq<char>| holds_key(shorter, key) <==> (key != gone && holds_key(
        entries,
        key,
    )) by {
        if holds_key(shorter, key) {
            let j = choose|j: int| 0 <= j < shorter.len() && (#[trigger] shorter[j]).0@ == key;
            let j0 = if j < i {
                j
            } else {
                j + 1
            };
            assert(shorter[j] == entries[j0]);
            assert(entries[j0].0@ == key);
            if key == gone {
                if j0 < i {
                    assert(entries[j0].0@ != entries[i].0@);
                } else {
                    assert(entries[i].0@ != entries[j0].0@);
                }
            }
        }
        if key != gone && holds_key(entries, key) {
            let j0 = choose|j: int| 0 <= j < entries.len() && (#[trigger] entries[j]).0@ == key;
            let j = if j0 < i {
                j0
            } else {
                j0 - 1
            };
            assert(shorter[j] == entries[j0]);
            assert(shorter[j].0@ == key);
        }
    }
    assert forall|key: Seq<char>| holds_key(shorter, key) implies as_map(shorter)[key] == as_map(
        entries,
    ).remove(gone)[key] by {
        let j = choose|j: int| 0 <= j < shorter.len() && (#[trigger] shorter[j]).0@ == key;
        let j0 = if j < i {
            j
        } else {
            j + 1
        };
        assert(shorter[j] == entries[j0]);
        lemma_entry_is_mapped(shorter, j);
        lemma_entry_is_mapped(entries, j0);
    }
    assert(as_map(shorter) =~= as_map(entries).remove(gone));
}

/// A map from addresses to values, each address filed once. It stands
/// where a hash map keyed by address would: entries are kept in a vector,
/// and what a hash map guarantees by construction is kept as an invariant.
pub struct EmailMap<T> {
    entries: Vec<(Email, T)>,
}

impl<T> View for EmailMap<T> {
    type V = Map<Seq<char>, T>;

    closed spec fn view(&self) -> Map<Seq<char>, T> {
        as_map(self.entries@)
    }
}

impl<T> EmailMap<T> {
    #[verifier::type_invariant]
    spec fn well_formed(&self) -> bool {
        keys_distinct(self.entries@)
    }

    /// A map with nothing filed.
    pub fn new() -> (empty: EmailMap<T>)
        ensures
            empty@ == Map::<Seq<char>, T>::empty(),
    {
        let empty = EmailMap { entries: Vec::new() };
        assert(empty@ =~= Map::<Seq<char>, T>::empty());
        empty
    }

    fn find(&self, email: &Email) -> (place: Option<usize>)
        ensures
            match place {
                Some(i) => i < self.entries@.len() && self.entries@[i as int].0@ == email@,
                None => !holds_key(self.entries@, email@),
            },
    {
        let mut at: usize = 0;
        while at < self.entries.len()
            invariant
                at <= self.entries@.len(),
                forall|i: int| 0 <= i < at ==> (#[trigger] self.entries@[i]).0@ != email@,
            decreases self.entries@.len() - at,
        {
            if self.entries[at].0 == *email {
                return Some(at);
            }
            at = at + 1;
        }
        None
    }

    /// Whether something is filed under `email`.
    pub fn contains_key(&self, email: &Email) -> (found: bool)
        ensures
            found == self@.contains_key(email@),
    {
        match self.find(email) {
            Some(i) => {
                proof {
                    use_type_invariant(self);
                    lemma_entry_is_mapped(self.entries@, i as int);
                }
                true
            },
            None => false,
        }
    }

    /// What is filed under `email`, if anything.
    pub fn get(&self, email: &Email) -> (found: Option<&T>)
        ensures
            match found {
                Some(value) => self@.contains_key(email@) && *value == self@[email@],
                None => !self@.contains_key(email@),
            },
    {
        match self.find(email) {
            Some(i) => {
                proof {
                    use_type_invariant(self);
                    lemma_entry_is_mapped(self.entries@, i as int);
                }
                Some(&self.entries[i].1)
            },
            None => None,
        }
    }

    /// Files `value` under `email`, in place of what was filed there
    /// before, which is handed back.
    pub fn insert(&mut self, email: Email, value: T) -> (previous: Option<T>)
        ensures
            final(self)@ == old(self)@.insert(email@, value),
            match previous {
                Some(was) => old(self)@.contains_key(email@) && was == old(self)@[email@],
                None => !old(self)@.contains_key(email@),
            },
    {
        proof {
            use_type_invariant(&*self);
        }
        let place = self.find(&email);
        let mut entries: Vec<(Email, T)> = Vec::new();
        std::mem::swap(&mut self.entries, &mut entries);
        let previous = match place {
            Some(i) => {
                proof {
                    lemma_entry_is_mapped(entries@, i as int);
                    lemma_remove_removes(entries@, i as int);
                }
                let gone = entries.remove(i);
                Some(gone.1)
            },
            None => None,
        };
        proof {
            lemma_push_inserts(entries@, email, value);
            assert(old(self)@.remove(email@).insert(email@, value) =~= old(self)@.insert(
                email@,
                value,
            ));
            if previous is None {
                assert(old(self)@.remove(email@) =~= old(self)@);
            }
        }
        entries.push((email, value));
        self.entries = entries;
        previous
    }

    /// Takes out what is filed under `email`, and hands it back.
    pub fn remove(&mut self, email: &Email) -> (previous: Option<T>)
        ensures
            final(self)@ == old(self)@.remove(email@),
            match previous {
                Some(was) => old(self)@.contains_key(email@) && was == old(self)@[email@],
                None => !old(self)@.contains_key(email@),
            },
    {
        proof {
            use_type_invariant(&*self);
        }
        match self.find(email) {
            Some(i) => {
                let mut entries: Vec<(Email, T)> = Vec::new();
                std::mem::swap(&mut self.entries, &mut entries);
                proof {
                    lemma_entry_is_mapped(entries@, i as int);
                    lemma_remove_removes(entries@, i as int);
                }
                let gone = entries.remove(i);
                self.entries = entries;
                Some(gone.1)
            },
            None => {
                assert(old(self)@.remove(email@) =~= old(self)@);
                None
            },
        }
    }
}

} // verus!
