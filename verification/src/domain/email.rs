use vstd::prelude::*;
use vstd::std_specs::iter::IteratorSpec;

verus! {

/// What makes a text an acceptable address: it names a domain, that is,
/// it holds the separator `@` somewhere.
pub open spec fn is_valid_email(text: Seq<char>) -> bool {
    text.contains('@')
}

/// An address that has passed [`is_valid_email`]. Two addresses are equal
/// when their texts are.
#[derive(Debug, Hash)]
pub struct Email(String);

impl View for Email {
    type V = Seq<char>;

    closed spec fn view(&self) -> Seq<char> {
        self.0@
    }
}

impl Email {
    #[verifier::type_invariant]
    spec fn well_formed(&self) -> bool {
        is_valid_email(self.0@)
    }

    /// Accepts `email` exactly when it is a valid address.
    pub fn parse(email: String) -> (parsed: Result<Email, String>)
        ensures
            is_valid_email(email@) ==> parsed is Ok && parsed->Ok_0@ == email@,
            !is_valid_email(email@) ==> parsed is Err && parsed->Err_0@ == "Invalid Email"@,
    {
        if Self::validate_email(email.as_str()) {
            Ok(Email(email))
        } else {
            Err(String::from_str("Invalid Email"))
        }
    }

    fn validate_email(s: &str) -> (valid: bool)
        ensures
            valid == is_valid_email(s@),
    {
        let mut rest = s.chars();
        let ghost mut seen: int = 0;
        loop
            invariant
                0 <= seen <= s@.len(),
                rest.remaining() == s@.skip(seen),
                forall|i: int| 0 <= i < seen ==> s@[i] != '@',
            decreases s@.len() - seen,
        {
            match rest.next() {
                Some(c) => {
                    if c == '@' {
                        assert(s@[seen] == '@');
                        return true;
                    }
                    proof {
                        seen = seen + 1;
                    }
                },
                None => {
                    return false;
                },
            }
        }
    }

    /// The address as text, which is a valid address.
    pub fn as_str(&self) -> (text: &str)
        ensures
            text@ == self@,
            is_valid_email(self@),
    {
        proof {
            use_type_invariant(self);
        }
        self.0.as_str()
    }
}

impl Clone for Email {
    fn clone(&self) -> (copy: Self)
        ensures
            copy@ == self@,
    {
        proof {
            use_type_invariant(self);
        }
        Email(self.0.clone())
    }
}

impl PartialEq for Email {
    fn eq(&self, other: &Self) -> (same: bool) {
        self.0 == other.0
    }
}

impl Eq for Email {

}

impl vstd::std_specs::cmp::PartialEqSpecImpl for Email {
    open spec fn obeys_eq_spec() -> bool {
        true
    }

    open spec fn eq_spec(&self, other: &Self) -> bool {
        self@ == other@
    }
}

impl AsRef<str> for Email {
    fn as_ref(&self) -> (text: &str)
        ensures
            text@ == self@,
    {
        self.0.as_str()
    }
}

} // verus!
