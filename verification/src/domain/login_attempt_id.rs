use uuid::Uuid;
use vstd::prelude::*;

verus! {

/// The canonical spelling of the identifier that `text` spells, if it
/// spells one: what `Uuid::to_string` gives for what `str::parse::<Uuid>`
/// reads.
pub uninterp spec fn canonical_uuid_text(text: Seq<char>) -> Option<Seq<char>>;

/// Reads `text` with `str::parse::<uuid::Uuid>` and spells what was read
/// with `Uuid::to_string`; `None` where the parser refuses the text.
///
/// The spelling that comes out is the hyphenated lower-case form, which the
/// parser reads back as the same identifier: it is its own canonical
/// spelling.
#[verifier::external_body]
fn canonical_uuid(text: &str) -> (canonical: Option<String>)
    ensures
        canonical is Some <==> canonical_uuid_text(text@) is Some,
        canonical matches Some(spelled) ==> canonical_uuid_text(text@) == Some(spelled@)
            && canonical_uuid_text(spelled@) == Some(spelled@),
{
    match text.parse::<Uuid>() {
        Ok(id) => Some(id.to_string()),
        Err(_) => None,
    }
}

/// Draws an identifier with `uuid::Uuid::new_v4` and spells it with
/// `Uuid::to_string`. Which identifier comes out is left to chance; its
/// spelling is the hyphenated lower-case form, hence canonical.
#[verifier::external_body]
fn random_uuid() -> (spelled: String)
    ensures
        canonical_uuid_text(spelled@) == Some(spelled@),
{
    Uuid::new_v4().to_string()
}

/// The identifier of one login attempt, held in its canonical spelling.
#[derive(Debug)]
pub struct LoginAttemptId(String);

impl View for LoginAttemptId {
    type V = Seq<char>;

    closed spec fn view(&self) -> Seq<char> {
        self.0@
    }
}

impl LoginAttemptId {
    #[verifier::type_invariant]
    spec fn well_formed(&self) -> bool {
        canonical_uuid_text(self.0@) == Some(self.0@)
    }

    /// Reads an identifier from any spelling the parser accepts, and
    /// holds it in its canonical spelling.
    pub fn parse(id: String) -> (parsed: Result<LoginAttemptId, String>)
        ensures
            match canonical_uuid_text(id@) {
                Some(spelled) => parsed is Ok && parsed->Ok_0@ == spelled,
                None => parsed is Err && parsed->Err_0@ == "Invalid login attempt"@,
            },
    {
        let canonical = canonical_uuid(id.as_str());
        Self::from_canonical(canonical)
    }

    /// The identifier for a canonical spelling that was read elsewhere,
    /// or the refusal for none.
    pub fn from_canonical(canonical: Option<String>) -> (parsed: Result<LoginAttemptId, String>)
        requires
            canonical matches Some(spelled) ==> canonical_uuid_text(spelled@) == Some(spelled@),
        ensures
            match canonical {
                Some(spelled) => parsed is Ok && parsed->Ok_0@ == spelled@,
                None => parsed is Err && parsed->Err_0@ == "Invalid login attempt"@,
            },
    {
        match canonical {
            Some(spelled) => Ok(LoginAttemptId(spelled)),
            None => Err(String::from_str("Invalid login attempt")),
        }
    }

    /// The identifier as text, which is its own canonical spelling.
    pub fn as_str(&self) -> (text: &str)
        ensures
            text@ == self@,
            canonical_uuid_text(self@) == Some(self@),
    {
        proof {
            use_type_invariant(self);
        }
        self.0.as_str()
    }
}

impl Default for LoginAttemptId {
    /// A fresh identifier, drawn at random.
    fn default() -> (id: LoginAttemptId)
        ensures
            canonical_uuid_text(id@) == Some(id@),
    {
        LoginAttemptId(random_uuid())
    }
}

impl Clone for LoginAttemptId {
    fn clone(&self) -> (copy: Self)
        ensures
            copy@ == self@,
    {
        proof {
            use_type_invariant(self);
        }
        LoginAttemptId(self.0.clone())
    }
}

impl PartialEq for LoginAttemptId {
    fn eq(&self, other: &Self) -> (same: bool) {
        self.0 == other.0
    }
}

impl vstd::std_specs::cmp::PartialEqSpecImpl for LoginAttemptId {
    open spec fn obeys_eq_spec() -> bool {
        true
    }

    open spec fn eq_spec(&self, other: &Self) -> bool {
        self@ == other@
    }
}

impl AsRef<str> for LoginAttemptId {
    fn as_ref(&self) -> (text: &str)
        ensures
            text@ == self@,
    {
        self.0.as_str()
    }
}

} // verus!
