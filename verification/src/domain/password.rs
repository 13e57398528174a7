use regex::Regex;
use vstd::prelude::*;
use vstd::utf8::encode_utf8;

verus! {

/// The shortest password accepted, counted in bytes of its UTF-8 form.
pub const MIN_PASSWORD_BYTES: usize = 8;

/// The pattern of a text with nothing in it but ASCII letters and digits.
pub const PLAIN_TEXT_PATTERN: &'static str = "^[a-zA-Z0-9]+$";

/// An ASCII letter or an ASCII digit.
pub open spec fn is_plain_char(c: char) -> bool {
    ('a' <= c && c <= 'z') || ('A' <= c && c <= 'Z') || ('0' <= c && c <= '9')
}

/// A text that is not empty and holds ASCII letters and digits only.
pub open spec fn is_plain_text(text: Seq<char>) -> bool {
    text.len() > 0 && forall|i: int| 0 <= i < text.len() ==> is_plain_char(#[trigger] text[i])
}

/// What makes a text an acceptable password: at least
/// [`MIN_PASSWORD_BYTES`] bytes long, and not plain, that is, with at
/// least one character that is neither an ASCII letter nor an ASCII digit.
pub open spec fn is_valid_password(text: Seq<char>) -> bool {
    encode_utf8(text).len() >= MIN_PASSWORD_BYTES && !is_plain_text(text)
}

/// Compiles `pattern` with `regex::Regex::new` and asks `Regex::is_match`
/// whether `text` matches it.
///
/// Stated for the one pattern this library uses, [`PLAIN_TEXT_PATTERN`]:
/// by the crate's syntax, `^` and `$` stand for the two ends of the text
/// (no multi-line flag is set), and `[a-zA-Z0-9]+` for one or more
/// characters out of the three ASCII ranges. So the text matches exactly
/// when it is plain. The pattern compiles, so the error arm is never taken.
#[verifier::external_body]
fn matches_pattern(pattern: &str, text: &str) -> (hit: bool)
    requires
        pattern@ == PLAIN_TEXT_PATTERN@,
    ensures
        hit == is_plain_text(text@),
{
    match Regex::new(pattern) {
        Ok(compiled) => compiled.is_match(text),
        Err(_) => false,
    }
}

/// A secret that has passed [`is_valid_password`]. It has no printable
/// form, so that it does not end up in a log by accident.
pub struct Password(String);

impl View for Password {
    type V = Seq<char>;

    closed spec fn view(&self) -> Seq<char> {
        self.0@
    }
}

impl Password {
    #[verifier::type_invariant]
    spec fn well_formed(&self) -> bool {
        is_valid_password(self.0@)
    }

    /// Accepts `password` exactly when it is a valid password.
    pub fn parse(password: String) -> (parsed: Result<Password, String>)
        ensures
            is_valid_password(password@) ==> parsed is Ok && parsed->Ok_0@ == password@,
            !is_valid_password(password@) ==> parsed is Err && parsed->Err_0@
                == "Invalid Password"@,
    {
        if Self::validate_password(password.as_str()) {
            Ok(Password(password))
        } else {
            Err(String::from_str("Invalid Password"))
        }
    }

    fn validate_password(s: &str) -> (valid: bool)
        ensures
            valid == is_valid_password(s@),
    {
        s.as_bytes().len() >= MIN_PASSWORD_BYTES && !matches_pattern(PLAIN_TEXT_PATTERN, s)
    }

    /// The secret as text, which is a valid password.
    pub fn as_str(&self) -> (text: &str)
        ensures
            text@ == self@,
            is_valid_password(self@),
    {
        proof {
            use_type_invariant(self);
        }
        self.0.as_str()
    }

}

impl Clone for Password {
    fn clone(&self) -> (copy: Self)
        ensures
            copy@ == self@,
    {
        proof {
            use_type_invariant(self);
        }
        Password(self.0.clone())
    }
}

impl PartialEq for Password {
    fn eq(&self, other: &Self) -> (same: bool) {
        self.0 == other.0
    }
}

impl vstd::std_specs::cmp::PartialEqSpecImpl for Password {
    open spec fn obeys_eq_spec() -> bool {
        true
    }

    open spec fn eq_spec(&self, other: &Self) -> bool {
        self@ == other@
    }
}

} // verus!
