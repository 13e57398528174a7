use rand::Rng;
use vstd::prelude::*;

verus! {

/// How many digits a code has.
pub const CODE_LENGTH: usize = 6;

/// The largest number a code can spell.
pub const MAX_CODE_NUMBER: u32 = 999_999;

/// An ASCII digit.
pub open spec fn is_digit(c: char) -> bool {
    '0' <= c && c <= '9'
}

/// What makes a text an acceptable code: exactly six ASCII digits,
/// leading zeros included.
pub open spec fn is_valid_code(text: Seq<char>) -> bool {
    text.len() == CODE_LENGTH && forall|i: int| 0 <= i < text.len() ==> is_digit(#[trigger] text[i])
}

/// The character that spells the last decimal digit of `n`.
pub open spec fn digit_char(n: nat) -> char {
    let last = n % 10;
    if last == 0 {
        '0'
    } else if last == 1 {
        '1'
    } else if last == 2 {
        '2'
    } else if last == 3 {
        '3'
    } else if last == 4 {
        '4'
    } else if last == 5 {
        '5'
    } else if last == 6 {
        '6'
    } else if last == 7 {
        '7'
    } else if last == 8 {
        '8'
    } else {
        '9'
    }
}

/// The last six decimal digits of `n`, most significant first, with
/// leading zeros.
pub open spec fn six_digits(n: nat) -> Seq<char> {
    seq![
        digit_char(n / 100_000),
        digit_char(n / 10_000),
        digit_char(n / 1_000),
        digit_char(n / 100),
        digit_char(n / 10),
        digit_char(n),
    ]
}

/// Draws a number with `rand::thread_rng()` and `Rng::gen_range` over the
/// closed range from `low` to `high`. The range must not be empty, or the
/// draw would panic; the number drawn lies in it.
#[verifier::external_body]
fn random_between(low: u32, high: u32) -> (drawn: u32)
    requires
        low <= high,
    ensures
        low <= drawn <= high,
{
    rand::thread_rng().gen_range(low..=high)
}

fn digit_text(n: u32) -> (text: &'static str)
    ensures
        text@ == seq![digit_char(n as nat)],
{
    proof {
        reveal_strlit("0");
        reveal_strlit("1");
        reveal_strlit("2");
        reveal_strlit("3");
        reveal_strlit("4");
        reveal_strlit("5");
        reveal_strlit("6");
        reveal_strlit("7");
        reveal_strlit("8");
        reveal_strlit("9");
    }
    let last: u32 = n % 10;
    let text = if last == 0 {
        "0"
    } else if last == 1 {
        "1"
    } else if last == 2 {
        "2"
    } else if last == 3 {
        "3"
    } else if last == 4 {
        "4"
    } else if last == 5 {
        "5"
    } else if last == 6 {
        "6"
    } else if last == 7 {
        "7"
    } else if last == 8 {
        "8"
    } else {
        "9"
    };
    assert(text@ =~= seq![digit_char(n as nat)]);
    text
}

/// A one-time code that has passed [`is_valid_code`]. It has no
/// printable form, so that it does not end up in a log by accident.
pub struct TwoFACode(String);

impl View for TwoFACode {
    type V = Seq<char>;

    closed spec fn view(&self) -> Seq<char> {
        self.0@
    }
}

impl TwoFACode {
    #[verifier::type_invariant]
    spec fn well_formed(&self) -> bool {
        is_valid_code(self.0@)
    }

    /// Accepts `code` exactly when it is six ASCII digits.
    pub fn parse(code: String) -> (parsed: Result<TwoFACode, String>)
        ensures
            is_valid_code(code@) ==> parsed is Ok && parsed->Ok_0@ == code@,
            !is_valid_code(code@) ==> parsed is Err && parsed->Err_0@ == "Invalid code length!"@,
    {
        if !Self::validate(code.as_str()) {
            return Err(String::from_str("Invalid code length!"));
        }
        Ok(TwoFACode(code))
    }

    fn validate(s: &str) -> (valid: bool)
        ensures
            valid == is_valid_code(s@),
    {
        if s.unicode_len() != CODE_LENGTH {
            return false;
        }
        let mut at: usize = 0;
        while at < CODE_LENGTH
            invariant
                at <= CODE_LENGTH,
                s@.len() == CODE_LENGTH,
                forall|i: int| 0 <= i < at ==> is_digit(#[trigger] s@[i]),
            decreases CODE_LENGTH - at,
        {
            let c: char = s.get_char(at);
            if !('0' <= c && c <= '9') {
                return false;
            }
            at = at + 1;
        }
        true
    }

    /// The code that spells the last six decimal digits of `number`.
    pub fn from_number(number: u32) -> (code: TwoFACode)
        ensures
            code@ == six_digits(number as nat),
    {
        let mut text = String::new();
        text.append(digit_text(number / 100_000));
        text.append(digit_text(number / 10_000));
        text.append(digit_text(number / 1_000));
        text.append(digit_text(number / 100));
        text.append(digit_text(number / 10));
        text.append(digit_text(number));
        assert(text@ =~= six_digits(number as nat));
        TwoFACode(text)
    }

    /// The code as text, which is six ASCII digits.
    pub fn as_str(&self) -> (text: &str)
        ensures
            text@ == self@,
            is_valid_code(self@),
    {
        proof {
            use_type_invariant(self);
        }
        self.0.as_str()
    }
}

impl Default for TwoFACode {
    /// A code drawn at random: any of the million codes may come out.
    fn default() -> (code: TwoFACode)
        ensures
            exists|number: nat| number <= MAX_CODE_NUMBER && code@ == six_digits(number),
    {
        let number: u32 = random_between(0, MAX_CODE_NUMBER);
        TwoFACode::from_number(number)
    }
}

impl Clone for TwoFACode {
    fn clone(&self) -> (copy: Self)
        ensures
            copy@ == self@,
    {
        proof {
            use_type_invariant(self);
        }
        TwoFACode(self.0.clone())
    }
}

impl PartialEq for TwoFACode {
    fn eq(&self, other: &Self) -> (same: bool) {
        self.0 == other.0
    }
}

impl Eq for TwoFACode {

}

impl vstd::std_specs::cmp::PartialEqSpecImpl for TwoFACode {
    open spec fn obeys_eq_spec() -> bool {
        true
    }

    open spec fn eq_spec(&self, other: &Self) -> bool {
        self@ == other@
    }
}

impl AsRef<str> for TwoFACode {
    fn as_ref(&self) -> (text: &str)
        ensures
            text@ == self@,
    {
        self.0.as_str()
    }
}

} // verus!
