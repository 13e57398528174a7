use crate::domain::data_store::{TwoFACodeStoreError, TwoFARecord, TwoFARecordView};
use crate::domain::email::Email;
use crate::domain::login_attempt_id::{canonical_uuid_text, LoginAttemptId};
use crate::domain::two_fa_code::{is_valid_code, TwoFACode};
use vstd::prelude::*;

verus! {

/// For how many seconds a challenge stays open: ten minutes.
pub const TEN_MINUTE_TTL: u64 = 600;

/// What the key of every challenge starts with.
pub const TWO_FA_CODE_PREFIX: &'static str = "two_fa_code:";

/// A challenge as it is written to the backend: the attempt, then the
/// code.
#[derive(Debug)]
pub struct TwoFaTuple(pub String, pub String);

/// The key under which the challenge of `email` is kept.
pub fn get_key(email: &Email) -> (key: String)
    ensures
        key@ == TWO_FA_CODE_PREFIX@ + email@,
{
    String::from_str(TWO_FA_CODE_PREFIX).concat(email.as_str())
}

/// The text that `serde_json::to_string` writes for a pair of texts;
/// `None` where it writes none.
pub uninterp spec fn json_pair_text(first: Seq<char>, second: Seq<char>) -> Option<Seq<char>>;

/// The pair of texts that `serde_json::from_str` reads from `text`;
/// `None` where it reads none.
pub uninterp spec fn json_pair_read(text: Seq<char>) -> Option<(Seq<char>, Seq<char>)>;

/// Writes the pair `(first, second)` with `serde_json::to_string`: an
/// array of two strings. What it writes, `serde_json::from_str` reads
/// back as the same pair.
#[verifier::external_body]
fn write_pair(first: &str, second: &str) -> (written: Option<String>)
    ensures
        written is Some <==> json_pair_text(first@, second@) is Some,
        written matches Some(text) ==> json_pair_text(first@, second@) == Some(text@)
            && json_pair_read(text@) == Some((first@, second@)),
{
    serde_json::to_string(&(first, second)).ok()
}

/// Reads a pair of texts from `text` with `serde_json::from_str`.
#[verifier::external_body]
fn read_pair(text: &str) -> (read: Option<(String, String)>)
    ensures
        read is Some <==> json_pair_read(text@) is Some,
        read matches Some(pair) ==> json_pair_read(text@) == Some((pair.0@, pair.1@)),
{
    serde_json::from_str::<(String, String)>(text).ok()
}

/// What a [`SetCommand`] is, as plain values.
pub struct SetCommandView {
    pub key: Seq<char>,
    pub value: Seq<char>,
    pub ttl: u64,
}

/// A value to write under a key, to be kept for so many seconds.
#[derive(Debug)]
pub struct SetCommand {
    pub key: String,
    pub value: String,
    pub ttl: u64,
}

impl View for SetCommand {
    type V = SetCommandView;

    open spec fn view(&self) -> SetCommandView {
        SetCommandView { key: self.key@, value: self.value@, ttl: self.ttl }
    }
}

/// The challenge that the answer to a lookup stands for.
///
/// No answer means that no challenge is open. An answer stands for the
/// challenge it spells; one that spells none is a fault of the backend.
pub open spec fn record_from_reply_model(reply: Option<Seq<char>>) -> Result<
    TwoFARecordView,
    TwoFACodeStoreError,
> {
    match reply {
        None => Err(TwoFACodeStoreError::LoginAttemptIdNotFound),
        Some(text) => match json_pair_read(text) {
            None => Err(TwoFACodeStoreError::UnexpectedError),
            Some((id, code)) => if canonical_uuid_text(id) is Some && is_valid_code(code) {
                Ok(TwoFARecordView { id: canonical_uuid_text(id)->Some_0, code })
            } else {
                Err(TwoFACodeStoreError::UnexpectedError)
            },
        },
    }
}

/// What to write to open the challenge `(id, code)` for `email`: the
/// pair under the key of the address, for ten minutes. What is written
/// reads back as the same challenge.
pub fn add_code_command(email: &Email, id: &LoginAttemptId, code: &TwoFACode) -> (command: Result<
    SetCommand,
    TwoFACodeStoreError,
>)
    ensures
        match json_pair_text(id@, code@) {
            Some(text) => command is Ok && command->Ok_0@ == (SetCommandView {
                key: TWO_FA_CODE_PREFIX@ + email@,
                value: text,
                ttl: TEN_MINUTE_TTL,
            }),
            None => command == Err::<SetCommand, TwoFACodeStoreError>(
                TwoFACodeStoreError::UnexpectedError,
            ),
        },
        command matches Ok(set) ==> record_from_reply_model(Some(set@.value)) == Ok::<
            TwoFARecordView,
            TwoFACodeStoreError,
        >(TwoFARecordView { id: id@, code: code@ }),
{
    let key = get_key(email);
    let instance = TwoFaTuple(id.as_str().to_owned(), code.as_str().to_owned());
    let value = match write_pair(instance.0.as_str(), instance.1.as_str()) {
        Some(value) => value,
        None => {
            return Err(TwoFACodeStoreError::UnexpectedError);
        },
    };
    Ok(SetCommand { key, value, ttl: TEN_MINUTE_TTL })
}

/// An answer that holds a challenge, as plain values.
pub open spec fn reply_answer_view(answer: Result<TwoFARecord, TwoFACodeStoreError>) -> Result<
    TwoFARecordView,
    TwoFACodeStoreError,
> {
    match answer {
        Ok(record) => Ok(record@),
        Err(refusal) => Err(refusal),
    }
}

/// The text of a reply, if there is one.
pub open spec fn reply_text(reply: Option<String>) -> Option<Seq<char>> {
    match reply {
        Some(text) => Some(text@),
        None => None,
    }
}

/// The challenge that the answer to a lookup stands for.
pub fn record_from_reply(reply: Option<String>) -> (record: Result<
    TwoFARecord,
    TwoFACodeStoreError,
>)
    ensures
        reply_answer_view(record) == record_from_reply_model(reply_text(reply)),
{
    let data = match reply {
        Some(data) => data,
        None => {
            return Err(TwoFACodeStoreError::LoginAttemptIdNotFound);
        },
    };
    let (id, code): (String, String) = match read_pair(data.as_str()) {
        Some(pair) => pair,
        None => {
            return Err(TwoFACodeStoreError::UnexpectedError);
        },
    };
    let id = match LoginAttemptId::parse(id) {
        Ok(id) => id,
        Err(_) => {
            return Err(TwoFACodeStoreError::UnexpectedError);
        },
    };
    let code = match TwoFACode::parse(code) {
        Ok(code) => code,
        Err(_) => {
            return Err(TwoFACodeStoreError::UnexpectedError);
        },
    };
    Ok(TwoFARecord { id, code })
}

} // verus!
