use vstd::prelude::*;

verus! {

/// The body that goes out with a refusal.
#[derive(Debug)]
pub struct ErrorResponse {
    pub error: String,
}

/// What an [`AuthAPIError`] is, as plain values.
pub enum AuthAPIErrorView {
    UserAlreadyExists,
    UserNotFound,
    IncorrectCredentials,
    UnexpectedError(Seq<char>),
    MissingToken,
    InvalidToken,
    InvalidData(Seq<char>),
    MismatchIdentification,
}

/// Why a request was refused.
#[derive(Debug)]
pub enum AuthAPIError {
    /// The address is on record already.
    UserAlreadyExists,
    /// No identity is on record for the address.
    UserNotFound,
    /// The address and the secret do not belong together, or no challenge
    /// is open for the address.
    IncorrectCredentials,
    /// Something failed that the request could not do without; the text
    /// says what, in the words of whoever failed.
    UnexpectedError(String),
    /// No token came with the request.
    MissingToken,
    /// The token is not one of ours, or has run out.
    InvalidToken,
    /// A value of the request is malformed; the text names it.
    InvalidData(String),
    /// A challenge is open for the address, and the attempt or the code is
    /// not the one it holds.
    MismatchIdentification,
}

impl View for AuthAPIError {
    type V = AuthAPIErrorView;

    open spec fn view(&self) -> AuthAPIErrorView {
        match self {
            AuthAPIError::UserAlreadyExists => AuthAPIErrorView::UserAlreadyExists,
            AuthAPIError::UserNotFound => AuthAPIErrorView::UserNotFound,
            AuthAPIError::IncorrectCredentials => AuthAPIErrorView::IncorrectCredentials,
            AuthAPIError::UnexpectedError(report) => AuthAPIErrorView::UnexpectedError(report@),
            AuthAPIError::MissingToken => AuthAPIErrorView::MissingToken,
            AuthAPIError::InvalidToken => AuthAPIErrorView::InvalidToken,
            AuthAPIError::InvalidData(data) => AuthAPIErrorView::InvalidData(data@),
            AuthAPIError::MismatchIdentification => AuthAPIErrorView::MismatchIdentification,
        }
    }
}

/// The status that goes out with each refusal: conflict, not found,
/// rejected, bad request or server error.
pub open spec fn status_of(refusal: AuthAPIErrorView) -> u16 {
    match refusal {
        AuthAPIErrorView::UserAlreadyExists => 409,
        AuthAPIErrorView::UserNotFound => 404,
        AuthAPIErrorView::IncorrectCredentials => 401,
        AuthAPIErrorView::UnexpectedError(_) => 500,
        AuthAPIErrorView::MissingToken => 400,
        AuthAPIErrorView::InvalidToken => 401,
        AuthAPIErrorView::InvalidData(_) => 400,
        AuthAPIErrorView::MismatchIdentification => 401,
    }
}

/// The words that go out with each refusal.
pub open spec fn body_of(refusal: AuthAPIErrorView) -> Seq<char> {
    match refusal {
        AuthAPIErrorView::UserAlreadyExists => "User already exist"@,
        AuthAPIErrorView::UserNotFound => "User not found"@,
        AuthAPIErrorView::IncorrectCredentials => "Invalid credentials"@,
        AuthAPIErrorView::UnexpectedError(report) => report,
        AuthAPIErrorView::MissingToken => "Missing JWT Token!"@,
        AuthAPIErrorView::InvalidToken => "Invalid JWT Token"@,
        AuthAPIErrorView::InvalidData(data) => "Invalid data: "@ + data,
        AuthAPIErrorView::MismatchIdentification => "Mismatch identity"@,
    }
}

/// The refusal as it is written to a log.
pub open spec fn message_of(refusal: AuthAPIErrorView) -> Seq<char> {
    match refusal {
        AuthAPIErrorView::UserAlreadyExists => "User already exist!"@,
        AuthAPIErrorView::UserNotFound => "User not found"@,
        AuthAPIErrorView::IncorrectCredentials => "Incorrect credentials was used"@,
        AuthAPIErrorView::UnexpectedError(_) =>
            "Something terribly happen, may you qualify as a QA tester someday in the future"@,
        AuthAPIErrorView::MissingToken => "No JWT token was provided"@,
        AuthAPIErrorView::InvalidToken =>
            "Oh look here, someone forging JWT. This incident will be logged and reported"@,
        AuthAPIErrorView::InvalidData(data) => "Invalid data input: "@ + data,
        AuthAPIErrorView::MismatchIdentification => "Mismatch identification"@,
    }
}

impl AuthAPIError {
    /// The status that goes out with this refusal.
    pub fn status_code(&self) -> (status: u16)
        ensures
            status == status_of(self@),
    {
        match self {
            AuthAPIError::UserAlreadyExists => 409,
            AuthAPIError::UserNotFound => 404,
            AuthAPIError::IncorrectCredentials => 401,
            AuthAPIError::UnexpectedError(_) => 500,
            AuthAPIError::MissingToken => 400,
            AuthAPIError::InvalidToken => 401,
            AuthAPIError::InvalidData(_) => 400,
            AuthAPIError::MismatchIdentification => 401,
        }
    }

    /// This refusal as it is written to a log.
    pub fn message(&self) -> (text: String)
        ensures
            text@ == message_of(self@),
    {
        match self {
            AuthAPIError::UserAlreadyExists => String::from_str("User already exist!"),
            AuthAPIError::UserNotFound => String::from_str("User not found"),
            AuthAPIError::IncorrectCredentials => String::from_str(
                "Incorrect credentials was used",
            ),
            AuthAPIError::UnexpectedError(_) => String::from_str(
                "Something terribly happen, may you qualify as a QA tester someday in the future",
            ),
            AuthAPIError::MissingToken => String::from_str("No JWT token was provided"),
            AuthAPIError::InvalidToken => String::from_str(
                "Oh look here, someone forging JWT. This incident will be logged and reported",
            ),
            AuthAPIError::InvalidData(data) => String::from_str("Invalid data input: ").concat(
                data.as_str(),
            ),
            AuthAPIError::MismatchIdentification => String::from_str("Mismatch identification"),
        }
    }

    /// What goes out for this refusal: its status and its body. Each kind
    /// of refusal has one status, whatever text it carries.
    pub fn into_response(self) -> (response: (u16, ErrorResponse))
        ensures
            response.0 == status_of(self@),
            response.1.error@ == body_of(self@),
    {
        let (status, error_msg): (u16, String) = match self {
            AuthAPIError::UserAlreadyExists => (409, String::from_str("User already exist")),
            AuthAPIError::UserNotFound => (404, String::from_str("User not found")),
            AuthAPIError::IncorrectCredentials => (401, String::from_str("Invalid credentials")),
            AuthAPIError::MissingToken => (400, String::from_str("Missing JWT Token!")),
            AuthAPIError::MismatchIdentification => (401, String::from_str("Mismatch identity")),
            AuthAPIError::InvalidToken => (401, String::from_str("Invalid JWT Token")),
            AuthAPIError::UnexpectedError(report) => (500, report),
            AuthAPIError::InvalidData(data) => (
                400,
                String::from_str("Invalid data: ").concat(data.as_str()),
            ),
        };
        (status, ErrorResponse { error: error_msg })
    }
}

/// The rule drawn above and below a logged chain of errors.
pub const CHAIN_SEPARATOR: &'static str =
    "\n-------------------------------------------------------------------\n";

/// The causes of a chain, each under its own heading, in the order given.
pub open spec fn causes_text(causes: Seq<String>) -> Seq<char>
    decreases causes.len(),
{
    if causes.len() == 0 {
        Seq::<char>::empty()
    } else {
        causes_text(causes.drop_last()) + "\n"@ + "Caused by:\n\n"@ + causes.last()@
    }
}

/// A chain of errors as it is written to a log: the error itself, then
/// its causes, between two rules.
pub open spec fn error_chain_text(head: Seq<char>, causes: Seq<String>) -> Seq<char> {
    CHAIN_SEPARATOR@ + head + "\n"@ + causes_text(causes) + "\n"@ + CHAIN_SEPARATOR@
}

/// Lays out an error and the chain of its causes for the log. `head` is
/// the error as the log shows it, `causes` are its causes, the nearest
/// first.
pub fn log_error_chain(head: &str, causes: &Vec<String>) -> (report: String)
    ensures
        report@ == error_chain_text(head@, causes@),
{
    let mut report = String::from_str(CHAIN_SEPARATOR);
    report.append(head);
    report.append("\n");
    let mut at: usize = 0;
    assert(causes@.take(0) =~= Seq::<String>::empty());
    while at < causes.len()
        invariant
            at <= causes@.len(),
            report@ == CHAIN_SEPARATOR@ + head@ + "\n"@ + causes_text(causes@.take(at as int)),
        decreases causes@.len() - at,
    {
        proof {
            let longer = causes@.take(at + 1);
            assert(longer.drop_last() =~= causes@.take(at as int));
            assert(longer.last() == causes@[at as int]);
        }
        report.append("\n");
        report.append("Caused by:\n\n");
        report.append(causes[at].as_str());
        at = at + 1;
        assert(report@ =~= CHAIN_SEPARATOR@ + head@ + "\n"@ + causes_text(causes@.take(at as int)));
    }
    assert(causes@.take(at as int) =~= causes@);
    report.append("\n");
    report.append(CHAIN_SEPARATOR);
    report
}

} // verus!
