use vstd::prelude::*;
use vstd::string::StringExecFns;

verus! {

/// Why an operation of the credential lifecycle did not succeed.
#[derive(Debug, Clone, PartialEq, Eq)]
pub enum Error {
    /// The identity provider answered the authorization request with a
    /// status outside 200-299.
    ProviderError { status: u16, body: String },
    /// The identity provider answered with a body of the wrong shape.
    ProtocolError(String),
    /// The identity provider ended the device flow with this error code.
    AuthenticationFailed(String),
    /// The credential file, or the directory that holds it, could not be
    /// read or written.
    PersistenceError(String),
    /// The credential file exists and is not a credential.
    CorruptCredential(String),
    /// No credential is stored.
    NotAuthenticated,
    /// The stored credential was past its expiry and has been discarded.
    TokenExpired,
    /// The remote API answered with a status outside 200-299.
    ApiError { status: u16, body: String },
    /// No answer came back from the network.
    TransportError(String),
    /// The remote API answered with a body that the caller could not decode.
    ResponseDecodeError(String),
}

/// An [`Error`] with each text as a sequence of characters.
pub enum ErrorView {
    ProviderError { status: u16, body: Seq<char> },
    ProtocolError(Seq<char>),
    AuthenticationFailed(Seq<char>),
    PersistenceError(Seq<char>),
    CorruptCredential(Seq<char>),
    NotAuthenticated,
    TokenExpired,
    ApiError { status: u16, body: Seq<char> },
    TransportError(Seq<char>),
    ResponseDecodeError(Seq<char>),
}

impl View for Error {
    type V = ErrorView;

    open spec fn view(&self) -> ErrorView {
        match *self {
            Error::ProviderError { status, body } => ErrorView::ProviderError { status, body: body@ },
            Error::ProtocolError(m) => ErrorView::ProtocolError(m@),
            Error::AuthenticationFailed(code) => ErrorView::AuthenticationFailed(code@),
            Error::PersistenceError(m) => ErrorView::PersistenceError(m@),
            Error::CorruptCredential(m) => ErrorView::CorruptCredential(m@),
            Error::NotAuthenticated => ErrorView::NotAuthenticated,
            Error::TokenExpired => ErrorView::TokenExpired,
            Error::ApiError { status, body } => ErrorView::ApiError { status, body: body@ },
            Error::TransportError(m) => ErrorView::TransportError(m@),
            Error::ResponseDecodeError(m) => ErrorView::ResponseDecodeError(m@),
        }
    }
}

/// The character of one decimal digit.
pub open spec fn digit_char(digit: int) -> char {
    (0x30 + digit) as u8 as char
}

/// A natural number in decimal, without leading zeros.
pub open spec fn spec_decimal(number: nat) -> Seq<char>
    decreases number,
{
    if number < 10 {
        seq![digit_char(number as int)]
    } else {
        spec_decimal(number / 10) + seq![digit_char((number % 10) as int)]
    }
}

/// What an error says to the user: what failed, with the status, body, code
/// or reason that came with it, and for a missing or expired login what to
/// do about it.
pub open spec fn spec_message(error: ErrorView) -> Seq<char> {
    match error {
        ErrorView::ProviderError { status, body } => "Device flow request failed with status "@
            + spec_decimal(status as nat) + ": "@ + body,
        ErrorView::ProtocolError(why) => "Malformed response from the identity provider: "@ + why,
        ErrorView::AuthenticationFailed(code) => "Authentication failed: "@ + code,
        ErrorView::PersistenceError(why) => "Failed to access the tokens file: "@ + why,
        ErrorView::CorruptCredential(why) => "Failed to parse tokens file: "@ + why,
        ErrorView::NotAuthenticated => "Not logged in. Please run 'nxthdr login' first."@,
        ErrorView::TokenExpired => "Access token expired. Please run 'nxthdr login' again."@,
        ErrorView::ApiError { status, body } => "API request failed with status "@ + spec_decimal(
            status as nat,
        ) + ": "@ + body,
        ErrorView::TransportError(why) => "Failed to send request: "@ + why,
        ErrorView::ResponseDecodeError(why) => "Failed to parse response: "@ + why,
    }
}

/// The text of one decimal digit.
fn digit_text(digit: u16) -> (text: &'static str)
    requires
        digit < 10,
    ensures
        text@ == seq![digit_char(digit as int)],
{
    proof {
        reveal_strlit("0");
        reveal_strlit("1");
        reveal_strlit("2");
        reveal_strlit("3");
        reveal_strlit("4");
        reveal_strlit("5");
        reveal_strlit("6");
        reveal_strlit("7");
        reveal_strlit("8");
        reveal_strlit("9");
    }
    let text = match digit {
        0 => "0",
        1 => "1",
        2 => "2",
        3 => "3",
        4 => "4",
        5 => "5",
        6 => "6",
        7 => "7",
        8 => "8",
        _ => "9",
    };
    assert(text@ =~= seq![digit_char(digit as int)]);
    text
}

/// Writes a number in decimal, without leading zeros.
pub fn decimal(number: u16) -> (text: String)
    ensures
        text@ == spec_decimal(number as nat),
    decreases number,
{
    if number < 10 {
        String::from_str(digit_text(number))
    } else {
        decimal(number / 10).concat(digit_text(number % 10))
    }
}

impl Error {
    /// What this error says to the user: see [`spec_message`].
    pub fn message(&self) -> (text: String)
        ensures
            text@ == spec_message(self@),
    {
        match self {
            Error::ProviderError { status, body } => String::from_str(
                "Device flow request failed with status ",
            ).concat(decimal(*status).as_str()).concat(": ").concat(body.as_str()),
            Error::ProtocolError(why) => String::from_str(
                "Malformed response from the identity provider: ",
            ).concat(why.as_str()),
            Error::AuthenticationFailed(code) => String::from_str("Authentication failed: ").concat(
                code.as_str(),
            ),
            Error::PersistenceError(why) => String::from_str(
                "Failed to access the tokens file: ",
            ).concat(why.as_str()),
            Error::CorruptCredential(why) => String::from_str(
                "Failed to parse tokens file: ",
            ).concat(why.as_str()),
            Error::NotAuthenticated => String::from_str(
                "Not logged in. Please run 'nxthdr login' first.",
            ),
            Error::TokenExpired => String::from_str(
                "Access token expired. Please run 'nxthdr login' again.",
            ),
            Error::ApiError { status, body } => String::from_str(
                "API request failed with status ",
            ).concat(decimal(*status).as_str()).concat(": ").concat(body.as_str()),
            Error::TransportError(why) => String::from_str("Failed to send request: ").concat(
                why.as_str(),
            ),
            Error::ResponseDecodeError(why) => String::from_str("Failed to parse response: ").concat(
                why.as_str(),
            ),
        }
    }
}

} // verus!
