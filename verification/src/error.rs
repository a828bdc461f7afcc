//! The errors of a call, and what each of them carries.

use vstd::prelude::*;
use vstd::string::*;

verus! {

/// What the transport knows of an attempt that produced no HTTP answer.
#[derive(Debug)]
pub struct TransportFailure {
    /// The connection to the host could not be made.
    pub connect: bool,
    /// The attempt ran into its timeout.
    pub timeout: bool,
    /// The request could not be built or sent.
    pub request: bool,
    /// The transport's own description of the failure.
    pub detail: String,
}

/// The mathematical value of a [`TransportFailure`].
pub struct TransportFailureView {
    pub connect: bool,
    pub timeout: bool,
    pub request: bool,
    pub detail: Seq<char>,
}

impl View for TransportFailure {
    type V = TransportFailureView;

    open spec fn view(&self) -> TransportFailureView {
        TransportFailureView {
            connect: self.connect,
            timeout: self.timeout,
            request: self.request,
            detail: self.detail@,
        }
    }
}

impl TransportFailureView {
    /// A failure of this kind may be gone on another host.
    pub open spec fn is_retryable(self) -> bool {
        self.connect || self.timeout || self.request
    }
}

/// What the decoder reported of a body that does not have the expected
/// shape.
#[derive(Debug)]
pub struct DecodeFailure {
    /// The decoder's own description of the failure.
    pub detail: String,
    /// The line of the body at which decoding stopped, from 1; 0 where the
    /// decoder gave no position.
    pub line: usize,
    /// The column in that line, from 1; 0 where the decoder gave no position.
    pub column: usize,
}

/// The mathematical value of a [`DecodeFailure`].
pub struct DecodeFailureView {
    pub detail: Seq<char>,
    pub line: usize,
    pub column: usize,
}

impl View for DecodeFailure {
    type V = DecodeFailureView;

    open spec fn view(&self) -> DecodeFailureView {
        DecodeFailureView { detail: self.detail@, line: self.line, column: self.column }
    }
}

/// The error of a call.
#[derive(Debug)]
pub enum Error {
    /// The transport failed before any HTTP answer was read.
    Http(TransportFailure),
    /// A body was read but could not be decoded into the expected shape.
    Serde(DecodeFailure),
    /// A host answered with a status outside 2xx, or the call was refused
    /// before anything was sent.
    Api { status: u16, message: Option<String>, body: String },
}

/// The mathematical value of an [`Error`].
pub enum ErrorView {
    Http(TransportFailureView),
    Serde(DecodeFailureView),
    Api { status: u16, message: Option<Seq<char>>, body: Seq<char> },
}

impl View for Error {
    type V = ErrorView;

    open spec fn view(&self) -> ErrorView {
        match *self {
            Error::Http(failure) => ErrorView::Http(failure@),
            Error::Serde(failure) => ErrorView::Serde(failure@),
            Error::Api { status, message, body } => ErrorView::Api {
                status,
                message: message.deep_view(),
                body: body@,
            },
        }
    }
}

impl DeepView for Error {
    type V = ErrorView;

    open spec fn deep_view(&self) -> ErrorView {
        self@
    }
}

/// The error of a call that is refused before anything is sent: status 400,
/// the given message, and no body.
pub open spec fn refusal(message: Seq<char>) -> ErrorView {
    ErrorView::Api { status: 400, message: Some(message), body: Seq::empty() }
}

/// The error of a call on which every host failed before any attempt left a
/// more specific one.
pub open spec fn all_hosts_failed() -> ErrorView {
    ErrorView::Api { status: 0, message: Some("all hosts failed"@), body: Seq::empty() }
}

/// The character of the decimal digit `digit`.
pub open spec fn digit_char(digit: nat) -> char {
    if digit == 0 {
        '0'
    } else if digit == 1 {
        '1'
    } else if digit == 2 {
        '2'
    } else if digit == 3 {
        '3'
    } else if digit == 4 {
        '4'
    } else if digit == 5 {
        '5'
    } else if digit == 6 {
        '6'
    } else if digit == 7 {
        '7'
    } else if digit == 8 {
        '8'
    } else {
        '9'
    }
}

/// The decimal numeral of `n`, without leading zeros.
pub open spec fn decimal(n: nat) -> Seq<char>
    decreases n,
{
    if n < 10 {
        seq![digit_char(n)]
    } else {
        decimal(n / 10).push(digit_char(n % 10))
    }
}

impl ErrorView {
    /// The HTTP status that produced the error; 0 where no HTTP answer did.
    pub open spec fn status_code(self) -> u16 {
        match self {
            ErrorView::Api { status, .. } => status,
            _ => 0,
        }
    }

    /// What went wrong, in the words of the host where it gave any: the
    /// message of an API error, or its raw body where it has no message; the
    /// description of a transport or decode failure.
    pub open spec fn detail(self) -> Seq<char> {
        match self {
            ErrorView::Http(failure) => failure.detail,
            ErrorView::Serde(failure) => failure.detail,
            ErrorView::Api { message: Some(message), .. } => message,
            ErrorView::Api { message: None, body, .. } => body,
        }
    }

    /// How the text of the error begins: the kind of the error, and the
    /// status of an API error.
    pub open spec fn heading(self) -> Seq<char> {
        match self {
            ErrorView::Http(_) => "http error: "@,
            ErrorView::Serde(_) => "serde error: "@,
            ErrorView::Api { status, .. } => "Algolia API error (status "@ + decimal(status as nat)
                + "): "@,
        }
    }
}

/// The numeral of one decimal digit.
fn digit_text(digit: u16) -> (text: &'static str)
    requires
        digit < 10,
    ensures
        text@ == seq![digit_char(digit as nat)],
{
    proof {
        reveal_strlit("0");
        reveal_strlit("1");
        reveal_strlit("2");
        reveal_strlit("3");
        reveal_strlit("4");
        reveal_strlit("5");
        reveal_strlit("6");
        reveal_strlit("7");
        reveal_strlit("8");
        reveal_strlit("9");
    }
    let text = if digit == 0 {
        "0"
    } else if digit == 1 {
        "1"
    } else if digit == 2 {
        "2"
    } else if digit == 3 {
        "3"
    } else if digit == 4 {
        "4"
    } else if digit == 5 {
        "5"
    } else if digit == 6 {
        "6"
    } else if digit == 7 {
        "7"
    } else if digit == 8 {
        "8"
    } else {
        "9"
    };
    assert(text@ =~= seq![digit_char(digit as nat)]);
    text
}

/// Appends the decimal numeral of `n` to `text`.
fn push_decimal(text: &mut String, n: u16)
    ensures
        final(text)@ == old(text)@ + decimal(n as nat),
    decreases n,
{
    if n >= 10 {
        push_decimal(text, n / 10);
    }
    text.append(digit_text(n % 10));
    assert(final(text)@ =~= old(text)@ + decimal(n as nat));
}

/// Formats `message` with `{:?}`, that is with std's `Debug` for
/// `Option<String>`. Nothing is claimed of the text: std does not fix it.
#[verifier::external_body]
fn debug_text(message: &Option<String>) -> (text: String) {
    format!("{:?}", message)
}

impl Error {
    /// An API error with status 400 that carries `message` and no body.
    pub fn bad_request(message: &str) -> (error: Error)
        ensures
            error@ == refusal(message@),
    {
        Error::Api { status: 400, message: Some(String::from_str(message)), body: String::new() }
    }

    /// The HTTP status that produced the error; 0 where no HTTP answer did.
    pub fn status_code(&self) -> (status: u16)
        ensures
            status == self@.status_code(),
    {
        match self {
            Error::Api { status, .. } => *status,
            _ => 0,
        }
    }

    /// What went wrong, in the words of the host where it gave any: the
    /// message of an API error, or its raw body where it has no message; the
    /// description of a transport or decode failure.
    pub fn detail(&self) -> (detail: &str)
        ensures
            detail@ == self@.detail(),
    {
        match self {
            Error::Http(failure) => failure.detail.as_str(),
            Error::Serde(failure) => failure.detail.as_str(),
            Error::Api { message: Some(message), .. } => message.as_str(),
            Error::Api { message: None, body, .. } => body.as_str(),
        }
    }

    /// The text of the error. A transport or decode failure reads
    /// `http error: ` or `serde error: ` and then its description. An API
    /// error reads `Algolia API error (status `, the status in decimal,
    /// `): `, and then the message as `{:?}` prints it.
    pub fn describe(&self) -> (text: String)
        ensures
            self@.heading().is_prefix_of(text@),
            !(self@ is Api) ==> text@ == self@.heading() + self@.detail(),
    {
        match self {
            Error::Http(failure) => {
                let mut text = String::from_str("http error: ");
                text.append(failure.detail.as_str());
                text
            },
            Error::Serde(failure) => {
                let mut text = String::from_str("serde error: ");
                text.append(failure.detail.as_str());
                text
            },
            Error::Api { status, message, .. } => {
                let mut text = String::from_str("Algolia API error (status ");
                push_decimal(&mut text, *status);
                text.append("): ");
                let shown = debug_text(message);
                text.append(shown.as_str());
                text
            },
        }
    }
}

impl From<TransportFailure> for Error {
    fn from(failure: TransportFailure) -> (error: Error) {
        Error::Http(failure)
    }
}

impl vstd::std_specs::convert::FromSpecImpl<TransportFailure> for Error {
    open spec fn obeys_from_spec() -> bool {
        true
    }

    open spec fn from_spec(failure: TransportFailure) -> Error {
        Error::Http(failure)
    }
}

impl From<DecodeFailure> for Error {
    fn from(failure: DecodeFailure) -> (error: Error) {
        Error::Serde(failure)
    }
}

impl vstd::std_specs::convert::FromSpecImpl<DecodeFailure> for Error {
    open spec fn obeys_from_spec() -> bool {
        true
    }

    open spec fn from_spec(failure: DecodeFailure) -> Error {
        Error::Serde(failure)
    }
}

} // verus!
