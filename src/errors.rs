use vstd::prelude::*;

verus! {

/// The members of the panel's JSON envelopes that the library reads.
#[derive(Clone, Copy, Debug, PartialEq, Eq, Structural)]
pub enum Field {
    /// `result`
    ResultCode,
    /// `message`
    Message,
    /// `forms`
    Forms,
    /// `pcondform1`
    Form1,
    /// `pcondform2`
    Form2,
    /// `mode`
    Mode,
    /// `senrows`
    Rows,
    /// `sid`
    Sid,
    /// `type`
    Kind,
    /// `name`
    Name,
    /// `area`
    Area,
    /// `status_ex`
    State,
    /// `cond_ok`
    Condition,
    /// `battery_ok`
    Battery,
    /// `tamper_ok`
    Tamper,
}

impl Field {
    /// The key under which the member stands in a JSON object.
    pub open spec fn spec_key(self) -> Seq<char> {
        match self {
            Field::ResultCode => "result"@,
            Field::Message => "message"@,
            Field::Forms => "forms"@,
            Field::Form1 => "pcondform1"@,
            Field::Form2 => "pcondform2"@,
            Field::Mode => "mode"@,
            Field::Rows => "senrows"@,
            Field::Sid => "sid"@,
            Field::Kind => "type"@,
            Field::Name => "name"@,
            Field::Area => "area"@,
            Field::State => "status_ex"@,
            Field::Condition => "cond_ok"@,
            Field::Battery => "battery_ok"@,
            Field::Tamper => "tamper_ok"@,
        }
    }

    pub fn key(&self) -> (r: &'static str)
        ensures
            r@ == self.spec_key(),
    {
        match self {
            Field::ResultCode => "result",
            Field::Message => "message",
            Field::Forms => "forms",
            Field::Form1 => "pcondform1",
            Field::Form2 => "pcondform2",
            Field::Mode => "mode",
            Field::Rows => "senrows",
            Field::Sid => "sid",
            Field::Kind => "type",
            Field::Name => "name",
            Field::Area => "area",
            Field::State => "status_ex",
            Field::Condition => "cond_ok",
            Field::Battery => "battery_ok",
            Field::Tamper => "tamper_ok",
        }
    }
}

/// Why a reply body could not be read as the expected envelope.
#[derive(Clone, Copy, Debug, PartialEq, Eq, Structural)]
pub enum DecodeError {
    /// The text is not a JSON object.
    NotAnObject,
    /// The text is not a JSON array.
    NotAnArray,
    /// A member that the envelope needs is absent.
    MissingField(Field),
    /// The value is not a JSON string.
    NotAString,
    /// The value is neither an unsigned integer nor a string that holds one.
    NotANumber,
    /// The number stands for no variant of the enumeration.
    UnknownCode(u64),
}

/// Possible Errors
#[derive(Debug, PartialEq, Eq)]
pub enum Error {
    /// An error reported by the alarm panel
    Panel(String),
    /// The panel refused the credentials (HTTP 401)
    Unauthorized,
    /// A session timeout error
    SessionTimeout,
    /// An unexpected response error
    UnexpectedResponse {
        /// The HTTP status code of the response
        status: u16,
        /// The body of the HTTP response
        body: String,
    },
    /// A deserialization error
    Deserialize(DecodeError),
    /// An error converting the session token into a header
    InvalidHeader,
    /// A networking error communicating with the alarm panel
    Http(String),
    /// An error for I/O operations
    Io(String),
}

/// What an [`Error`] holds, with its texts as sequences of characters.
pub enum ErrorView {
    Panel(Seq<char>),
    Unauthorized,
    SessionTimeout,
    UnexpectedResponse { status: u16, body: Seq<char> },
    Deserialize(DecodeError),
    InvalidHeader,
    Http(Seq<char>),
    Io(Seq<char>),
}

impl View for Error {
    type V = ErrorView;

    open spec fn view(&self) -> ErrorView {
        match self {
            Error::Panel(m) => ErrorView::Panel(m@),
            Error::Unauthorized => ErrorView::Unauthorized,
            Error::SessionTimeout => ErrorView::SessionTimeout,
            Error::UnexpectedResponse { status, body } => ErrorView::UnexpectedResponse {
                status: *status,
                body: body@,
            },
            Error::Deserialize(e) => ErrorView::Deserialize(*e),
            Error::InvalidHeader => ErrorView::InvalidHeader,
            Error::Http(m) => ErrorView::Http(m@),
            Error::Io(m) => ErrorView::Io(m@),
        }
    }
}

impl Error {
    /// Indicates whether an error represents a session timeout issued by the lupusec panel.
    pub fn is_session_timeout(&self) -> (r: bool)
        ensures
            r == (self is SessionTimeout),
    {
        match self {
            Error::SessionTimeout => true,
            _ => false,
        }
    }
}

/// A decoding outcome, with the decoded value seen through its view.
pub open spec fn decoded<T: View>(r: Result<T, DecodeError>) -> Result<T::V, DecodeError> {
    match r {
        Ok(v) => Ok(v@),
        Err(e) => Err(e),
    }
}

/// An outcome of the library, with the value and the error seen through their views.
pub open spec fn outcome<T: View>(r: Result<T, Error>) -> Result<T::V, ErrorView> {
    match r {
        Ok(v) => Ok(v@),
        Err(e) => Err(e@),
    }
}

} // verus!
