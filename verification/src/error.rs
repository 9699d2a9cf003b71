//! Errors of the transport.

use vstd::prelude::*;

verus! {

/// Failures of a network connection.
#[derive(Debug)]
pub enum NetworkError {
    /// The connection to `addr` failed or went away.
    ConnectionFailed { addr: String, reason: String },
}

/// Errors that a remote operation can end with.
#[derive(Debug)]
pub enum RocketMQError {
    /// A connection failed.
    Network(NetworkError),
    /// Reading from or writing to a stream failed.
    IO(String),
    /// An operation did not end within its time.
    Timeout { operation: &'static str, timeout_ms: u64 },
    /// A remote call failed.
    Remote(String),
    /// Any other failure, such as a command that cannot be encoded.
    Other(String),
}

/// The result of a remote operation.
pub type RocketMQResult<T> = Result<T, RocketMQError>;

/// What a [`RocketMQError`] says, with its texts as character sequences.
pub enum ErrorView {
    Network { addr: Seq<char>, reason: Seq<char> },
    IO(Seq<char>),
    Timeout { operation: Seq<char>, timeout_ms: u64 },
    Remote(Seq<char>),
    Other(Seq<char>),
}

/// The decimal digits of `number`.
pub open spec fn decimal(number: nat) -> Seq<char>
    decreases number,
{
    let last = (('0' as u32 + number % 10) as u32) as char;
    if number < 10 {
        seq![last]
    } else {
        decimal(number / 10).push(last)
    }
}

impl ErrorView {
    /// The text by which an error is reported. The words are this library's
    /// own, and so is the choice of what they mention.
    pub open spec fn text(self) -> Seq<char> {
        match self {
            ErrorView::Network { addr, reason } => "Connection failed to "@ + addr + ": "@ + reason,
            ErrorView::IO(message) => "IO error: "@ + message,
            ErrorView::Timeout { operation, timeout_ms } => operation + " timed out after "@
                + decimal(timeout_ms as nat) + "ms"@,
            ErrorView::Remote(message) => message,
            ErrorView::Other(message) => message,
        }
    }
}

/// What a result says, with the texts of an error as character sequences.
pub open spec fn result_view<T>(result: RocketMQResult<T>) -> Result<T, ErrorView> {
    match result {
        Ok(value) => Ok(value),
        Err(error) => Err(error@),
    }
}

impl View for RocketMQError {
    type V = ErrorView;

    open spec fn view(&self) -> ErrorView {
        match self {
            RocketMQError::Network(NetworkError::ConnectionFailed { addr, reason }) => {
                ErrorView::Network { addr: addr@, reason: reason@ }
            },
            RocketMQError::IO(message) => ErrorView::IO(message@),
            RocketMQError::Timeout { operation, timeout_ms } => ErrorView::Timeout {
                operation: operation@,
                timeout_ms: *timeout_ms,
            },
            RocketMQError::Remote(message) => ErrorView::Remote(message@),
            RocketMQError::Other(message) => ErrorView::Other(message@),
        }
    }
}

impl RocketMQError {
    /// The error of a failed connection to `addr`.
    pub fn network_connection_failed(addr: &str, reason: &str) -> (error: Self)
        ensures
            error@ == (ErrorView::Network { addr: addr@, reason: reason@ }),
    {
        RocketMQError::Network(
            NetworkError::ConnectionFailed { addr: addr.to_owned(), reason: reason.to_owned() },
        )
    }

    /// The text by which the error is reported, in this library's own words.
    /// Callers tell errors apart by their variants.
    pub fn text(&self) -> (text: String)
        ensures
            text@ == self@.text(),
    {
        match self {
            RocketMQError::Network(NetworkError::ConnectionFailed { addr, reason }) => {
                let mut text = prefixed("Connection failed to ", addr);
                text.append(": ");
                text.append(reason);
                text
            },
            RocketMQError::IO(message) => prefixed("IO error: ", message),
            RocketMQError::Timeout { operation, timeout_ms } => {
                let mut text = prefixed(operation, " timed out after ");
                let digits = decimal_text(*timeout_ms);
                text.append(&digits);
                text.append("ms");
                text
            },
            RocketMQError::Remote(message) => message.clone(),
            RocketMQError::Other(message) => message.clone(),
        }
    }
}

/// The decimal digits of `number`.
fn decimal_text(number: u64) -> (text: String)
    ensures
        text@ == decimal(number as nat),
    decreases number,
{
    let digit = digit_text((number % 10) as u8);
    if number < 10 {
        proof {
            assert(decimal(number as nat) =~= digit@);
        }
        digit
    } else {
        let mut text = decimal_text(number / 10);
        text.append(&digit);
        proof {
            assert(text@ =~= decimal(number as nat));
        }
        text
    }
}

/// The decimal digit `digit`.
fn digit_text(digit: u8) -> (text: String)
    requires
        digit < 10,
    ensures
        text@ == seq![(('0' as u32 + digit) as u32) as char],
{
    proof {
        reveal_strlit("0");
        reveal_strlit("1");
        reveal_strlit("2");
        reveal_strlit("3");
        reveal_strlit("4");
        reveal_strlit("5");
        reveal_strlit("6");
        reveal_strlit("7");
        reveal_strlit("8");
        reveal_strlit("9");
    }
    let text = match digit {
        0 => "0",
        1 => "1",
        2 => "2",
        3 => "3",
        4 => "4",
        5 => "5",
        6 => "6",
        7 => "7",
        8 => "8",
        _ => "9",
    };
    assert(text@ =~= seq![(('0' as u32 + digit) as u32) as char]);
    text.to_owned()
}

/// The error of a failed remote call. That it is [`RocketMQError::Remote`], and
/// carries the message as it is, is this library's own choice.
pub fn remote_error(message: &str) -> (error: RocketMQError)
    ensures
        error@ == ErrorView::Remote(message@),
{
    RocketMQError::Remote(message.to_owned())
}

/// The error of a failed stream operation, given the text of the failure.
pub fn io_error(message: &str) -> (error: RocketMQError)
    ensures
        error@ == ErrorView::IO(message@),
{
    RocketMQError::IO(message.to_owned())
}

/// `prefix` followed by `text`.
pub(crate) fn prefixed(prefix: &str, text: &str) -> (message: String)
    ensures
        message@ == prefix@ + text@,
{
    let mut message = prefix.to_owned();
    message.append(text);
    message
}

} // verus!
