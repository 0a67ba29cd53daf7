//! What an operation can fail with.

use vstd::prelude::*;
use vstd::string::*;
use vstd::utf8::*;

use crate::text;
use crate::text::{c_string, push_decimal, push_numeral, NulError};

verus! {

/// A failure of the operating system: its error number, where it gave one, and
/// the text that describes it.
#[derive(Debug)]
pub struct IoError {
    pub code: Option<i32>,
    pub message: String,
}

/// What an operation can fail with.
#[derive(Debug)]
pub enum Error {
    /// No NFS context could be had.
    ContextCreation,
    /// The server, or libnfs on its behalf, answered with an error.
    Nfs { code: i32, message: String },
    /// libnfs would not start the operation.
    Submit(String),
    /// A string argument holds a zero byte.
    InvalidString(NulError),
    /// The operating system refused something.
    Io(IoError),
    /// The event loop went away before the operation was done.
    Cancelled,
    /// No answer came within so many seconds.
    Timeout(u64),
}

/// An `Error`, its strings taken as text.
pub enum ErrorView {
    ContextCreation,
    Nfs { code: int, message: Seq<char> },
    Submit(Seq<char>),
    InvalidString { position: nat, bytes: Seq<u8> },
    Io { os_code: Option<i32>, message: Seq<char> },
    Cancelled,
    Timeout(nat),
}

impl View for Error {
    type V = ErrorView;

    open spec fn view(&self) -> ErrorView {
        match self {
            Error::ContextCreation => ErrorView::ContextCreation,
            Error::Nfs { code, message } => ErrorView::Nfs { code: *code as int, message: message@ },
            Error::Submit(message) => ErrorView::Submit(message@),
            Error::InvalidString(e) => ErrorView::InvalidString {
                position: e.position as nat,
                bytes: e.bytes@,
            },
            Error::Io(e) => ErrorView::Io { os_code: e.code, message: e.message@ },
            Error::Cancelled => ErrorView::Cancelled,
            Error::Timeout(seconds) => ErrorView::Timeout(*seconds as nat),
        }
    }
}

/// The message that describes an error to a reader.
pub open spec fn error_text(e: ErrorView) -> Seq<char> {
    match e {
        ErrorView::ContextCreation => "failed to create NFS context"@,
        ErrorView::Nfs { code, message } => "NFS error (code "@ + text::decimal(code) + "): "@ + message,
        ErrorView::Submit(message) => "failed to submit async operation: "@ + message,
        ErrorView::InvalidString { position, bytes } =>
            "invalid string argument: nul byte found in provided data at position: "@ + text::numeral(
            position,
            10,
        ),
        ErrorView::Io { os_code, message } => "I/O error: "@ + message,
        ErrorView::Cancelled => "operation cancelled"@,
        ErrorView::Timeout(seconds) => "operation timed out after "@ + text::numeral(seconds, 10)
            + " seconds"@,
    }
}

impl Error {
    /// The message that describes the error.
    pub fn to_string(&self) -> (r: String)
        ensures
            r@ == error_text(self@),
            match *self {
                Error::ContextCreation => r@ == "failed to create NFS context"@,
                Error::Nfs { code, message } => r@ == "NFS error (code "@ + text::decimal(
                    code as int,
                ) + "): "@ + message@,
                Error::Submit(message) => r@ == "failed to submit async operation: "@ + message@,
                Error::InvalidString(e) => r@
                    == "invalid string argument: nul byte found in provided data at position: "@
                    + text::numeral(e.position as nat, 10),
                Error::Io(e) => r@ == "I/O error: "@ + e.message@,
                Error::Cancelled => r@ == "operation cancelled"@,
                Error::Timeout(seconds) => r@ == "operation timed out after "@ + text::numeral(
                    seconds as nat,
                    10,
                ) + " seconds"@,
            },
    {
        let mut out = String::new();
        match self {
            Error::ContextCreation => {
                out.append("failed to create NFS context");
            },
            Error::Nfs { code, message } => {
                out.append("NFS error (code ");
                push_decimal(&mut out, *code as i64);
                out.append("): ");
                out.append(message.as_str());
            },
            Error::Submit(message) => {
                out.append("failed to submit async operation: ");
                out.append(message.as_str());
            },
            Error::InvalidString(e) => {
                out.append("invalid string argument: nul byte found in provided data at position: ");
                push_numeral(&mut out, e.position as u64, 10);
            },
            Error::Io(e) => {
                out.append("I/O error: ");
                out.append(e.message.as_str());
            },
            Error::Cancelled => {
                out.append("operation cancelled");
            },
            Error::Timeout(seconds) => {
                out.append("operation timed out after ");
                push_numeral(&mut out, *seconds, 10);
                out.append(" seconds");
            },
        }
        assert(out@ =~= error_text(self@));
        out
    }
}

impl Clone for Error {
    fn clone(&self) -> (r: Self)
        ensures
            r@ == self@,
            match (*self, r) {
                (Error::ContextCreation, Error::ContextCreation) => true,
                (Error::Nfs { code, message }, Error::Nfs { code: c, message: m }) => c == code && m@
                    == message@,
                (Error::Submit(message), Error::Submit(m)) => m@ == message@,
                (Error::InvalidString(e), Error::InvalidString(f)) => f.position == e.position
                    && f.bytes@ == e.bytes@,
                (Error::Io(e), Error::Io(f)) => f.code == e.code && f.message@ == e.message@,
                (Error::Cancelled, Error::Cancelled) => true,
                (Error::Timeout(seconds), Error::Timeout(t)) => t == seconds,
                _ => false,
            },
    {
        match self {
            Error::ContextCreation => Error::ContextCreation,
            Error::Nfs { code, message } => Error::Nfs { code: *code, message: message.clone() },
            Error::Submit(message) => Error::Submit(message.clone()),
            Error::InvalidString(e) => {
                let bytes = e.bytes.clone();
                assert(bytes@ =~= e.bytes@);
                Error::InvalidString(NulError { position: e.position, bytes })
            },
            Error::Io(e) => Error::Io(IoError { code: e.code, message: e.message.clone() }),
            Error::Cancelled => Error::Cancelled,
            Error::Timeout(seconds) => Error::Timeout(*seconds),
        }
    }
}

impl From<NulError> for Error {
    fn from(e: NulError) -> (r: Self)
        ensures
            r == Error::InvalidString(e),
    {
        Error::InvalidString(e)
    }
}

impl vstd::std_specs::convert::FromSpecImpl<NulError> for Error {
    open spec fn obeys_from_spec() -> bool {
        true
    }

    open spec fn from_spec(e: NulError) -> Self {
        Error::InvalidString(e)
    }
}

impl From<IoError> for Error {
    fn from(e: IoError) -> (r: Self)
        ensures
            r == Error::Io(e),
    {
        Error::Io(e)
    }
}

impl vstd::std_specs::convert::FromSpecImpl<IoError> for Error {
    open spec fn obeys_from_spec() -> bool {
        true
    }

    open spec fn from_spec(e: IoError) -> Self {
        Error::Io(e)
    }
}

/// A string argument as C gets it, or the error that refuses it.
pub open spec fn c_argument_spec(s: Seq<char>) -> Result<Seq<u8>, ErrorView> {
    if s.contains('\0') {
        Err(
            ErrorView::InvalidString {
                position: text::first_nul(encode_utf8(s)) as nat,
                bytes: encode_utf8(s),
            },
        )
    } else {
        Ok(encode_utf8(s).push(0))
    }
}

/// A string argument as C gets it, or the error that refuses it.
pub fn c_argument(s: &str) -> (r: Result<Vec<u8>, Error>)
    ensures
        match r {
            Ok(bytes) => c_argument_spec(s@) == Ok::<Seq<u8>, ErrorView>(bytes@),
            Err(e) => c_argument_spec(s@) == Err::<Seq<u8>, ErrorView>(e@),
        },
        match r {
            Ok(bytes) => !s@.contains('\0') && bytes@ == encode_utf8(s@).push(0),
            Err(Error::InvalidString(e)) => {
                &&& s@.contains('\0')
                &&& e.bytes@ == encode_utf8(s@)
                &&& e.position < e.bytes@.len()
                &&& e.bytes@[e.position as int] == 0
                &&& forall|i: int| 0 <= i < e.position ==> e.bytes@[i] != 0
            },
            Err(_) => false,
        },
{
    proof {
        text::law_first_nul(encode_utf8(s@));
        text::law_nul_byte_is_nul_char(s@);
        if s@.contains('\0') {
            let i = choose|i: int| 0 <= i < encode_utf8(s@).len() && encode_utf8(s@)[i] == 0;
            text::law_first_nul_is_least(encode_utf8(s@), i);
        }
    }
    match c_string(s) {
        Ok(bytes) => Ok(bytes),
        Err(e) => Err(Error::from(e)),
    }
}

/// C, which reads a string up to its first zero byte, reads all of the argument
/// that it was handed and nothing else.
pub proof fn law_c_reads_the_argument(s: Seq<char>)
    requires
        !s.contains('\0'),
    ensures
        c_argument_spec(s) matches Ok(bytes) && {
            &&& text::first_nul(bytes) < bytes.len()
            &&& bytes.take(text::first_nul(bytes)) == encode_utf8(s)
            &&& decode_utf8(bytes.take(text::first_nul(bytes))) == s
        },
{
    let content = encode_utf8(s);
    let bytes = content.push(0);
    text::law_nul_byte_is_nul_char(s);
    text::law_first_nul(bytes);
    let n = text::first_nul(bytes);
    assert(bytes.last() == 0);
    if n < content.len() {
        assert(content[n] == 0);
        assert(content.contains(0));
    }
    assert(n == content.len());
    assert(bytes.take(n) =~= content);
    encode_utf8_decode_utf8(s);
}

/// The error that an answer without a value stands for.
pub fn bridge_err(r: Result<(), (i32, String)>) -> (out: Result<(), Error>)
    ensures
        out == bridge_spec(r),
        r is Ok ==> out is Ok,
        r matches Err((code, message)) ==> out == Err::<(), Error>(Error::Nfs { code, message }),
{
    bridge_result(r)
}

/// What an answer means: its value, or an NFS error with its code and message.
pub open spec fn bridge_spec<T>(r: Result<T, (i32, String)>) -> Result<T, Error> {
    match r {
        Ok(value) => Ok(value),
        Err((code, message)) => Err(Error::Nfs { code, message }),
    }
}

/// The value of an answer, or the error that it stands for.
pub fn bridge_result<T>(r: Result<T, (i32, String)>) -> (out: Result<T, Error>)
    ensures
        out == bridge_spec(r),
        r matches Ok(value) ==> out == Ok::<T, Error>(value),
        r matches Err((code, message)) ==> out == Err::<T, Error>(Error::Nfs { code, message }),
{
    match r {
        Ok(value) => Ok(value),
        Err((code, message)) => Err(Error::Nfs { code, message }),
    }
}

/// The messages by which a reader tells the errors apart, each with what it has to
/// tell: a code, a text, the index of a byte or a number of seconds.
pub proof fn law_error_messages(
    code: int,
    message: Seq<char>,
    position: nat,
    bytes: Seq<u8>,
    os_code: Option<i32>,
    seconds: nat,
)
    ensures
        error_text(ErrorView::ContextCreation) == "failed to create NFS context"@,
        error_text(ErrorView::Nfs { code, message }) == "NFS error (code "@ + text::decimal(code)
            + "): "@ + message,
        error_text(ErrorView::Submit(message)) == "failed to submit async operation: "@ + message,
        error_text(ErrorView::InvalidString { position, bytes })
            == "invalid string argument: nul byte found in provided data at position: "@
            + text::numeral(position, 10),
        error_text(ErrorView::Io { os_code, message }) == "I/O error: "@ + message,
        error_text(ErrorView::Cancelled) == "operation cancelled"@,
        error_text(ErrorView::Timeout(seconds)) == "operation timed out after "@ + text::numeral(
            seconds,
            10,
        ) + " seconds"@,
{
}

/// A string argument is refused exactly where it holds the character NUL; the
/// refusal quotes its bytes and the index of the first zero byte among them. Any
/// other is handed over as its encoding and a final zero byte.
pub proof fn law_string_arguments(s: Seq<char>)
    ensures
        !s.contains('\0') ==> c_argument_spec(s) == Ok::<Seq<u8>, ErrorView>(encode_utf8(s).push(0)),
        s.contains('\0') ==> (c_argument_spec(s) matches Err(
            ErrorView::InvalidString { position, bytes },
        ) && bytes == encode_utf8(s) && position < bytes.len() && bytes[position as int] == 0 && forall|
            i: int,
        |
            0 <= i < position ==> bytes[i] != 0),
{
    text::law_first_nul(encode_utf8(s));
    text::law_nul_byte_is_nul_char(s);
    if s.contains('\0') {
        let i = choose|i: int| 0 <= i < encode_utf8(s).len() && encode_utf8(s)[i] == 0;
        text::law_first_nul_is_least(encode_utf8(s), i);
    }
}

/// An error keeps its code, its texts and its numbers when it is taken as text.
pub proof fn law_error_as_text(e: Error)
    ensures
        match e {
            Error::ContextCreation => e@ == ErrorView::ContextCreation,
            Error::Nfs { code, message } => e@ == (ErrorView::Nfs {
                code: code as int,
                message: message@,
            }),
            Error::Submit(message) => e@ == ErrorView::Submit(message@),
            Error::InvalidString(n) => e@ == (ErrorView::InvalidString {
                position: n.position as nat,
                bytes: n.bytes@,
            }),
            Error::Io(n) => e@ == (ErrorView::Io { os_code: n.code, message: n.message@ }),
            Error::Cancelled => e@ == ErrorView::Cancelled,
            Error::Timeout(seconds) => e@ == ErrorView::Timeout(seconds as nat),
        },
{
}

} // verus!
