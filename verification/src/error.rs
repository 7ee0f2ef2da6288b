//! The error type shared by every fallible operation of the crate.

use vstd::prelude::*;
use crate::text::{decimal, to_decimal};

verus! {

/// A numeric failure code reported by the media library.
#[derive(Clone, Copy, Debug)]
pub struct AVError {
    errnum: i32,
}

impl AVError {
    /// The failure with the given code.
    pub fn new(errnum: i32) -> (result: AVError)
        ensures
            result.code() == errnum,
    {
        AVError { errnum }
    }

    /// The code as a mathematical value.
    pub closed spec fn code(&self) -> i32 {
        self.errnum
    }

    /// The code the media library reported.
    pub fn errnum(&self) -> (result: i32)
        ensures
            result == self.code(),
    {
        self.errnum
    }

    /// The text that describes a failure code: the media library's
    /// description of the code, or `Unknown AV error` where it has none,
    /// followed by the code in round brackets.
    pub open spec fn text(description: Option<Seq<char>>, errnum: i32) -> Seq<char> {
        (match description {
            Some(d) => d,
            None => "Unknown AV error"@,
        }) + " ("@ + decimal(errnum as int) + ")"@
    }

    /// The text that describes the failure, given the media library's
    /// description of the code where it has one.
    pub fn to_text(&self, description: Option<&str>) -> (result: String)
        ensures
            result@ == AVError::text(
                match description {
                    Some(d) => Some(d@),
                    None => None,
                },
                self.code(),
            ),
    {
        let mut out = match description {
            Some(d) => String::from_str(d),
            None => String::from_str("Unknown AV error"),
        };
        out.append(" (");
        let code = to_decimal(self.errnum);
        out.append(code.as_str());
        out.append(")");
        out
    }
}

/// Where an error came from.
#[derive(Debug)]
pub enum ErrorKind {
    /// The media library reported a failure code.
    AV(AVError),
    /// The crate's own checks failed.
    Other,
}

#[derive(Debug)]
struct Inner {
    msg: String,
    kind: ErrorKind,
}

/// A failure with a human-readable message and, where the media library
/// caused it, the library's numeric code.
#[derive(Debug)]
pub struct Error {
    inner: Box<Inner>,
}

/// What an [`Error`] says: its message and the media library's code, if any.
pub struct ErrorView {
    pub msg: Seq<char>,
    pub errnum: Option<i32>,
}

impl ErrorView {
    /// The view of an error raised by the crate's own checks.
    pub open spec fn other(msg: Seq<char>) -> ErrorView {
        ErrorView { msg, errnum: None }
    }

    /// The view of an error caused by the media library.
    pub open spec fn av(msg: Seq<char>, errnum: i32) -> ErrorView {
        ErrorView { msg, errnum: Some(errnum) }
    }
}

impl View for Error {
    type V = ErrorView;

    closed spec fn view(&self) -> ErrorView {
        ErrorView {
            msg: self.inner.msg@,
            errnum: match self.inner.kind {
                ErrorKind::AV(e) => Some(e.errnum),
                ErrorKind::Other => None,
            },
        }
    }
}

impl Error {
    /// An error raised by the crate's own checks.
    pub fn new(msg: &str) -> (result: Error)
        ensures
            result@ == ErrorView::other(msg@),
    {
        let inner = Inner { msg: msg.to_owned(), kind: ErrorKind::Other };
        Error { inner: Box::new(inner) }
    }

    /// An error caused by the media library, which reported `errnum`.
    pub fn from_with_errnum(msg: &str, errnum: i32) -> (result: Error)
        ensures
            result@ == ErrorView::av(msg@, errnum),
    {
        let averr = AVError::new(errnum);
        let inner = Inner { msg: msg.to_owned(), kind: ErrorKind::AV(averr) };
        Error { inner: Box::new(inner) }
    }

    /// The message of the error.
    pub fn description(&self) -> (result: &str)
        ensures
            result@ == self@.msg,
    {
        self.inner.msg.as_str()
    }

    /// The media library's failure behind this error, if there is one.
    pub fn source(&self) -> (result: Option<&AVError>)
        ensures
            match result {
                Some(e) => self@.errnum == Some(e.code()),
                None => self@.errnum is None,
            },
    {
        match &self.inner.kind {
            ErrorKind::AV(e) => Some(e),
            ErrorKind::Other => None,
        }
    }
}

/// Turns a status code of the media library into a result: zero is success,
/// anything else is an error that carries `msg` and the code.
pub fn empty_result(msg: &str, errnum: i32) -> (result: Result<(), Error>)
    ensures
        errnum == 0 ==> result is Ok,
        errnum != 0 ==> result is Err && result->Err_0@ == ErrorView::av(msg@, errnum),
{
    if errnum == 0 {
        Ok(())
    } else {
        Err(Error::from_with_errnum(msg, errnum))
    }
}

} // verus!
