//! The error type of the codec sessions.

use vstd::prelude::*;

verus! {

/// What a failed codec operation asks of its caller.
#[derive(Debug)]
pub enum Error {
    /// Valid input that this bridge does not cover; another implementation may.
    Unsupported(String),
    /// The input violates its format's rules.
    InvalidData(String),
    /// A limit or a busy resource stopped the operation.
    ResourceExhausted(String),
    /// Anything else; the message tells the whole story.
    Other(String),
    /// The end of the stream was reached.
    Eof,
    /// More input is needed before anything comes out.
    NeedMore,
}

/// An [`Error`] with its message as a sequence of characters.
#[verifier::ext_equal]
pub enum ErrorView {
    Unsupported(Seq<char>),
    InvalidData(Seq<char>),
    ResourceExhausted(Seq<char>),
    Other(Seq<char>),
    Eof,
    NeedMore,
}

impl View for Error {
    type V = ErrorView;

    open spec fn view(&self) -> ErrorView {
        match self {
            Error::Unsupported(m) => ErrorView::Unsupported(m@),
            Error::InvalidData(m) => ErrorView::InvalidData(m@),
            Error::ResourceExhausted(m) => ErrorView::ResourceExhausted(m@),
            Error::Other(m) => ErrorView::Other(m@),
            Error::Eof => ErrorView::Eof,
            Error::NeedMore => ErrorView::NeedMore,
        }
    }
}

/// `r` is the failure `e`.
pub open spec fn fails_with<T>(r: Result<T, Error>, e: ErrorView) -> bool {
    r is Err && r->Err_0@ == e
}

impl Error {
    /// An [`Error::Unsupported`] with the given message.
    pub fn unsupported(msg: &str) -> (e: Error)
        ensures
            e@ == ErrorView::Unsupported(msg@),
    {
        Error::Unsupported(msg.to_owned())
    }

    /// An [`Error::InvalidData`] with the given message.
    pub fn invalid(msg: &str) -> (e: Error)
        ensures
            e@ == ErrorView::InvalidData(msg@),
    {
        Error::InvalidData(msg.to_owned())
    }

    /// The text that reports this error.
    pub fn message(&self) -> (text: String)
        ensures
            text@ == error_text(self@),
    {
        match self {
            Error::Unsupported(m) => "unsupported: ".to_owned().concat(m.as_str()),
            Error::InvalidData(m) => "invalid data: ".to_owned().concat(m.as_str()),
            Error::ResourceExhausted(m) => "resource exhausted: ".to_owned().concat(m.as_str()),
            Error::Other(m) => m.clone(),
            Error::Eof => "end of stream".to_owned(),
            Error::NeedMore => "need more data".to_owned(),
        }
    }
}

/// The text of an error: its class, a colon, and its message.
pub open spec fn error_text(e: ErrorView) -> Seq<char> {
    match e {
        ErrorView::Unsupported(m) => "unsupported: "@ + m,
        ErrorView::InvalidData(m) => "invalid data: "@ + m,
        ErrorView::ResourceExhausted(m) => "resource exhausted: "@ + m,
        ErrorView::Other(m) => m,
        ErrorView::Eof => "end of stream"@,
        ErrorView::NeedMore => "need more data"@,
    }
}

/// An error keeps its kind and its message, and is told by them: a message that says it
/// all stands alone, any other behind its kind.
pub proof fn errors_tell_kind_and_message<T>(e: Error, r: Result<T, Error>, view: ErrorView)
    ensures
        match e {
            Error::Unsupported(m) => {
                &&& e@ == ErrorView::Unsupported(m@)
                &&& error_text(e@) == "unsupported: "@ + m@
            },
            Error::InvalidData(m) => {
                &&& e@ == ErrorView::InvalidData(m@)
                &&& error_text(e@) == "invalid data: "@ + m@
            },
            Error::ResourceExhausted(m) => {
                &&& e@ == ErrorView::ResourceExhausted(m@)
                &&& error_text(e@) == "resource exhausted: "@ + m@
            },
            Error::Other(m) => e@ == ErrorView::Other(m@) && error_text(e@) == m@,
            Error::Eof => e@ is Eof && error_text(e@) == "end of stream"@,
            Error::NeedMore => e@ is NeedMore && error_text(e@) == "need more data"@,
        },
        fails_with(r, view) <==> (r matches Err(failure) && failure@ == view),
{
}

} // verus!
