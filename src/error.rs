use vstd::prelude::*;

verus! {

/// Every way an operation of this library can fail.
#[derive(Debug, Clone, PartialEq, Eq)]
pub enum Error {
    /// The request never got an HTTP response (network or connection failure).
    Transport { message: String },
    /// A non-success HTTP response that no operation classified further.
    Service { status: u16, body: String },
    /// A create request was refused because the name is taken.
    TableAlreadyExists { name: String },
    /// An open request named a table the service does not know.
    TableNotFound { name: String },
    /// The service refused the request's content.
    InvalidInput { message: String },
    /// The operation is not offered by a remote service.
    NotSupported { message: String },
    /// A success response whose body could not be decoded.
    Decode { message: String },
}

/// An [`Error`] seen as plain values: each text as a character sequence.
pub enum ErrorView {
    Transport { message: Seq<char> },
    Service { status: u16, body: Seq<char> },
    TableAlreadyExists { name: Seq<char> },
    TableNotFound { name: Seq<char> },
    InvalidInput { message: Seq<char> },
    NotSupported { message: Seq<char> },
    Decode { message: Seq<char> },
}

impl View for Error {
    type V = ErrorView;

    open spec fn view(&self) -> ErrorView {
        match self {
            Error::Transport { message } => ErrorView::Transport { message: message@ },
            Error::Service { status, body } => ErrorView::Service { status: *status, body: body@ },
            Error::TableAlreadyExists { name } => ErrorView::TableAlreadyExists { name: name@ },
            Error::TableNotFound { name } => ErrorView::TableNotFound { name: name@ },
            Error::InvalidInput { message } => ErrorView::InvalidInput { message: message@ },
            Error::NotSupported { message } => ErrorView::NotSupported { message: message@ },
            Error::Decode { message } => ErrorView::Decode { message: message@ },
        }
    }
}

} // verus!
