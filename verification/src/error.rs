use vstd::prelude::*;

verus! {

/// What can go wrong with one call of the API.
#[derive(Debug, Clone, PartialEq, Eq)]
pub enum Error {
    /// The transport failed before a response was read; holds its diagnostic.
    Http(String),
    /// The API answered with an error status, or with a body that could not be
    /// decoded; holds the status code and a message.
    Api(u16, String),
    /// The API rejected the bearer credential (status 401).
    InvalidApiKey,
    /// The API failed internally (status 500).
    ServerError,
}

/// The mathematical value of an [`Error`].
pub enum ErrorView {
    Http(Seq<char>),
    Api(u16, Seq<char>),
    InvalidApiKey,
    ServerError,
}

impl View for Error {
    type V = ErrorView;

    open spec fn view(&self) -> ErrorView {
        match self {
            Error::Http(message) => ErrorView::Http(message@),
            Error::Api(status, message) => ErrorView::Api(*status, message@),
            Error::InvalidApiKey => ErrorView::InvalidApiKey,
            Error::ServerError => ErrorView::ServerError,
        }
    }
}

} // verus!
