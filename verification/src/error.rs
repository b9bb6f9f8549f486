use vstd::prelude::*;

verus! {

/// Why a base address cannot be used.
#[derive(Clone, Copy, Debug, PartialEq, Eq, Structural)]
pub enum UriError {
    /// The text is no URI.
    Malformed,
    /// The URI names no server.
    Address,
}

/// In what way a reply departs from the shape that the server promises.
#[derive(Clone, Copy, Debug, PartialEq, Eq, Structural)]
pub enum ProtocolViolation {
    /// The document has no `subsonic-response` member.
    MissingEnvelope,
    /// The envelope's `status` is missing, is no string, or is neither "ok" nor "failed".
    BadStatus,
    /// A failed reply without a numeric `error.code` and a textual `error.message`.
    BadError,
    /// The payload lacks a field that the operation reads, or holds it in another kind.
    BadPayload,
    /// JSON came where a binary stream was asked for.
    UnexpectedJson,
}

/// What can go wrong with a request.
#[derive(Debug, PartialEq, Eq)]
pub enum Error {
    /// The base address is malformed or incomplete.
    Uri(UriError),
    /// The server answered with an HTTP status outside 200 to 299.
    Transport(u16),
    /// The body could not be decoded.
    Decode,
    /// The server reported a failure, with its code and message.
    Api(u64, String),
    /// The reply was JSON of an unexpected shape.
    Protocol(ProtocolViolation),
}

/// The mathematical value of an [`Error`].
pub enum ErrorView {
    Uri(UriError),
    Transport(u16),
    Decode,
    Api(u64, Seq<char>),
    Protocol(ProtocolViolation),
}

impl View for Error {
    type V = ErrorView;

    open spec fn view(&self) -> ErrorView {
        match self {
            Error::Uri(e) => ErrorView::Uri(*e),
            Error::Transport(status) => ErrorView::Transport(*status),
            Error::Decode => ErrorView::Decode,
            Error::Api(code, message) => ErrorView::Api(*code, message@),
            Error::Protocol(p) => ErrorView::Protocol(*p),
        }
    }
}

/// The mathematical value of an outcome whose success carries a plain value.
pub open spec fn plain_outcome<T>(r: Result<T, Error>) -> Result<T, ErrorView> {
    match r {
        Ok(value) => Ok(value),
        Err(e) => Err(e@),
    }
}

/// The mathematical value of an outcome whose success carries a text.
pub open spec fn text_outcome(r: Result<String, Error>) -> Result<Seq<char>, ErrorView> {
    match r {
        Ok(text) => Ok(text@),
        Err(e) => Err(e@),
    }
}

} // verus!
