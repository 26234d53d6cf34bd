//! The error object of a JSON-RPC response.

use serde_json::Value;
use vstd::prelude::*;

verus! {

/// What kind of error occurred.
#[derive(Clone, Copy, Debug, PartialEq, Eq, Structural)]
pub enum ErrorCode {
    /// Invalid JSON was received.
    ParseError,
    /// The message is not a valid request in the server's present state.
    InvalidRequest,
    /// The method does not exist.
    MethodNotFound,
    /// The parameters do not fit the method.
    InvalidParams,
    /// Something failed inside.
    InternalError,
    /// An error of the implementation's own.
    ServerError(i64),
}

/// The code of the error that a server which was not initialized answers with.
pub const NOT_INITIALIZED: i64 = -32002;

impl ErrorCode {
    /// The number that stands for the error in a message.
    pub open spec fn number(self) -> int {
        match self {
            ErrorCode::ParseError => -32700,
            ErrorCode::InvalidRequest => -32600,
            ErrorCode::MethodNotFound => -32601,
            ErrorCode::InvalidParams => -32602,
            ErrorCode::InternalError => -32603,
            ErrorCode::ServerError(number) => number as int,
        }
    }

    /// The words in which the error is described where nothing more is known.
    pub open spec fn words(self) -> Seq<char> {
        match self {
            ErrorCode::ParseError => "Parse error"@,
            ErrorCode::InvalidRequest => "Invalid request"@,
            ErrorCode::MethodNotFound => "Method not found"@,
            ErrorCode::InvalidParams => "Invalid params"@,
            ErrorCode::InternalError => "Internal error"@,
            ErrorCode::ServerError(_) => "Server error"@,
        }
    }

    /// The number that stands for the error in a message.
    pub fn code(&self) -> (r: i64)
        ensures
            r == self.number(),
    {
        match *self {
            ErrorCode::ParseError => -32700,
            ErrorCode::InvalidRequest => -32600,
            ErrorCode::MethodNotFound => -32601,
            ErrorCode::InvalidParams => -32602,
            ErrorCode::InternalError => -32603,
            ErrorCode::ServerError(number) => number,
        }
    }

    /// The words in which the error is described where nothing more is known.
    pub fn description(&self) -> (r: &'static str)
        ensures
            r@ == self.words(),
    {
        match *self {
            ErrorCode::ParseError => "Parse error",
            ErrorCode::InvalidRequest => "Invalid request",
            ErrorCode::MethodNotFound => "Method not found",
            ErrorCode::InvalidParams => "Invalid params",
            ErrorCode::InternalError => "Internal error",
            ErrorCode::ServerError(_) => "Server error",
        }
    }
}

/// Why a request failed.
#[derive(Debug, PartialEq)]
pub struct Error {
    /// What kind of error occurred.
    pub code: ErrorCode,
    /// A short description of the error.
    pub message: String,
    /// Further information, if there is any.
    pub data: Option<Value>,
}

/// What an [`Error`] says.
pub struct ErrorView {
    pub code: ErrorCode,
    pub message: Seq<char>,
    pub data: Option<Value>,
}

impl View for Error {
    type V = ErrorView;

    open spec fn view(&self) -> ErrorView {
        ErrorView { code: self.code, message: self.message@, data: self.data }
    }
}

impl ErrorView {
    /// An error of which only the code is known.
    pub open spec fn plain(code: ErrorCode) -> ErrorView {
        ErrorView { code, message: code.words(), data: None }
    }

    /// An error with a message of its own.
    pub open spec fn with_message(code: ErrorCode, message: Seq<char>) -> ErrorView {
        ErrorView { code, message, data: None }
    }

    /// The answer of a server that was not initialized.
    pub open spec fn not_initialized() -> ErrorView {
        ErrorView::with_message(
            ErrorCode::ServerError(NOT_INITIALIZED),
            "Server not initialized"@,
        )
    }
}

impl Error {
    /// An error of which only the code is known.
    pub fn new(code: ErrorCode) -> (r: Error)
        ensures
            r@ == ErrorView::plain(code),
    {
        Error { code, message: code.description().to_owned(), data: None }
    }

    /// An error with a message of its own.
    pub fn with_message(code: ErrorCode, message: String) -> (r: Error)
        ensures
            r@ == ErrorView::with_message(code, message@),
    {
        Error { code, message, data: None }
    }

    /// The message is not a valid request.
    pub fn invalid_request() -> (r: Error)
        ensures
            r@ == ErrorView::plain(ErrorCode::InvalidRequest),
    {
        Error::new(ErrorCode::InvalidRequest)
    }

    /// The method does not exist.
    pub fn method_not_found() -> (r: Error)
        ensures
            r@ == ErrorView::plain(ErrorCode::MethodNotFound),
    {
        Error::new(ErrorCode::MethodNotFound)
    }

    /// The parameters do not fit the method; `message` says how.
    pub fn invalid_params(message: String) -> (r: Error)
        ensures
            r@ == ErrorView::with_message(ErrorCode::InvalidParams, message@),
    {
        Error::with_message(ErrorCode::InvalidParams, message)
    }

    /// Something failed inside.
    pub fn internal_error() -> (r: Error)
        ensures
            r@ == ErrorView::plain(ErrorCode::InternalError),
    {
        Error::new(ErrorCode::InternalError)
    }
}

/// The answer of a server that was not initialized, with the code
/// [`NOT_INITIALIZED`].
pub fn not_initialized_error() -> (r: Error)
    ensures
        r@ == ErrorView::not_initialized(),
{
    Error::with_message(
        ErrorCode::ServerError(NOT_INITIALIZED),
        "Server not initialized".to_owned(),
    )
}

/// The outcome of a JSON-RPC call.
pub type Result<T> = std::result::Result<T, Error>;

/// What the outcome of a call says.
pub open spec fn outcome<T>(result: Result<T>) -> std::result::Result<T, ErrorView> {
    match result {
        Ok(value) => Ok(value),
        Err(error) => Err(error@),
    }
}

} // verus!
