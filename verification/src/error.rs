//! The errors that the library itself reports.

use vstd::prelude::*;

verus! {

/// A failure of a Responses stream that is found before anything is sent.
#[derive(Debug)]
pub enum ApiError {
    /// The stream could not be set up; the text says why.
    Stream(String),
}

/// A refusal or failure of a patch run.
#[derive(Debug)]
pub enum CodexErr {
    /// Local state that the run depends on could not be loaded.
    Fatal(String),
    /// The configured provider or the chosen model cannot serve the run.
    UnsupportedOperation(String),
    /// The request names a model that the catalog does not offer.
    InvalidRequest(String),
}

/// A [`CodexErr`] with its text as a sequence of characters.
#[verifier::ext_equal]
pub enum CodexErrView {
    Fatal(Seq<char>),
    UnsupportedOperation(Seq<char>),
    InvalidRequest(Seq<char>),
}

impl View for ApiError {
    type V = Seq<char>;

    open spec fn view(&self) -> Seq<char> {
        match self {
            ApiError::Stream(message) => message@,
        }
    }
}

impl View for CodexErr {
    type V = CodexErrView;

    open spec fn view(&self) -> CodexErrView {
        match self {
            CodexErr::Fatal(message) => CodexErrView::Fatal(message@),
            CodexErr::UnsupportedOperation(message) => CodexErrView::UnsupportedOperation(message@),
            CodexErr::InvalidRequest(message) => CodexErrView::InvalidRequest(message@),
        }
    }
}

/// `prefix` followed by `detail`.
pub fn describe(prefix: &str, detail: &str) -> (message: String)
    ensures
        message@ == prefix@ + detail@,
{
    let mut message = String::new();
    message.append(prefix);
    message.append(detail);
    message
}

/// A request could not be written as JSON.
pub fn encode_error(detail: &str) -> (error: ApiError)
    ensures
        error@ == "failed to encode responses request: "@ + detail@,
{
    ApiError::Stream(describe("failed to encode responses request: ", detail))
}

/// A request with raw input could not be written as JSON.
pub fn raw_encode_error(detail: &str) -> (error: ApiError)
    ensures
        error@ == "failed to encode raw responses request: "@ + detail@,
{
    ApiError::Stream(describe("failed to encode raw responses request: ", detail))
}

/// An input item could not be kept for the raw sink.
pub fn retain_error(detail: &str) -> (error: ApiError)
    ensures
        error@ == "failed to retain raw HTTP input: "@ + detail@,
{
    ApiError::Stream(describe("failed to retain raw HTTP input: ", detail))
}

} // verus!
