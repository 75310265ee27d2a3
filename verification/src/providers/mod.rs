//! Backend providers: the OpenAI stream-chunk records and the provider error.
use vstd::prelude::*;

use crate::text::{append_str, chars_of, string_of};

pub mod openai;

verus! {

broadcast use vstd::string::group_string_axioms;

/// Why a provider operation failed; each variant carries the text of the
/// underlying error.
#[derive(Debug, PartialEq, Eq)]
pub enum ProviderError {
    HttpError(String),
    JsonError(String),
    IoError(String),
    Other(String),
}

/// The text an error displays as.
pub open spec fn provider_error_text(e: ProviderError) -> Seq<char> {
    match e {
        ProviderError::HttpError(d) => "HTTP error: "@ + d@,
        ProviderError::JsonError(d) => "JSON error: "@ + d@,
        ProviderError::IoError(d) => "IO error: "@ + d@,
        ProviderError::Other(d) => "Other error: "@ + d@,
    }
}

impl ProviderError {
    /// The text the error displays as, e.g. `Other error: Invalid UTF-8: ...`.
    pub fn message(&self) -> (r: String)
        ensures
            r@ == provider_error_text(*self),
    {
        let (prefix, detail) = match self {
            ProviderError::HttpError(d) => ("HTTP error: ", d),
            ProviderError::JsonError(d) => ("JSON error: ", d),
            ProviderError::IoError(d) => ("IO error: ", d),
            ProviderError::Other(d) => ("Other error: ", d),
        };
        let mut out = chars_of(prefix);
        append_str(&mut out, detail.as_str());
        string_of(&out)
    }
}

/// One chunk of an OpenAI server-sent event stream.
#[derive(Debug, PartialEq, Eq)]
pub struct OpenAIStreamChunk {
    pub id: String,
    pub object: String,
    pub model: String,
    pub choices: Vec<Choice>,
}

/// One choice of a stream chunk.
#[derive(Debug, PartialEq, Eq)]
pub struct Choice {
    pub index: i32,
    pub delta: Option<Delta>,
    pub finish_reason: Option<String>,
}

/// The increment a stream chunk adds to a message.
#[derive(Debug, PartialEq, Eq)]
pub struct Delta {
    pub role: Option<String>,
    pub content: Option<String>,
}

} // verus!
