//! The ways a translation call can fail.
use vstd::prelude::*;
use vstd::string::StringExecFns;

verus! {

/// A classified failure of one translation call.
#[derive(Debug, PartialEq, Eq)]
pub enum TranslateError {
    /// The configuration carries no `apikey`.
    MissingCredential,
    /// The HTTP layer failed (connection, timeout, body read); holds its description.
    Transport(String),
    /// The reply carried an `error` field; holds that field rendered as JSON.
    RemoteApi(String),
    /// The reply was not JSON, or held no text at `choices[0].message.content`.
    ResponseParse,
}

/// The human-readable message of each failure.
pub open spec fn error_message(e: TranslateError) -> Seq<char> {
    match e {
        TranslateError::MissingCredential => "apikey not found"@,
        TranslateError::Transport(t) => t@,
        TranslateError::RemoteApi(rendered) => "API Error: "@ + rendered@,
        TranslateError::ResponseParse => "Response Parse Error"@,
    }
}

impl TranslateError {
    /// The message that the failure is reported with.
    pub fn message(&self) -> (r: String)
        ensures
            r@ == error_message(*self),
    {
        match self {
            TranslateError::MissingCredential => String::from_str("apikey not found"),
            TranslateError::Transport(t) => t.clone(),
            TranslateError::RemoteApi(rendered) => {
                let mut m = String::from_str("API Error: ");
                m.append(rendered.as_str());
                m
            },
            TranslateError::ResponseParse => String::from_str("Response Parse Error"),
        }
    }
}

} // verus!
