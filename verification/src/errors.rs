//! The error kinds the backend surfaces. Every failure is reported to the
//! caller as one of these; nothing is retried.

use vstd::prelude::*;

verus! {

/// Everything that can go wrong in the backend's operations.
#[derive(Debug)]
pub enum BackendError {
    /// The detector assigned the stem no language.
    LanguageDetectionFailed,
    /// No credential was configured; no request was issued.
    MissingCredential,
    /// The transport failed before a response body arrived.
    NetworkError { message: String },
    /// The service answered with an explicit non-success code.
    RemoteApiError { code: String, message: String },
    /// The response body matched neither expected shape; the raw body is
    /// kept for diagnosis.
    ResponseParseError { raw_body: String },
    /// A file could not be read or written.
    FileIoError { message: String },
}

impl BackendError {
    /// The human-readable description of the error.
    pub open spec fn describe_spec(&self) -> Seq<char> {
        match self {
            BackendError::LanguageDetectionFailed => "Could not detect language"@,
            BackendError::MissingCredential => "QWEN_API_KEY environment variable not set"@,
            BackendError::NetworkError { message } => "Network error: "@ + message@,
            BackendError::RemoteApiError { code: _, message } => "API Error: "@ + message@,
            BackendError::ResponseParseError { raw_body } => "Failed to parse API response; raw body: "@
                + raw_body@,
            BackendError::FileIoError { message } => message@,
        }
    }

    /// Describes the error for the caller.
    pub fn describe(&self) -> (r: String)
        ensures
            r@ == self.describe_spec(),
    {
        match self {
            BackendError::LanguageDetectionFailed => String::from_str(
                "Could not detect language",
            ),
            BackendError::MissingCredential => String::from_str(
                "QWEN_API_KEY environment variable not set",
            ),
            BackendError::NetworkError { message } => String::from_str("Network error: ").concat(
                message.as_str(),
            ),
            BackendError::RemoteApiError { code: _, message } => String::from_str(
                "API Error: ",
            ).concat(message.as_str()),
            BackendError::ResponseParseError { raw_body } => String::from_str(
                "Failed to parse API response; raw body: ",
            ).concat(raw_body.as_str()),
            BackendError::FileIoError { message } => message.clone(),
        }
    }

    /// The message for a failed translation of a given stem: it names the
    /// stem and carries the error's own description.
    pub open spec fn describe_for_stem_spec(&self, stem: Seq<char>) -> Seq<char> {
        "Translation error for '"@ + stem + "': "@ + self.describe_spec()
    }

    /// Describes a translation failure for the caller, naming the stem it
    /// happened on.
    pub fn describe_for_stem(&self, stem: &str) -> (r: String)
        ensures
            r@ == self.describe_for_stem_spec(stem@),
    {
        let described = self.describe();
        String::from_str("Translation error for '").concat(stem).concat("': ").concat(
            described.as_str(),
        )
    }
}

} // verus!
