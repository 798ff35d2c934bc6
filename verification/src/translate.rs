//! The filename-translation flow: split the name, classify the stem, and
//! either finish at once, fail, or hand the caller a fully framed remote
//! request. When the caller returns with the transport's outcome, the
//! response is interpreted and the translated name assembled.
//!
//! The detector's verdict and the one network call are outside values:
//! `begin_translate_with_outcome` is verified for every verdict the
//! detector can return, and the network call stands between it and
//! `complete_translate_filename`, performed by the caller, who passes the
//! body (or the transport failure) back as plain values.

use vstd::prelude::*;

use crate::detect::DetectionOutcome;
use crate::detect::classify_stem;
use crate::errors::BackendError;
use crate::filename::spec_ext;
use crate::filename::spec_join;
use crate::filename::spec_stem;
use crate::filename::join_filename;
use crate::filename::split_filename;
use crate::request::TranslationRequest;
use crate::request::bearer_header;
use crate::request::bearer_of;
use crate::request::build_request_body;
use crate::request::endpoint_url;
use crate::request::endpoint_url_spec;
use crate::request::request_body_spec;
use crate::response::interpret_reply;
use crate::response::parse_reply;
use crate::response::qwen_reply_of;
use crate::response::reply_error_message;
use crate::response::reply_is_api_error;
use crate::text::replace_spaces;
use crate::text::trim_spec;
use crate::text::underscored;

verus! {

/// The configuration the translation client runs with: the credential, if
/// one was supplied.
pub struct ClientConfig {
    pub api_key: Option<String>,
}

/// A translation waiting on the remote service: the framed request, and
/// the extension to reattach once the translated stem is back.
pub struct PendingTranslation {
    pub extension: Option<String>,
    pub request: TranslationRequest,
}

/// How a translation begins: already finished (the stem was English), or
/// pending on one remote request.
pub enum TranslateStart {
    Finished(String),
    Pending(PendingTranslation),
}

/// Starts translating a filename under a given detector verdict. An
/// English stem finishes at once with the filename unchanged, an
/// unclassified stem fails, and any other language yields a pending
/// request — provided a credential is configured, and before any network
/// work.
pub fn begin_translate_with_outcome(
    filename: &str,
    outcome: DetectionOutcome,
    config: &ClientConfig,
) -> (r: Result<TranslateStart, BackendError>)
    ensures
        (outcome is Undetected ==> r matches Err(BackendError::LanguageDetectionFailed)),
        (outcome is AlreadyEnglish ==> (r matches Ok(TranslateStart::Finished(out)) && out@
            == filename@)),
        (outcome is NeedsTranslation && config.api_key is None ==> r matches Err(
            BackendError::MissingCredential,
        )),
        (outcome is NeedsTranslation && config.api_key is Some ==> (r matches Ok(
            TranslateStart::Pending(p),
        ) && p.extension.deep_view() == spec_ext(filename@) && p.request.url@
            == endpoint_url_spec() && p.request.auth@ == bearer_of(
            config.api_key.deep_view()->Some_0,
        ) && p.request.body@ == request_body_spec(spec_stem(filename@)))),
{
    match outcome {
        DetectionOutcome::Undetected => Err(BackendError::LanguageDetectionFailed),
        DetectionOutcome::AlreadyEnglish => Ok(
            TranslateStart::Finished(String::from_str(filename)),
        ),
        DetectionOutcome::NeedsTranslation(_) => match &config.api_key {
            None => Err(BackendError::MissingCredential),
            Some(key) => {
                let (stem, extension) = split_filename(filename);
                Ok(
                    TranslateStart::Pending(
                        PendingTranslation {
                            extension,
                            request: TranslationRequest {
                                url: endpoint_url(),
                                auth: bearer_header(key.as_str()),
                                body: build_request_body(stem.as_str()),
                            },
                        },
                    ),
                )
            },
        },
    }
}

/// Starts translating a filename with one call of the detector on its
/// stem. The verdict is the detector's; whatever comes back, a finished
/// name is the filename unchanged, a pending request is exactly framed,
/// a missing credential is reported only when none is configured, and no
/// other error than those two arises here.
pub fn begin_translate_filename(filename: &str, config: &ClientConfig) -> (r: Result<
    TranslateStart,
    BackendError,
>)
    ensures
        (r matches Ok(TranslateStart::Finished(out)) ==> out@ == filename@),
        (r matches Ok(TranslateStart::Pending(p)) ==> config.api_key is Some
            && p.extension.deep_view() == spec_ext(filename@) && p.request.url@
            == endpoint_url_spec() && p.request.auth@ == bearer_of(
            config.api_key.deep_view()->Some_0,
        ) && p.request.body@ == request_body_spec(spec_stem(filename@))),
        (r matches Err(e) ==> (e is LanguageDetectionFailed || e is MissingCredential)),
        (r matches Err(BackendError::MissingCredential) ==> config.api_key is None),
{
    let (stem, _) = split_filename(filename);
    let outcome = classify_stem(stem.as_str());
    begin_translate_with_outcome(filename, outcome, config)
}

/// Finishes a pending translation once the transport's outcome is in. A
/// transport failure surfaces as a network error. Otherwise the body is
/// parsed: an explicit non-success code fails with the service's code and
/// message; a success payload yields the trimmed text with every space
/// replaced by an underscore, rejoined with the kept extension; anything
/// else is a parse failure carrying the raw body.
pub fn complete_translate_filename(pending: PendingTranslation, transport: Result<String, String>)
    -> (r: Result<String, BackendError>)
    ensures
        (transport matches Err(m) ==> (r matches Err(BackendError::NetworkError { message })
            && message@ == m@)),
        (transport matches Ok(body) ==> ({
            let rep = qwen_reply_of(body@);
            &&& (reply_is_api_error(rep) ==> (r matches Err(BackendError::RemoteApiError {
                code,
                message,
            }) && code@ == rep.1->Some_0 && message@ == reply_error_message(rep)))
            &&& (!reply_is_api_error(rep) && rep.0 is Some ==> (r matches Ok(out) && out@
                == spec_join(
                underscored(trim_spec(rep.0->Some_0)),
                pending.extension.deep_view(),
            )))
            &&& (!reply_is_api_error(rep) && rep.0 is None ==> (r matches Err(
                BackendError::ResponseParseError { raw_body },
            ) && raw_body@ == body@))
        })),
{
    match transport {
        Err(m) => Err(BackendError::NetworkError { message: m }),
        Ok(body) => {
            let reply = parse_reply(body.as_str());
            match interpret_reply(&reply, body.as_str()) {
                Err(e) => Err(e),
                Ok(trimmed) => {
                    let stem = replace_spaces(trimmed.as_str());
                    Ok(join_filename(stem, &pending.extension))
                },
            }
        },
    }
}

} // verus!
