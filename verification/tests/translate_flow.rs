use filename_translator::detect::classify_stem;
use filename_translator::detect::DetectionOutcome;
use filename_translator::detect::Lang;
use filename_translator::detect::verdict_outcome;
use filename_translator::errors::BackendError;
use filename_translator::filename::join_filename;
use filename_translator::filename::split_filename;
use filename_translator::request::bearer_header;
use filename_translator::request::build_request_body;
use filename_translator::request::endpoint_url;
use filename_translator::request::json_escape;
use filename_translator::request::TranslationRequest;
use filename_translator::text::replace_spaces;
use filename_translator::text::trim;
use filename_translator::translate::begin_translate_filename;
use filename_translator::translate::begin_translate_with_outcome;
use filename_translator::translate::complete_translate_filename;
use filename_translator::translate::ClientConfig;
use filename_translator::translate::PendingTranslation;
use filename_translator::translate::TranslateStart;

fn with_key() -> ClientConfig {
    ClientConfig { api_key: Some("dummy-test-key".to_string()) }
}

fn without_key() -> ClientConfig {
    ClientConfig { api_key: None }
}

fn pending(extension: Option<&str>) -> PendingTranslation {
    PendingTranslation {
        extension: extension.map(|e| e.to_string()),
        request: TranslationRequest {
            url: endpoint_url(),
            auth: bearer_header("dummy-test-key"),
            body: build_request_body("stem"),
        },
    }
}

#[test]
fn split_keeps_original_with_dot() {
    let cases = ["报告.pdf", "a.b.c", "archive.tar.gz", ".gitignore", "x."];
    for case in cases {
        let (stem, ext) = split_filename(case);
        let ext = ext.expect("a dot means an extension");
        assert_eq!(format!("{}.{}", stem, ext), case);
    }
}

#[test]
fn split_on_last_dot() {
    let (stem, ext) = split_filename("archive.tar.gz");
    assert_eq!(stem, "archive.tar");
    assert_eq!(ext.as_deref(), Some("gz"));
}

#[test]
fn split_without_dot_is_all_stem() {
    for case in ["notes", "", "no dots here"] {
        let (stem, ext) = split_filename(case);
        assert_eq!(stem, case);
        assert!(ext.is_none());
    }
}

#[test]
fn split_with_empty_stem() {
    let (stem, ext) = split_filename(".gitignore");
    assert_eq!(stem, "");
    assert_eq!(ext.as_deref(), Some("gitignore"));
}

#[test]
fn join_reattaches_extension() {
    assert_eq!(join_filename("a".to_string(), &Some("txt".to_string())), "a.txt");
    assert_eq!(join_filename("a".to_string(), &None), "a");
}

#[test]
fn verdict_maps_to_outcome() {
    assert!(matches!(verdict_outcome(None), DetectionOutcome::Undetected));
    assert!(matches!(verdict_outcome(Some(Lang::English)), DetectionOutcome::AlreadyEnglish));
    assert!(matches!(
        verdict_outcome(Some(Lang::Chinese)),
        DetectionOutcome::NeedsTranslation(Lang::Chinese)
    ));
    assert!(matches!(
        verdict_outcome(Some(Lang::Korean)),
        DetectionOutcome::NeedsTranslation(Lang::Korean)
    ));
}

#[test]
fn classify_english_stem() {
    assert!(matches!(classify_stem("notes"), DetectionOutcome::AlreadyEnglish));
}

#[test]
fn classify_chinese_stem() {
    assert!(matches!(classify_stem("报告"), DetectionOutcome::NeedsTranslation(_)));
}

#[test]
fn english_filename_passes_through_unchanged() {
    let r = begin_translate_filename("notes", &without_key());
    match r {
        Ok(TranslateStart::Finished(out)) => assert_eq!(out, "notes"),
        other => panic!("expected pass-through, got {:?}", other.is_ok()),
    }
}

#[test]
fn english_stem_keeps_spaces_and_extension() {
    let r = begin_translate_filename("my notes.txt", &without_key());
    match r {
        Ok(TranslateStart::Finished(out)) => assert_eq!(out, "my notes.txt"),
        other => panic!("expected pass-through, got {:?}", other.is_ok()),
    }
}

#[test]
fn english_outcome_finishes_unchanged() {
    let r = begin_translate_with_outcome(
        "my notes.txt",
        DetectionOutcome::AlreadyEnglish,
        &without_key(),
    );
    match r {
        Ok(TranslateStart::Finished(out)) => assert_eq!(out, "my notes.txt"),
        other => panic!("expected pass-through, got ok={:?}", other.is_ok()),
    }
}

#[test]
fn undetected_outcome_fails_detection() {
    let r = begin_translate_with_outcome("x.txt", DetectionOutcome::Undetected, &with_key());
    match r {
        Err(BackendError::LanguageDetectionFailed) => (),
        other => panic!("expected detection failure, got ok={:?}", other.is_ok()),
    }
}

#[test]
fn translation_outcome_without_key_fails() {
    let r = begin_translate_with_outcome(
        "报告.pdf",
        DetectionOutcome::NeedsTranslation(Lang::Chinese),
        &without_key(),
    );
    match r {
        Err(BackendError::MissingCredential) => (),
        other => panic!("expected missing credential, got ok={:?}", other.is_ok()),
    }
}

#[test]
fn translation_outcome_with_key_frames_the_request() {
    let r = begin_translate_with_outcome(
        "报告.pdf",
        DetectionOutcome::NeedsTranslation(Lang::Chinese),
        &with_key(),
    );
    let p = match r {
        Ok(TranslateStart::Pending(p)) => p,
        other => panic!("expected a pending request, got ok={:?}", other.is_ok()),
    };
    assert_eq!(p.extension.as_deref(), Some("pdf"));
    assert_eq!(p.request.auth, "Bearer dummy-test-key");
    assert_eq!(p.request.body, build_request_body("报告"));
    assert!(p.request.url.starts_with("https://"));
}

#[test]
fn failure_message_names_the_stem() {
    let e = BackendError::MissingCredential;
    assert_eq!(
        e.describe_for_stem("报告"),
        "Translation error for '报告': QWEN_API_KEY environment variable not set",
    );
}

#[test]
fn empty_stem_fails_detection() {
    let r = begin_translate_filename(".gitignore", &with_key());
    match r {
        Err(BackendError::LanguageDetectionFailed) => (),
        other => panic!("expected detection failure, got ok={:?}", other.is_ok()),
    }
}

#[test]
fn missing_credential_fails_before_any_request() {
    let r = begin_translate_filename("报告.pdf", &without_key());
    match r {
        Err(BackendError::MissingCredential) => (),
        other => panic!("expected missing credential, got ok={:?}", other.is_ok()),
    }
}

#[test]
fn chinese_filename_translates() {
    let r = begin_translate_filename("报告.pdf", &with_key());
    let p = match r {
        Ok(TranslateStart::Pending(p)) => p,
        other => panic!("expected a pending request, got ok={:?}", other.is_ok()),
    };
    assert_eq!(p.extension.as_deref(), Some("pdf"));
    assert!(p.request.body.contains("报告"));
    assert!(p.request.auth.starts_with("Bearer "));
    let done = complete_translate_filename(
        p,
        Ok("{\"output\":{\"text\":\"Report\"}}".to_string()),
    );
    assert_eq!(done.unwrap(), "Report.pdf");
}

#[test]
fn translated_spaces_become_underscores() {
    let r = begin_translate_filename("会议 记录.docx", &with_key());
    let p = match r {
        Ok(TranslateStart::Pending(p)) => p,
        other => panic!("expected a pending request, got ok={:?}", other.is_ok()),
    };
    let done = complete_translate_filename(
        p,
        Ok("{\"output\":{\"text\":\"Meeting Minutes\"}}".to_string()),
    );
    assert_eq!(done.unwrap(), "Meeting_Minutes.docx");
}

#[test]
fn translated_text_is_trimmed() {
    let done = complete_translate_filename(
        pending(Some("pdf")),
        Ok("{\"output\":{\"text\":\"  Report \\n\"}}".to_string()),
    );
    assert_eq!(done.unwrap(), "Report.pdf");
}

#[test]
fn malformed_body_keeps_raw_body() {
    let done = complete_translate_filename(pending(None), Ok("not json at all".to_string()));
    match done {
        Err(BackendError::ResponseParseError { raw_body }) => {
            assert_eq!(raw_body, "not json at all");
        },
        other => panic!("expected a parse error, got ok={:?}", other.is_ok()),
    }
}

#[test]
fn wrong_shape_body_keeps_raw_body() {
    let body = "{\"unexpected\":true}";
    let done = complete_translate_filename(pending(None), Ok(body.to_string()));
    match done {
        Err(BackendError::ResponseParseError { raw_body }) => assert_eq!(raw_body, body),
        other => panic!("expected a parse error, got ok={:?}", other.is_ok()),
    }
}

#[test]
fn explicit_error_code_surfaces_code_and_message() {
    let body = "{\"code\":\"InvalidApiKey\",\"message\":\"key rejected\"}";
    let done = complete_translate_filename(pending(Some("pdf")), Ok(body.to_string()));
    match done {
        Err(BackendError::RemoteApiError { code, message }) => {
            assert_eq!(code, "InvalidApiKey");
            assert_eq!(message, "key rejected");
        },
        other => panic!("expected a remote error, got ok={:?}", other.is_ok()),
    }
}

#[test]
fn success_code_is_not_an_error() {
    let body = "{\"code\":\"200\",\"output\":{\"text\":\"Report\"}}";
    let done = complete_translate_filename(pending(Some("pdf")), Ok(body.to_string()));
    assert_eq!(done.unwrap(), "Report.pdf");
}

#[test]
fn transport_failure_is_a_network_error() {
    let done = complete_translate_filename(pending(None), Err("connection refused".to_string()));
    match done {
        Err(BackendError::NetworkError { message }) => {
            assert_eq!(message, "connection refused");
        },
        other => panic!("expected a network error, got ok={:?}", other.is_ok()),
    }
}

#[test]
fn error_description_keeps_raw_body() {
    let e = BackendError::ResponseParseError { raw_body: "<html>".to_string() };
    assert_eq!(e.describe(), "Failed to parse API response; raw body: <html>");
}

#[test]
fn request_body_is_exact_json() {
    assert_eq!(
        build_request_body("报告"),
        "{\"model\":\"qwen-max\",\"input\":{\"messages\":[{\"role\":\"system\",\"content\":\"You are a translator. Translate the following text to English. Only respond with the translation, no explanations or additional text.\"},{\"role\":\"user\",\"content\":\"报告\"}]}}",
    );
}

#[test]
fn request_body_escapes_the_stem() {
    let body = build_request_body("a\"b\\c\nd");
    assert!(body.contains("a\\\"b\\\\c\\u000ad"));
    let parsed: serde_json::Value = serde_json::from_str(&body).expect("body must be valid JSON");
    assert_eq!(
        parsed["input"]["messages"][1]["content"],
        serde_json::Value::String("a\"b\\c\nd".to_string()),
    );
}

#[test]
fn json_escape_handles_controls_and_quotes() {
    assert_eq!(json_escape("plain"), "plain");
    assert_eq!(json_escape("a\"b"), "a\\\"b");
    assert_eq!(json_escape("a\\b"), "a\\\\b");
    assert_eq!(json_escape("a\tb"), "a\\u0009b");
    assert_eq!(json_escape("a\u{1f}b"), "a\\u001fb");
}

#[test]
fn bearer_header_prefixes_the_key() {
    assert_eq!(bearer_header("dummy-test-key"), "Bearer dummy-test-key");
}

#[test]
fn trim_removes_surrounding_whitespace() {
    assert_eq!(trim("  report \u{3000}\n"), "report");
    assert_eq!(trim("\t \n"), "");
    assert_eq!(trim("inner space kept"), "inner space kept");
}

#[test]
fn replace_spaces_replaces_every_space() {
    assert_eq!(replace_spaces("Meeting Minutes Of May"), "Meeting_Minutes_Of_May");
    assert_eq!(replace_spaces("none"), "none");
    assert_eq!(replace_spaces(" "), "_");
}
