//! Language classification of a filename stem, restricted to the closed
//! candidate set the detector is configured with. The detector's verdict
//! rests on statistical confidence values whose ties can resolve
//! differently between calls on the same text, so nothing here relates
//! the verdict to the text; every decision downstream is verified over
//! the outcome actually returned.

use vstd::prelude::*;

verus! {

/// The closed set of candidate languages the detector distinguishes.
#[derive(Clone, Copy, Debug, PartialEq, Eq, Structural)]
pub enum Lang {
    English,
    Chinese,
    Japanese,
    Korean,
}

/// Relies on lingua's `LanguageDetector`, built over English, Chinese,
/// Japanese and Korean: `detect_language_of` returns one of those
/// languages, or `None` when its confidence heuristics pick none. The
/// verdict is not promised to be a function of the text: the confidence
/// statistics are summed over hash-map iteration and compared against
/// ties, which the crate's source leaves open.
#[verifier::external_body]
fn detect_language(text: &str) -> Option<Lang> {
    let detector = lingua::LanguageDetectorBuilder::from_languages(
        &[
            lingua::Language::English,
            lingua::Language::Chinese,
            lingua::Language::Japanese,
            lingua::Language::Korean,
        ],
    ).build();
    match detector.detect_language_of(text) {
        Some(lingua::Language::English) => Some(Lang::English),
        Some(lingua::Language::Chinese) => Some(Lang::Chinese),
        Some(lingua::Language::Japanese) => Some(Lang::Japanese),
        Some(lingua::Language::Korean) => Some(Lang::Korean),
        _ => None,
    }
}

/// What the detector's verdict means for the translation flow: the stem is
/// already English, needs a remote translation of its detected language, or could
/// not be classified at all.
#[derive(Clone, Copy, Debug, PartialEq, Eq, Structural)]
pub enum DetectionOutcome {
    AlreadyEnglish,
    NeedsTranslation(Lang),
    Undetected,
}

/// Maps a detector verdict to its outcome for the translation flow: no
/// verdict is `Undetected`, English is `AlreadyEnglish`, and every other
/// language needs a remote translation.
pub fn verdict_outcome(v: Option<Lang>) -> (r: DetectionOutcome)
    ensures
        (v is None ==> r is Undetected),
        (v == Some(Lang::English) ==> r is AlreadyEnglish),
        (v is Some && v->Some_0 != Lang::English ==> r == DetectionOutcome::NeedsTranslation(
            v->Some_0,
        )),
{
    match v {
        None => DetectionOutcome::Undetected,
        Some(Lang::English) => DetectionOutcome::AlreadyEnglish,
        Some(l) => DetectionOutcome::NeedsTranslation(l),
    }
}

/// Classifies a stem for the translation flow with one call of the
/// detector, mapped through `verdict_outcome`. The verdict itself depends
/// on the detector's heuristics and not on the text alone, so nothing
/// relates the outcome to the text; `begin_translate_with_outcome` states
/// exactly what follows from each outcome. An empty stem carries no
/// signal and comes back `Undetected` exactly when the detector assigns
/// it no language.
pub fn classify_stem(stem: &str) -> DetectionOutcome {
    verdict_outcome(detect_language(stem))
}

} // verus!
