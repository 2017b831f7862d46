//! Plain value records exchanged with the API: usage figures, language
//! descriptors, translation inputs and outputs, and the request options.

use vstd::prelude::*;

verus! {

/// Information about API usage & limits for this account.
#[derive(Debug, PartialEq, Eq, Structural, Clone, Copy)]
pub struct UsageInformation {
    /// How many characters can be translated per billing period, based on the account settings.
    pub character_limit: u64,
    /// How many characters were already translated in the current billing period.
    pub character_count: u64,
}

/// Information about a single language.
#[derive(Debug, Clone)]
pub struct LanguageInformation {
    /// Language identifier used by DeepL, e.g. "EN-US". Use this
    /// when specifying source or target language.
    pub language: String,
    /// English name of the language, e.g. `English (America)`.
    pub name: String,
}

/// Information about available languages.
pub type LanguageList = Vec<LanguageInformation>;

/// Translation option that controls the splitting of sentences before the translation.
#[derive(Debug, PartialEq, Eq, Structural, Clone, Copy)]
pub enum SplitSentences {
    /// Don't split sentences.
    NoSplitting,
    /// Split on punctuation only.
    Punctuation,
    /// Split on punctuation and newlines.
    PunctuationAndNewlines,
}

/// Translation option that controls the desired translation formality.
#[derive(Debug, PartialEq, Eq, Structural, Clone, Copy)]
pub enum Formality {
    /// Default formality.
    Default,
    /// Translate more formally.
    More,
    /// Translate less formally.
    Less,
}

/// Custom flags for the translation request. Every field is independently
/// optional; a field left unset produces no request parameter at all, so the
/// server default applies.
#[derive(Debug, Clone, Copy)]
pub struct TranslationOptions {
    /// Sets whether the translation engine should first split the input into sentences.
    pub split_sentences: Option<SplitSentences>,
    /// Sets whether the translation engine should respect the original formatting,
    /// even if it would usually correct some aspects.
    pub preserve_formatting: Option<bool>,
    /// Sets whether the translated text should lean towards formal or informal language.
    pub formality: Option<Formality>,
}

/// Holds a list of strings to be translated.
#[derive(Debug, Clone)]
pub struct TranslatableTextList {
    /// Source language, if known. Will be auto-detected by the DeepL API
    /// if not provided.
    pub source_language: Option<String>,
    /// Target language (required).
    pub target_language: String,
    /// List of texts that are supposed to be translated.
    pub texts: Vec<String>,
}

/// Holds one unit of translated text.
#[derive(Debug, Clone)]
pub struct TranslatedText {
    /// Source language. Holds the value provided, or otherwise the value that
    /// DeepL auto-detected.
    pub detected_source_language: String,
    /// Translated text.
    pub text: String,
}

} // verus!
