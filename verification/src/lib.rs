//! A lightweight client core for the DeepL Pro REST API.
//!
//! The library builds the requests (host selection, endpoint, query
//! parameters) and decides what every server answer means (success payloads,
//! the error taxonomy). Performing the HTTP call itself is left to the
//! embedding application, which hands the status code and the body text back
//! to this crate.

mod client;
mod error;
mod json;
mod laws;
mod response;
mod shapes;
mod types;

pub use client::{ApiRequest, DeepL, LanguageType};
pub use client::{
    spec_api_url, spec_formality_token, spec_language_type_token, spec_option_params,
    spec_param_views, spec_preserve_formatting_token, spec_split_sentences_token,
    spec_string_views, spec_text_params, spec_translate_params,
};
pub use error::{spec_message, Error, ErrorView};
pub use laws::{
    lemma_authorization_classification, lemma_server_message_surfaced,
    lemma_server_status_fallback, lemma_tier_selects_host, lemma_translate_request_texts,
};
pub use json::{
    spec_parse_string, spec_parse_u64, spec_skip_value, spec_skip_ws, spec_string_rest,
};
pub use response::{
    is_success_status, languages_from_response, spec_classify_failure, spec_decimal_digits,
    spec_is_success, spec_languages_outcome, spec_status_line, spec_status_reason,
    spec_translate_outcome, spec_usage_outcome, translate_from_response, usage_from_response,
};
pub use shapes::{
    parse_languages_body, parse_message_body, parse_translations_body, parse_usage_body,
    spec_language_views, spec_parse_languages_body, spec_parse_message_body,
    spec_parse_translations_body, spec_parse_usage_body, spec_translation_views,
};
pub use types::{
    Formality, LanguageInformation, LanguageList, SplitSentences, TranslatableTextList,
    TranslatedText, TranslationOptions, UsageInformation,
};
