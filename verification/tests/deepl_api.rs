use deepl_api::{
    languages_from_response, translate_from_response, usage_from_response, DeepL, Error,
    Formality, LanguageType, SplitSentences, TranslatableTextList, TranslationOptions,
};

fn client(free_tier: bool) -> DeepL {
    DeepL::new("secret-key".to_string(), free_tier)
}

fn pairs(params: &Vec<(String, String)>) -> Vec<(&str, &str)> {
    params.iter().map(|p| (p.0.as_str(), p.1.as_str())).collect()
}

#[test]
fn new_stores_key_and_tier() {
    let d = DeepL::new("abc".to_string(), true);
    assert_eq!(d.api_key, "abc");
    assert!(d.free_tier);
    let d2 = DeepL::new("xyz".to_string(), false);
    assert!(!d2.free_tier);
}

#[test]
fn usage_request_standard_host() {
    let r = client(false).usage_request();
    assert_eq!(r.url, "https://api.deepl.com/v2/usage");
    assert_eq!(pairs(&r.params), vec![("auth_key", "secret-key")]);
}

#[test]
fn usage_request_free_host() {
    let r = client(true).usage_request();
    assert_eq!(r.url, "https://api-free.deepl.com/v2/usage");
    assert_eq!(pairs(&r.params), vec![("auth_key", "secret-key")]);
}

#[test]
fn languages_request_type_selector() {
    let r = client(false).languages_request(LanguageType::Source);
    assert_eq!(r.url, "https://api.deepl.com/v2/languages");
    assert_eq!(pairs(&r.params), vec![("type", "source"), ("auth_key", "secret-key")]);
    let r2 = client(true).languages_request(LanguageType::Target);
    assert_eq!(r2.url, "https://api-free.deepl.com/v2/languages");
    assert_eq!(pairs(&r2.params), vec![("type", "target"), ("auth_key", "secret-key")]);
}

#[test]
fn translate_request_minimal() {
    let list = TranslatableTextList {
        source_language: None,
        target_language: "EN-US".to_string(),
        texts: vec!["ja".to_string()],
    };
    let r = client(false).translate_request(None, list);
    assert_eq!(r.url, "https://api.deepl.com/v2/translate");
    assert_eq!(
        pairs(&r.params),
        vec![("target_lang", "EN-US"), ("text", "ja"), ("auth_key", "secret-key")]
    );
}

#[test]
fn translate_request_full_options() {
    let list = TranslatableTextList {
        source_language: Some("DE".to_string()),
        target_language: "EN-US".to_string(),
        texts: vec!["eins".to_string(), "zwei".to_string()],
    };
    let options = TranslationOptions {
        split_sentences: Some(SplitSentences::Punctuation),
        preserve_formatting: Some(true),
        formality: Some(Formality::Less),
    };
    let r = client(false).translate_request(Some(options), list);
    assert_eq!(
        pairs(&r.params),
        vec![
            ("target_lang", "EN-US"),
            ("source_lang", "DE"),
            ("text", "eins"),
            ("text", "zwei"),
            ("split_sentences", "nonewlines"),
            ("preserve_formatting", "1"),
            ("formality", "less"),
            ("auth_key", "secret-key"),
        ]
    );
}

#[test]
fn translate_request_split_tokens() {
    for (mode, token) in [
        (SplitSentences::NoSplitting, "0"),
        (SplitSentences::PunctuationAndNewlines, "1"),
        (SplitSentences::Punctuation, "nonewlines"),
    ] {
        let list = TranslatableTextList {
            source_language: None,
            target_language: "DE".to_string(),
            texts: vec!["hi".to_string()],
        };
        let options = TranslationOptions {
            split_sentences: Some(mode),
            preserve_formatting: None,
            formality: None,
        };
        let r = client(false).translate_request(Some(options), list);
        assert_eq!(
            pairs(&r.params),
            vec![
                ("target_lang", "DE"),
                ("text", "hi"),
                ("split_sentences", token),
                ("auth_key", "secret-key"),
            ]
        );
    }
}

#[test]
fn translate_request_formality_only() {
    let list = TranslatableTextList {
        source_language: None,
        target_language: "DE".to_string(),
        texts: vec!["please".to_string()],
    };
    let options = TranslationOptions {
        split_sentences: None,
        preserve_formatting: None,
        formality: Some(Formality::More),
    };
    let r = client(false).translate_request(Some(options), list);
    assert_eq!(
        pairs(&r.params),
        vec![
            ("target_lang", "DE"),
            ("text", "please"),
            ("formality", "more"),
            ("auth_key", "secret-key"),
        ]
    );
}

#[test]
fn translate_request_keeps_text_order() {
    let list = TranslatableTextList {
        source_language: None,
        target_language: "FR".to_string(),
        texts: vec!["a".to_string(), "b".to_string(), "c".to_string()],
    };
    let r = client(false).translate_request(None, list);
    let texts: Vec<&str> = r
        .params
        .iter()
        .filter(|p| p.0 == "text")
        .map(|p| p.1.as_str())
        .collect();
    assert_eq!(texts, vec!["a", "b", "c"]);
}

#[test]
fn usage_response_success() {
    let r = usage_from_response(200, "{\"character_limit\":250000,\"character_count\":1337}");
    let u = r.unwrap();
    assert_eq!(u.character_limit, 250000);
    assert_eq!(u.character_count, 1337);
}

#[test]
fn usage_response_reordered_and_extra_members() {
    let body = " {\n\t\"extra\": [1, -2.5e3, {\"deep\": null}, true],\n  \"character_count\": 7 ,\n  \"note\": \"hi\",\n  \"character_limit\": 9 } ";
    let u = usage_from_response(204, body).unwrap();
    assert_eq!(u.character_limit, 9);
    assert_eq!(u.character_count, 7);
}

#[test]
fn usage_response_missing_member_is_deserialization_error() {
    let r = usage_from_response(200, "{\"character_limit\":250000}");
    assert_eq!(r.unwrap_err(), Error::DeserializationError);
}

#[test]
fn usage_response_duplicate_member_is_deserialization_error() {
    let body = "{\"character_limit\":1,\"character_limit\":2,\"character_count\":3}";
    assert_eq!(usage_from_response(200, body).unwrap_err(), Error::DeserializationError);
}

#[test]
fn usage_response_trailing_text_is_deserialization_error() {
    let body = "{\"character_limit\":1,\"character_count\":3} x";
    assert_eq!(usage_from_response(200, body).unwrap_err(), Error::DeserializationError);
}

#[test]
fn usage_response_overflowing_count_is_deserialization_error() {
    let body = "{\"character_limit\":99999999999999999999,\"character_count\":3}";
    assert_eq!(usage_from_response(200, body).unwrap_err(), Error::DeserializationError);
    let body2 = "{\"character_limit\":18446744073709551615,\"character_count\":3}";
    assert_eq!(usage_from_response(200, body2).unwrap().character_limit, u64::MAX);
}

#[test]
fn usage_response_leading_zero_is_deserialization_error() {
    let body = "{\"character_limit\":007,\"character_count\":3}";
    assert_eq!(usage_from_response(200, body).unwrap_err(), Error::DeserializationError);
}

#[test]
fn unauthorized_status_wins_over_body() {
    assert_eq!(
        usage_from_response(401, "{\"message\":\"whatever\"}").unwrap_err(),
        Error::AuthorizationError
    );
    assert_eq!(usage_from_response(403, "garbage").unwrap_err(), Error::AuthorizationError);
    assert_eq!(
        translate_from_response(401, "").unwrap_err(),
        Error::AuthorizationError
    );
    assert_eq!(
        languages_from_response(403, "[]").unwrap_err(),
        Error::AuthorizationError
    );
}

#[test]
fn server_error_carries_vendor_message() {
    let r = usage_from_response(456, "{\"message\":\"quota exceeded\"}");
    assert_eq!(r.unwrap_err(), Error::ServerError("quota exceeded".to_string()));
}

#[test]
fn server_error_falls_back_to_status_description() {
    let r = usage_from_response(500, "this is not json");
    assert_eq!(r.unwrap_err(), Error::ServerError("500 Internal Server Error".to_string()));
    let r2 = translate_from_response(503, "{\"no_message\":true}");
    assert_eq!(r2.unwrap_err(), Error::ServerError("503 Service Unavailable".to_string()));
    let r3 = usage_from_response(599, "");
    assert_eq!(r3.unwrap_err(), Error::ServerError("599 <unknown status code>".to_string()));
}

#[test]
fn missing_target_language_error_is_surfaced_unchanged() {
    let body = "{\"message\":\"Parameter 'target_lang' not specified.\"}";
    let r = translate_from_response(400, body);
    assert_eq!(
        r.unwrap_err(),
        Error::ServerError("Parameter 'target_lang' not specified.".to_string())
    );
}

#[test]
fn languages_response_keeps_server_order() {
    let body = "[ {\"language\":\"DE\",\"name\":\"German\",\"supports_formality\":true},\n      {\"language\":\"EN-US\",\"name\":\"English (America)\",\"supports_formality\":false} ]";
    let ls = languages_from_response(200, body).unwrap();
    assert_eq!(ls.len(), 2);
    assert_eq!(ls[0].language, "DE");
    assert_eq!(ls[0].name, "German");
    assert_eq!(ls[1].language, "EN-US");
    assert_eq!(ls[1].name, "English (America)");
}

#[test]
fn languages_response_empty_list() {
    let ls = languages_from_response(200, "[]").unwrap();
    assert_eq!(ls.len(), 0);
}

#[test]
fn languages_response_missing_name_is_deserialization_error() {
    let body = "[{\"language\":\"DE\"}]";
    assert_eq!(languages_from_response(200, body).unwrap_err(), Error::DeserializationError);
}

#[test]
fn translate_response_keeps_server_order() {
    let body = "{\"translations\":[\n      {\"detected_source_language\":\"DE\",\"text\":\"yes\"},\n      {\"detected_source_language\":\"DE\",\"text\":\"no\"}]}";
    let ts = translate_from_response(200, body).unwrap();
    assert_eq!(ts.len(), 2);
    assert_eq!(ts[0].detected_source_language, "DE");
    assert_eq!(ts[0].text, "yes");
    assert_eq!(ts[1].detected_source_language, "DE");
    assert_eq!(ts[1].text, "no");
}

#[test]
fn translate_response_missing_text_is_deserialization_error() {
    let body = "{\"translations\":[{\"detected_source_language\":\"DE\"}]}";
    assert_eq!(translate_from_response(200, body).unwrap_err(), Error::DeserializationError);
}

#[test]
fn translate_response_without_translations_member_is_deserialization_error() {
    assert_eq!(translate_from_response(200, "{}").unwrap_err(), Error::DeserializationError);
}

#[test]
fn string_escapes_are_decoded() {
    let body = "{\"message\":\"a\\n\\t\\\"b\\\\c\\/d\\u0041\\u00e9\"}";
    let r = usage_from_response(456, body);
    assert_eq!(r.unwrap_err(), Error::ServerError("a\n\t\"b\\c/dA\u{e9}".to_string()));
}

#[test]
fn unicode_text_passes_through() {
    let body = "{\"translations\":[{\"detected_source_language\":\"JA\",\"text\":\"こんにちは\"}]}";
    let ts = translate_from_response(200, body).unwrap();
    assert_eq!(ts[0].text, "こんにちは");
}

#[test]
fn error_messages_render() {
    assert_eq!(
        Error::AuthorizationError.message(),
        "Authorization failed, is your API key correct?"
    );
    assert_eq!(
        Error::ServerError("boom".to_string()).message(),
        "An error occurred while communicating with the DeepL server: 'boom'."
    );
    assert_eq!(
        Error::DeserializationError.message(),
        "An error occurred while deserializing the response data."
    );
    assert_eq!(
        Error::TransportError("refused".to_string()).message(),
        "An error occurred in the transport layer: 'refused'."
    );
}
