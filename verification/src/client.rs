//! Request construction: host selection by account tier, endpoint URLs, and
//! the query parameters of each API operation. Everything here is pure; the
//! resulting [`ApiRequest`] is handed to the embedding application, which
//! performs one HTTP POST per request.

use vstd::prelude::*;
use vstd::string::StringExecFns;
use crate::types::{SplitSentences, Formality, TranslationOptions, TranslatableTextList};

verus! {

/// The main API entry point representing a DeepL developer account with an
/// associated API key.
///
/// The handle is immutable after construction: it only selects the host
/// (free or paid tier) and supplies the authentication parameter.
pub struct DeepL {
    /// The account's API key, sent as the `auth_key` parameter with every request.
    pub api_key: String,
    /// Selects the free-tier host (`api-free.deepl.com`) when set.
    pub free_tier: bool,
}

/// One fully determined outbound request: the URL to POST to and the ordered
/// query parameters, authentication included.
pub struct ApiRequest {
    /// Complete request URL (scheme, host and endpoint path).
    pub url: String,
    /// Ordered list of query parameter pairs, ending with `auth_key`.
    pub params: Vec<(String, String)>,
}

/// Selector for the two language-listing operations.
#[derive(Debug, PartialEq, Eq, Structural, Clone, Copy)]
pub enum LanguageType {
    /// Languages accepted as translation sources.
    Source,
    /// Languages offered as translation targets.
    Target,
}

/// The character sequences of a parameter list: each pair of strings as the
/// pair of its views.
pub open spec fn spec_param_views(ps: Seq<(String, String)>) -> Seq<(Seq<char>, Seq<char>)> {
    ps.map_values(|p: (String, String)| (p.0@, p.1@))
}

/// The character sequences of a list of strings.
pub open spec fn spec_string_views(ts: Seq<String>) -> Seq<Seq<char>> {
    ts.map_values(|t: String| t@)
}

/// The URL of an endpoint: a fixed scheme/host template, where the `-free`
/// host-name segment is present exactly when the free-tier flag is set.
pub open spec fn spec_api_url(free_tier: bool, endpoint: Seq<char>) -> Seq<char> {
    if free_tier {
        "https://api-free.deepl.com/v2"@ + endpoint
    } else {
        "https://api.deepl.com/v2"@ + endpoint
    }
}

/// The wire token of the `type` parameter of the languages endpoint.
pub open spec fn spec_language_type_token(t: LanguageType) -> Seq<char> {
    match t {
        LanguageType::Source => "source"@,
        LanguageType::Target => "target"@,
    }
}

/// The wire token of the `split_sentences` parameter.
pub open spec fn spec_split_sentences_token(s: SplitSentences) -> Seq<char> {
    match s {
        SplitSentences::NoSplitting => "0"@,
        SplitSentences::PunctuationAndNewlines => "1"@,
        SplitSentences::Punctuation => "nonewlines"@,
    }
}

/// The wire token of the `preserve_formatting` parameter.
pub open spec fn spec_preserve_formatting_token(b: bool) -> Seq<char> {
    if b {
        "1"@
    } else {
        "0"@
    }
}

/// The wire token of the `formality` parameter.
pub open spec fn spec_formality_token(f: Formality) -> Seq<char> {
    match f {
        Formality::Default => "default"@,
        Formality::More => "more"@,
        Formality::Less => "less"@,
    }
}

/// The parameters contributed by an optional options record: one parameter
/// for each option that is present, in the fixed order `split_sentences`,
/// `preserve_formatting`, `formality`. An absent option contributes no
/// parameter at all (the server default applies).
pub open spec fn spec_option_params(options: Option<TranslationOptions>) -> Seq<
    (Seq<char>, Seq<char>),
> {
    match options {
        Option::None => Seq::empty(),
        Option::Some(opt) => (match opt.split_sentences {
            Option::None => Seq::empty(),
            Option::Some(s) => seq![("split_sentences"@, spec_split_sentences_token(s))],
        }) + (match opt.preserve_formatting {
            Option::None => Seq::empty(),
            Option::Some(b) => seq![("preserve_formatting"@, spec_preserve_formatting_token(b))],
        }) + (match opt.formality {
            Option::None => Seq::empty(),
            Option::Some(f) => seq![("formality"@, spec_formality_token(f))],
        }),
    }
}

/// One repeated `text` parameter per input text, in input order.
pub open spec fn spec_text_params(texts: Seq<Seq<char>>) -> Seq<(Seq<char>, Seq<char>)> {
    texts.map_values(|t: Seq<char>| ("text"@, t))
}

/// The full parameter list of a translate request: the required target
/// language, the source language only if provided, every input text in
/// order, the present options, and finally the authentication key.
pub open spec fn spec_translate_params(
    options: Option<TranslationOptions>,
    list: TranslatableTextList,
    api_key: Seq<char>,
) -> Seq<(Seq<char>, Seq<char>)> {
    seq![("target_lang"@, list.target_language@)] + (match list.source_language {
        Option::None => Seq::<(Seq<char>, Seq<char>)>::empty(),
        Option::Some(s) => seq![("source_lang"@, s@)],
    }) + spec_text_params(spec_string_views(list.texts@)) + spec_option_params(options) + seq![
        ("auth_key"@, api_key),
    ]
}

impl DeepL {
    /// Creates a new DeepL API client handle. A valid `api_key` is required.
    /// No network activity happens here.
    pub fn new(api_key: String, free_tier: bool) -> (r: DeepL)
        ensures
            r.api_key == api_key,
            r.free_tier == free_tier,
    {
        DeepL { api_key, free_tier }
    }

    /// Builds the URL of the given endpoint on the host that the tier flag
    /// selects.
    fn api_url(&self, endpoint: &str) -> (r: String)
        ensures
            r@ == spec_api_url(self.free_tier, endpoint@),
    {
        if self.free_tier {
            String::from_str("https://api-free.deepl.com/v2").concat(endpoint)
        } else {
            String::from_str("https://api.deepl.com/v2").concat(endpoint)
        }
    }

    /// The request that fetches account usage information: the `usage`
    /// endpoint, with no parameters besides authentication.
    pub fn usage_request(&self) -> (r: ApiRequest)
        ensures
            r.url@ == spec_api_url(self.free_tier, "/usage"@),
            spec_param_views(r.params@) =~= seq![("auth_key"@, self.api_key@)],
    {
        let mut params: Vec<(String, String)> = Vec::new();
        params.push((String::from_str("auth_key"), self.api_key.clone()));
        ApiRequest { url: self.api_url("/usage"), params }
    }

    /// The request that lists the available source or target languages: the
    /// `languages` endpoint with the `type` selector.
    pub fn languages_request(&self, language_type: LanguageType) -> (r: ApiRequest)
        ensures
            r.url@ == spec_api_url(self.free_tier, "/languages"@),
            spec_param_views(r.params@) =~= seq![
                ("type"@, spec_language_type_token(language_type)),
                ("auth_key"@, self.api_key@),
            ],
    {
        let token = match language_type {
            LanguageType::Source => String::from_str("source"),
            LanguageType::Target => String::from_str("target"),
        };
        let mut params: Vec<(String, String)> = Vec::new();
        params.push((String::from_str("type"), token));
        params.push((String::from_str("auth_key"), self.api_key.clone()));
        ApiRequest { url: self.api_url("/languages"), params }
    }

    /// The request that translates one or more text chunks: the `translate`
    /// endpoint, with the parameters that [`spec_translate_params`] lists.
    pub fn translate_request(
        &self,
        options: Option<TranslationOptions>,
        text_list: TranslatableTextList,
    ) -> (r: ApiRequest)
        ensures
            r.url@ == spec_api_url(self.free_tier, "/translate"@),
            spec_param_views(r.params@) =~= spec_translate_params(
                options,
                text_list,
                self.api_key@,
            ),
    {
        let ghost target_part: Seq<(Seq<char>, Seq<char>)> = seq![
            ("target_lang"@, text_list.target_language@),
        ];
        let ghost source_part: Seq<(Seq<char>, Seq<char>)> = match &text_list.source_language {
            Option::None => Seq::empty(),
            Option::Some(s) => seq![("source_lang"@, s@)],
        };
        let ghost text_views = spec_string_views(text_list.texts@);

        let mut params: Vec<(String, String)> = Vec::new();
        params.push((String::from_str("target_lang"), text_list.target_language));
        assert(spec_param_views(params@) =~= target_part);
        if let Option::Some(source_language_content) = text_list.source_language {
            params.push((String::from_str("source_lang"), source_language_content));
        }
        assert(spec_param_views(params@) =~= target_part + source_part);

        let texts = text_list.texts;
        let mut i: usize = 0;
        while i < texts.len()
            invariant
                i <= texts.len(),
                text_views == spec_string_views(texts@),
                spec_param_views(params@) =~= target_part + source_part + spec_text_params(
                    text_views.take(i as int),
                ),
            decreases texts.len() - i,
        {
            let key_string = String::from_str("text");
            let text_string = texts[i].clone();
            let ghost prev_views = spec_param_views(params@);
            proof {
                assert(text_string@ == text_views[i as int]);
            }
            params.push((key_string, text_string));
            proof {
                assert(spec_param_views(params@) =~= prev_views.push(
                    ("text"@, text_views[i as int]),
                ));
                assert(spec_text_params(text_views.take(i as int + 1)) =~= spec_text_params(
                    text_views.take(i as int),
                ).push(("text"@, text_views[i as int])));
                assert((target_part + source_part + spec_text_params(text_views.take(i as int)))
                    .push(("text"@, text_views[i as int])) =~= target_part + source_part
                    + spec_text_params(text_views.take(i as int + 1)));
            }
            i += 1;
        }
        proof {
            assert(text_views.take(texts.len() as int) =~= text_views);
        }
        let ghost through_texts = target_part + source_part + spec_text_params(text_views);
        assert(spec_param_views(params@) =~= through_texts);

        if let Option::Some(opt) = options {
            if let Option::Some(split_sentences) = opt.split_sentences {
                let token = match split_sentences {
                    SplitSentences::NoSplitting => String::from_str("0"),
                    SplitSentences::PunctuationAndNewlines => String::from_str("1"),
                    SplitSentences::Punctuation => String::from_str("nonewlines"),
                };
                params.push((String::from_str("split_sentences"), token));
            }
            if let Option::Some(preserve_formatting) = opt.preserve_formatting {
                let token = match preserve_formatting {
                    false => String::from_str("0"),
                    true => String::from_str("1"),
                };
                params.push((String::from_str("preserve_formatting"), token));
            }
            if let Option::Some(formality) = opt.formality {
                let token = match formality {
                    Formality::Default => String::from_str("default"),
                    Formality::More => String::from_str("more"),
                    Formality::Less => String::from_str("less"),
                };
                params.push((String::from_str("formality"), token));
            }
        }
        assert(spec_param_views(params@) =~= through_texts + spec_option_params(options));

        params.push((String::from_str("auth_key"), self.api_key.clone()));
        assert(spec_param_views(params@) =~= through_texts + spec_option_params(options) + seq![
            ("auth_key"@, self.api_key@),
        ]);
        ApiRequest { url: self.api_url("/translate"), params }
    }
}

} // verus!
