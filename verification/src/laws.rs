//! Laws of the client, stated and proved over the same spec functions that
//! the executable functions' contracts use.

use vstd::prelude::*;
use crate::client::{spec_api_url, spec_option_params, spec_translate_params};
use crate::error::ErrorView;
use crate::response::{spec_classify_failure, spec_is_success, spec_status_line};
use crate::shapes::spec_parse_message_body;
use crate::types::{TranslatableTextList, TranslationOptions};

verus! {

/// No parameter that the options record contributes is named `text`.
proof fn lemma_option_params_not_text(options: Option<TranslationOptions>)
    ensures
        forall|q: int|
            0 <= q < spec_option_params(options).len() ==> (#[trigger] spec_option_params(
                options,
            )[q]).0 != "text"@,
{
    reveal_strlit("text");
    reveal_strlit("split_sentences");
    reveal_strlit("preserve_formatting");
    reveal_strlit("formality");
    assert("split_sentences"@.len() == 15);
    assert("preserve_formatting"@.len() == 19);
    assert("formality"@.len() == 9);
    assert("text"@.len() == 4);
}

/// Law: a translate request carries one `text` parameter per input text, at
/// consecutive positions and in input order, and no other parameter of the
/// request is named `text`. So the number and order of the texts sent equals
/// the number and order of the texts given.
pub proof fn lemma_translate_request_texts(
    options: Option<TranslationOptions>,
    list: TranslatableTextList,
    api_key: Seq<char>,
)
    ensures
        ({
            let ps = spec_translate_params(options, list, api_key);
            let base: int = if list.source_language is Some {
                2
            } else {
                1
            };
            &&& ps.len() == base + list.texts@.len() + spec_option_params(options).len() + 1
            &&& forall|k: int|
                0 <= k < list.texts@.len() ==> ps[base + k] == ("text"@, list.texts@[k]@)
            &&& forall|k: int|
                0 <= k < ps.len() && (#[trigger] ps[k]).0 == "text"@ ==> base <= k < base
                    + list.texts@.len()
        }),
{
    reveal_strlit("text");
    reveal_strlit("target_lang");
    reveal_strlit("source_lang");
    reveal_strlit("auth_key");
    assert("target_lang"@.len() == 11);
    assert("source_lang"@.len() == 11);
    assert("auth_key"@.len() == 8);
    assert("text"@.len() == 4);
    lemma_option_params_not_text(options);
    let ps = spec_translate_params(options, list, api_key);
    let base: int = if list.source_language is Some {
        2
    } else {
        1
    };
    assert(forall|k: int|
        0 <= k < list.texts@.len() ==> ps[base + k] == ("text"@, list.texts@[k]@));
}

/// Law: an answer with status 401 or 403 is classified as an authorization
/// error, whatever the response body holds.
pub proof fn lemma_authorization_classification(status: u16, body: Seq<char>)
    requires
        status == 401 || status == 403,
    ensures
        spec_classify_failure(status, body) == ErrorView::Authorization,
{
}

/// Law: a non-success answer other than 401 and 403 whose body holds the
/// vendor's error envelope is surfaced as a server error carrying exactly the
/// embedded message.
pub proof fn lemma_server_message_surfaced(status: u16, body: Seq<char>)
    requires
        !spec_is_success(status),
        status != 401,
        status != 403,
        spec_parse_message_body(body) is Some,
    ensures
        spec_classify_failure(status, body) == ErrorView::Server(
            spec_parse_message_body(body).unwrap(),
        ),
{
}

/// Law: a non-success answer other than 401 and 403 whose body holds no
/// decodable error envelope is surfaced as a server error carrying the HTTP
/// status description.
pub proof fn lemma_server_status_fallback(status: u16, body: Seq<char>)
    requires
        !spec_is_success(status),
        status != 401,
        status != 403,
        spec_parse_message_body(body) is None,
    ensures
        spec_classify_failure(status, body) == ErrorView::Server(spec_status_line(status)),
{
}

/// Law: the tier flag selects the host, and nothing else, of every request
/// URL: with the flag set the URL starts with the `-free` host variant, with
/// it unset with the standard host, and the two URLs of one endpoint are
/// never the same.
pub proof fn lemma_tier_selects_host(endpoint: Seq<char>)
    ensures
        spec_api_url(true, endpoint) == "https://api-free.deepl.com/v2"@ + endpoint,
        spec_api_url(false, endpoint) == "https://api.deepl.com/v2"@ + endpoint,
        spec_api_url(true, endpoint) != spec_api_url(false, endpoint),
{
    reveal_strlit("https://api-free.deepl.com/v2");
    reveal_strlit("https://api.deepl.com/v2");
    assert(spec_api_url(true, endpoint).len() != spec_api_url(false, endpoint).len());
}

} // verus!
