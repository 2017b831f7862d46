//! The JSON shapes of the response bodies: the usage record, the vendor
//! error-message envelope, the language list and the translation list.
//!
//! Each shape is an object (or array of objects) with required members;
//! members with other names are skipped, a member given twice or a missing
//! required member is not accepted, matching how the response records are
//! declared. The spec functions define the accepted texts and their meaning;
//! the executable parsers return exactly what the spec functions describe.

use vstd::prelude::*;
use vstd::string::StringExecFns;
use vstd::string::StrSliceExecFns;
use crate::json::{
    spec_skip_ws, spec_parse_string, spec_parse_u64, spec_skip_value, skip_ws, parse_string,
    parse_u64, skip_value,
};
use crate::types::{UsageInformation, LanguageInformation, TranslatedText};

verus! {

/// The members of the usage object, starting at the first non-whitespace
/// index after `{` (when `first`) or after a comma. `limit` and `count` hold
/// the member values read so far. Yields the finished record and the index
/// after the closing `}`.
pub open spec fn spec_usage_items(
    s: Seq<char>,
    i: int,
    fuel: nat,
    first: bool,
    limit: Option<u64>,
    count: Option<u64>,
) -> Option<(UsageInformation, int)>
    decreases fuel,
{
    if fuel == 0 {
        Option::None
    } else if first && 0 <= i < s.len() && s[i] == '}' {
        spec_usage_done(limit, count, i + 1)
    } else {
        match spec_parse_string(s, i) {
            Option::None => Option::None,
            Option::Some((key, j)) => {
                let k = spec_skip_ws(s, j);
                if !(0 <= k < s.len() && s[k] == ':') {
                    Option::None
                } else {
                    let v = spec_skip_ws(s, k + 1);
                    let step: Option<(Option<u64>, Option<u64>, int)> = if key
                        == "character_limit"@ {
                        if limit is Some {
                            Option::None
                        } else {
                            match spec_parse_u64(s, v) {
                                Option::None => Option::None,
                                Option::Some((x, e)) => Option::Some(
                                    (Option::Some(x), count, e),
                                ),
                            }
                        }
                    } else if key == "character_count"@ {
                        if count is Some {
                            Option::None
                        } else {
                            match spec_parse_u64(s, v) {
                                Option::None => Option::None,
                                Option::Some((x, e)) => Option::Some(
                                    (limit, Option::Some(x), e),
                                ),
                            }
                        }
                    } else {
                        match spec_skip_value(s, v, (fuel - 1) as nat) {
                            Option::None => Option::None,
                            Option::Some(e) => Option::Some((limit, count, e)),
                        }
                    };
                    match step {
                        Option::None => Option::None,
                        Option::Some((limit2, count2, e)) => {
                            let w = spec_skip_ws(s, e);
                            if 0 <= w < s.len() && s[w] == ',' {
                                spec_usage_items(
                                    s,
                                    spec_skip_ws(s, w + 1),
                                    (fuel - 1) as nat,
                                    false,
                                    limit2,
                                    count2,
                                )
                            } else if 0 <= w < s.len() && s[w] == '}' {
                                spec_usage_done(limit2, count2, w + 1)
                            } else {
                                Option::None
                            }
                        },
                    }
                }
            },
        }
    }
}

/// The view of an optional string.
pub open spec fn spec_str_opt_view(m: Option<String>) -> Option<Seq<char>> {
    match m {
        Option::None => Option::None,
        Option::Some(x) => Option::Some(x@),
    }
}

/// A finished usage object: accepted exactly when both required members were
/// present.
pub open spec fn spec_usage_done(limit: Option<u64>, count: Option<u64>, e: int) -> Option<
    (UsageInformation, int),
> {
    if limit is Some && count is Some {
        Option::Some(
            (
                UsageInformation {
                    character_limit: limit.unwrap(),
                    character_count: count.unwrap(),
                },
                e,
            ),
        )
    } else {
        Option::None
    }
}

/// A whole usage response body: one usage object with nothing but whitespace
/// around it.
pub open spec fn spec_parse_usage_body(s: Seq<char>) -> Option<UsageInformation> {
    if s.len() >= usize::MAX - 1 {
        Option::None
    } else {
        let i = spec_skip_ws(s, 0);
        if !(i < s.len() && s[i] == '{') {
            Option::None
        } else {
            match spec_usage_items(
                s,
                spec_skip_ws(s, i + 1),
                (s.len() + 1) as nat,
                true,
                Option::None,
                Option::None,
            ) {
                Option::None => Option::None,
                Option::Some((u, e)) => {
                    if spec_skip_ws(s, e) == s.len() {
                        Option::Some(u)
                    } else {
                        Option::None
                    }
                },
            }
        }
    }
}

/// The members of the error-message envelope, with the `message` member value
/// read so far. Yields the message and the index after the closing `}`.
pub open spec fn spec_message_items(
    s: Seq<char>,
    i: int,
    fuel: nat,
    first: bool,
    msg: Option<Seq<char>>,
) -> Option<(Seq<char>, int)>
    decreases fuel,
{
    if fuel == 0 {
        Option::None
    } else if first && 0 <= i < s.len() && s[i] == '}' {
        match msg {
            Option::Some(m) => Option::Some((m, i + 1)),
            Option::None => Option::None,
        }
    } else {
        match spec_parse_string(s, i) {
            Option::None => Option::None,
            Option::Some((key, j)) => {
                let k = spec_skip_ws(s, j);
                if !(0 <= k < s.len() && s[k] == ':') {
                    Option::None
                } else {
                    let v = spec_skip_ws(s, k + 1);
                    let step: Option<(Option<Seq<char>>, int)> = if key == "message"@ {
                        if msg is Some {
                            Option::None
                        } else {
                            match spec_parse_string(s, v) {
                                Option::None => Option::None,
                                Option::Some((m, e)) => Option::Some((Option::Some(m), e)),
                            }
                        }
                    } else {
                        match spec_skip_value(s, v, (fuel - 1) as nat) {
                            Option::None => Option::None,
                            Option::Some(e) => Option::Some((msg, e)),
                        }
                    };
                    match step {
                        Option::None => Option::None,
                        Option::Some((msg2, e)) => {
                            let w = spec_skip_ws(s, e);
                            if 0 <= w < s.len() && s[w] == ',' {
                                spec_message_items(
                                    s,
                                    spec_skip_ws(s, w + 1),
                                    (fuel - 1) as nat,
                                    false,
                                    msg2,
                                )
                            } else if 0 <= w < s.len() && s[w] == '}' {
                                match msg2 {
                                    Option::Some(m) => Option::Some((m, w + 1)),
                                    Option::None => Option::None,
                                }
                            } else {
                                Option::None
                            }
                        },
                    }
                }
            },
        }
    }
}

/// A whole error-envelope body: one object with a required `message` string
/// member, with nothing but whitespace around it.
pub open spec fn spec_parse_message_body(s: Seq<char>) -> Option<Seq<char>> {
    if s.len() >= usize::MAX - 1 {
        Option::None
    } else {
        let i = spec_skip_ws(s, 0);
        if !(i < s.len() && s[i] == '{') {
            Option::None
        } else {
            match spec_message_items(
                s,
                spec_skip_ws(s, i + 1),
                (s.len() + 1) as nat,
                true,
                Option::None,
            ) {
                Option::None => Option::None,
                Option::Some((m, e)) => {
                    if spec_skip_ws(s, e) == s.len() {
                        Option::Some(m)
                    } else {
                        Option::None
                    }
                },
            }
        }
    }
}

/// Reads the usage object's members, as [`spec_usage_items`] describes them.
#[verifier::rlimit(60)]
fn usage_items(s: &str, n: usize, i: usize, fuel: usize, first: bool) -> (r: Option<
    (UsageInformation, usize),
>)
    requires
        n == s@.len(),
        i <= n,
    ensures
        match spec_usage_items(s@, i as int, fuel as nat, first, Option::None, Option::None) {
            Option::None => r is None,
            Option::Some((u, e)) => r is Some && r.unwrap().0 == u && r.unwrap().1 == e && e <= n,
        },
{
    let mut j = i;
    let mut f = fuel;
    let mut fst = first;
    let mut limit: Option<u64> = Option::None;
    let mut count: Option<u64> = Option::None;
    loop
        invariant
            n == s@.len(),
            j <= n,
            f <= fuel,
            spec_usage_items(s@, i as int, fuel as nat, first, Option::None, Option::None)
                == spec_usage_items(s@, j as int, f as nat, fst, limit, count),
        decreases f,
    {
        if f == 0 {
            return Option::None;
        }
        if fst && j < n && s.get_char(j) == '}' {
            match (limit, count) {
                (Option::Some(l), Option::Some(c)) => {
                    return Option::Some(
                        (UsageInformation { character_limit: l, character_count: c }, j + 1),
                    );
                },
                _ => {
                    return Option::None;
                },
            }
        }
        let (key, j2) = match parse_string(s, n, j) {
            Option::None => {
                return Option::None;
            },
            Option::Some(p) => p,
        };
        let k = skip_ws(s, n, j2);
        if !(k < n && s.get_char(k) == ':') {
            return Option::None;
        }
        let v = skip_ws(s, n, k + 1);
        let stepped: (Option<u64>, Option<u64>, usize) = if key == String::from_str(
            "character_limit",
        ) {
            if limit.is_some() {
                return Option::None;
            }
            match parse_u64(s, n, v) {
                Option::None => {
                    return Option::None;
                },
                Option::Some((x, e2)) => (Option::Some(x), count, e2),
            }
        } else if key == String::from_str("character_count") {
            if count.is_some() {
                return Option::None;
            }
            match parse_u64(s, n, v) {
                Option::None => {
                    return Option::None;
                },
                Option::Some((x, e2)) => (limit, Option::Some(x), e2),
            }
        } else {
            match skip_value(s, n, v, f - 1) {
                Option::None => {
                    return Option::None;
                },
                Option::Some(e2) => (limit, count, e2),
            }
        };
        let limit2 = stepped.0;
        let count2 = stepped.1;
        let e = stepped.2;
        let w = skip_ws(s, n, e);
        if w < n && s.get_char(w) == ',' {
            let j3 = skip_ws(s, n, w + 1);
            j = j3;
            f = f - 1;
            fst = false;
            limit = limit2;
            count = count2;
        } else if w < n && s.get_char(w) == '}' {
            match (limit2, count2) {
                (Option::Some(l), Option::Some(c)) => {
                    return Option::Some(
                        (UsageInformation { character_limit: l, character_count: c }, w + 1),
                    );
                },
                _ => {
                    return Option::None;
                },
            }
        } else {
            return Option::None;
        }
    }
}

/// Parses a whole usage response body, as [`spec_parse_usage_body`] describes
/// it.
pub fn parse_usage_body(s: &str) -> (r: Option<UsageInformation>)
    ensures
        r == spec_parse_usage_body(s@),
{
    let n = s.unicode_len();
    if n >= usize::MAX - 1 {
        return Option::None;
    }
    let i = skip_ws(s, n, 0);
    if !(i < n && s.get_char(i) == '{') {
        return Option::None;
    }
    let j = skip_ws(s, n, i + 1);
    match usage_items(s, n, j, n + 1, true) {
        Option::None => Option::None,
        Option::Some((u, e)) => {
            if skip_ws(s, n, e) == n {
                Option::Some(u)
            } else {
                Option::None
            }
        },
    }
}

/// Reads the error envelope's members, as [`spec_message_items`] describes
/// them.
#[verifier::rlimit(60)]
fn message_items(s: &str, n: usize, i: usize, fuel: usize, first: bool) -> (r: Option<
    (String, usize),
>)
    requires
        n == s@.len(),
        i <= n,
    ensures
        match spec_message_items(s@, i as int, fuel as nat, first, Option::None) {
            Option::None => r is None,
            Option::Some((m, e)) => r is Some && r.unwrap().0@ == m && r.unwrap().1 == e && e
                <= n,
        },
{
    let mut j = i;
    let mut f = fuel;
    let mut fst = first;
    let mut msg: Option<String> = Option::None;
    loop
        invariant
            n == s@.len(),
            j <= n,
            f <= fuel,
            spec_message_items(s@, i as int, fuel as nat, first, Option::None)
                == spec_message_items(s@, j as int, f as nat, fst, spec_str_opt_view(msg)),
        decreases f,
    {
        if f == 0 {
            return Option::None;
        }
        if fst && j < n && s.get_char(j) == '}' {
            match msg {
                Option::Some(m) => {
                    return Option::Some((m, j + 1));
                },
                Option::None => {
                    return Option::None;
                },
            }
        }
        let (key, j2) = match parse_string(s, n, j) {
            Option::None => {
                return Option::None;
            },
            Option::Some(p) => p,
        };
        let k = skip_ws(s, n, j2);
        if !(k < n && s.get_char(k) == ':') {
            return Option::None;
        }
        let v = skip_ws(s, n, k + 1);
        let stepped: (Option<String>, usize) = if key == String::from_str("message") {
            if msg.is_some() {
                return Option::None;
            }
            match parse_string(s, n, v) {
                Option::None => {
                    return Option::None;
                },
                Option::Some((m, e2)) => (Option::Some(m), e2),
            }
        } else {
            match skip_value(s, n, v, f - 1) {
                Option::None => {
                    return Option::None;
                },
                Option::Some(e2) => (msg, e2),
            }
        };
        let msg2 = stepped.0;
        let e = stepped.1;
        let w = skip_ws(s, n, e);
        if w < n && s.get_char(w) == ',' {
            let j3 = skip_ws(s, n, w + 1);
            j = j3;
            f = f - 1;
            fst = false;
            msg = msg2;
        } else if w < n && s.get_char(w) == '}' {
            match msg2 {
                Option::Some(m) => {
                    return Option::Some((m, w + 1));
                },
                Option::None => {
                    return Option::None;
                },
            }
        } else {
            return Option::None;
        }
    }
}

/// Parses a whole error-envelope body, as [`spec_parse_message_body`]
/// describes it.
pub fn parse_message_body(s: &str) -> (r: Option<String>)
    ensures
        match spec_parse_message_body(s@) {
            Option::None => r is None,
            Option::Some(m) => r is Some && r.unwrap()@ == m,
        },
{
    let n = s.unicode_len();
    if n >= usize::MAX - 1 {
        return Option::None;
    }
    let i = skip_ws(s, n, 0);
    if !(i < n && s.get_char(i) == '{') {
        return Option::None;
    }
    let j = skip_ws(s, n, i + 1);
    match message_items(s, n, j, n + 1, true) {
        Option::None => Option::None,
        Option::Some((m, e)) => {
            if skip_ws(s, n, e) == n {
                Option::Some(m)
            } else {
                Option::None
            }
        },
    }
}

} // verus!

verus! {

/// The pair of character sequences a language descriptor holds: its code and
/// its English name.
pub open spec fn spec_language_views(ls: Seq<LanguageInformation>) -> Seq<(Seq<char>, Seq<char>)> {
    ls.map_values(|l: LanguageInformation| (l.language@, l.name@))
}

/// The pair of character sequences a translated-text record holds: the
/// detected source language and the translated text.
pub open spec fn spec_translation_views(ts: Seq<TranslatedText>) -> Seq<(Seq<char>, Seq<char>)> {
    ts.map_values(|t: TranslatedText| (t.detected_source_language@, t.text@))
}

/// The view of an optional translation list.
pub open spec fn spec_tt_opt_view(m: Option<Vec<TranslatedText>>) -> Option<
    Seq<(Seq<char>, Seq<char>)>,
> {
    match m {
        Option::None => Option::None,
        Option::Some(v) => Option::Some(spec_translation_views(v@)),
    }
}

/// The members of one language-descriptor object: required string members
/// `language` and `name`, others skipped. Yields the pair (code, name) and
/// the index after the closing `}`.
pub open spec fn spec_language_items(
    s: Seq<char>,
    i: int,
    fuel: nat,
    first: bool,
    language: Option<Seq<char>>,
    name: Option<Seq<char>>,
) -> Option<((Seq<char>, Seq<char>), int)>
    decreases fuel,
{
    if fuel == 0 {
        Option::None
    } else if first && 0 <= i < s.len() && s[i] == '}' {
        spec_pair_done(language, name, i + 1)
    } else {
        match spec_parse_string(s, i) {
            Option::None => Option::None,
            Option::Some((key, j)) => {
                let k = spec_skip_ws(s, j);
                if !(0 <= k < s.len() && s[k] == ':') {
                    Option::None
                } else {
                    let v = spec_skip_ws(s, k + 1);
                    let step: Option<(Option<Seq<char>>, Option<Seq<char>>, int)> = if key
                        == "language"@ {
                        if language is Some {
                            Option::None
                        } else {
                            match spec_parse_string(s, v) {
                                Option::None => Option::None,
                                Option::Some((x, e)) => Option::Some(
                                    (Option::Some(x), name, e),
                                ),
                            }
                        }
                    } else if key == "name"@ {
                        if name is Some {
                            Option::None
                        } else {
                            match spec_parse_string(s, v) {
                                Option::None => Option::None,
                                Option::Some((x, e)) => Option::Some(
                                    (language, Option::Some(x), e),
                                ),
                            }
                        }
                    } else {
                        match spec_skip_value(s, v, (fuel - 1) as nat) {
                            Option::None => Option::None,
                            Option::Some(e) => Option::Some((language, name, e)),
                        }
                    };
                    match step {
                        Option::None => Option::None,
                        Option::Some((language2, name2, e)) => {
                            let w = spec_skip_ws(s, e);
                            if 0 <= w < s.len() && s[w] == ',' {
                                spec_language_items(
                                    s,
                                    spec_skip_ws(s, w + 1),
                                    (fuel - 1) as nat,
                                    false,
                                    language2,
                                    name2,
                                )
                            } else if 0 <= w < s.len() && s[w] == '}' {
                                spec_pair_done(language2, name2, w + 1)
                            } else {
                                Option::None
                            }
                        },
                    }
                }
            },
        }
    }
}

/// A finished two-string-member object: accepted exactly when both required
/// members were present.
pub open spec fn spec_pair_done(a: Option<Seq<char>>, b: Option<Seq<char>>, e: int) -> Option<
    ((Seq<char>, Seq<char>), int),
> {
    if a is Some && b is Some {
        Option::Some(((a.unwrap(), b.unwrap()), e))
    } else {
        Option::None
    }
}

/// The members of one translated-text object: required string members
/// `detected_source_language` and `text`, others skipped. Yields the pair
/// (detected source, text) and the index after the closing `}`.
pub open spec fn spec_translation_items(
    s: Seq<char>,
    i: int,
    fuel: nat,
    first: bool,
    detected: Option<Seq<char>>,
    text: Option<Seq<char>>,
) -> Option<((Seq<char>, Seq<char>), int)>
    decreases fuel,
{
    if fuel == 0 {
        Option::None
    } else if first && 0 <= i < s.len() && s[i] == '}' {
        spec_pair_done(detected, text, i + 1)
    } else {
        match spec_parse_string(s, i) {
            Option::None => Option::None,
            Option::Some((key, j)) => {
                let k = spec_skip_ws(s, j);
                if !(0 <= k < s.len() && s[k] == ':') {
                    Option::None
                } else {
                    let v = spec_skip_ws(s, k + 1);
                    let step: Option<(Option<Seq<char>>, Option<Seq<char>>, int)> = if key
                        == "detected_source_language"@ {
                        if detected is Some {
                            Option::None
                        } else {
                            match spec_parse_string(s, v) {
                                Option::None => Option::None,
                                Option::Some((x, e)) => Option::Some(
                                    (Option::Some(x), text, e),
                                ),
                            }
                        }
                    } else if key == "text"@ {
                        if text is Some {
                            Option::None
                        } else {
                            match spec_parse_string(s, v) {
                                Option::None => Option::None,
                                Option::Some((x, e)) => Option::Some(
                                    (detected, Option::Some(x), e),
                                ),
                            }
                        }
                    } else {
                        match spec_skip_value(s, v, (fuel - 1) as nat) {
                            Option::None => Option::None,
                            Option::Some(e) => Option::Some((detected, text, e)),
                        }
                    };
                    match step {
                        Option::None => Option::None,
                        Option::Some((detected2, text2, e)) => {
                            let w = spec_skip_ws(s, e);
                            if 0 <= w < s.len() && s[w] == ',' {
                                spec_translation_items(
                                    s,
                                    spec_skip_ws(s, w + 1),
                                    (fuel - 1) as nat,
                                    false,
                                    detected2,
                                    text2,
                                )
                            } else if 0 <= w < s.len() && s[w] == '}' {
                                spec_pair_done(detected2, text2, w + 1)
                            } else {
                                Option::None
                            }
                        },
                    }
                }
            },
        }
    }
}

/// The items of the language-list array: each one a language-descriptor
/// object, collected in order onto `acc`. Yields the list and the index after
/// the closing `]`.
pub open spec fn spec_language_list_items(
    s: Seq<char>,
    i: int,
    fuel: nat,
    first: bool,
    acc: Seq<(Seq<char>, Seq<char>)>,
) -> Option<(Seq<(Seq<char>, Seq<char>)>, int)>
    decreases fuel,
{
    if fuel == 0 {
        Option::None
    } else if first && 0 <= i < s.len() && s[i] == ']' {
        Option::Some((acc, i + 1))
    } else if !(0 <= i < s.len() && s[i] == '{') {
        Option::None
    } else {
        match spec_language_items(
            s,
            spec_skip_ws(s, i + 1),
            (fuel - 1) as nat,
            true,
            Option::None,
            Option::None,
        ) {
            Option::None => Option::None,
            Option::Some((lang, e)) => {
                let w = spec_skip_ws(s, e);
                if 0 <= w < s.len() && s[w] == ',' {
                    spec_language_list_items(
                        s,
                        spec_skip_ws(s, w + 1),
                        (fuel - 1) as nat,
                        false,
                        acc.push(lang),
                    )
                } else if 0 <= w < s.len() && s[w] == ']' {
                    Option::Some((acc.push(lang), w + 1))
                } else {
                    Option::None
                }
            },
        }
    }
}

/// The items of the translation-list array: each one a translated-text
/// object, collected in order onto `acc`. Yields the list and the index after
/// the closing `]`.
pub open spec fn spec_translation_list_items(
    s: Seq<char>,
    i: int,
    fuel: nat,
    first: bool,
    acc: Seq<(Seq<char>, Seq<char>)>,
) -> Option<(Seq<(Seq<char>, Seq<char>)>, int)>
    decreases fuel,
{
    if fuel == 0 {
        Option::None
    } else if first && 0 <= i < s.len() && s[i] == ']' {
        Option::Some((acc, i + 1))
    } else if !(0 <= i < s.len() && s[i] == '{') {
        Option::None
    } else {
        match spec_translation_items(
            s,
            spec_skip_ws(s, i + 1),
            (fuel - 1) as nat,
            true,
            Option::None,
            Option::None,
        ) {
            Option::None => Option::None,
            Option::Some((tr, e)) => {
                let w = spec_skip_ws(s, e);
                if 0 <= w < s.len() && s[w] == ',' {
                    spec_translation_list_items(
                        s,
                        spec_skip_ws(s, w + 1),
                        (fuel - 1) as nat,
                        false,
                        acc.push(tr),
                    )
                } else if 0 <= w < s.len() && s[w] == ']' {
                    Option::Some((acc.push(tr), w + 1))
                } else {
                    Option::None
                }
            },
        }
    }
}

/// The members of the translate response object: one required `translations`
/// member holding the translation-list array, others skipped. Yields the list
/// and the index after the closing `}`.
pub open spec fn spec_translations_obj_items(
    s: Seq<char>,
    i: int,
    fuel: nat,
    first: bool,
    found: Option<Seq<(Seq<char>, Seq<char>)>>,
) -> Option<(Seq<(Seq<char>, Seq<char>)>, int)>
    decreases fuel,
{
    if fuel == 0 {
        Option::None
    } else if first && 0 <= i < s.len() && s[i] == '}' {
        match found {
            Option::Some(ts) => Option::Some((ts, i + 1)),
            Option::None => Option::None,
        }
    } else {
        match spec_parse_string(s, i) {
            Option::None => Option::None,
            Option::Some((key, j)) => {
                let k = spec_skip_ws(s, j);
                if !(0 <= k < s.len() && s[k] == ':') {
                    Option::None
                } else {
                    let v = spec_skip_ws(s, k + 1);
                    let step: Option<(Option<Seq<(Seq<char>, Seq<char>)>>, int)> = if key
                        == "translations"@ {
                        if found is Some {
                            Option::None
                        } else if 0 <= v < s.len() && s[v] == '[' {
                            match spec_translation_list_items(
                                s,
                                spec_skip_ws(s, v + 1),
                                (fuel - 1) as nat,
                                true,
                                Seq::empty(),
                            ) {
                                Option::None => Option::None,
                                Option::Some((ts, e)) => Option::Some(
                                    (Option::Some(ts), e),
                                ),
                            }
                        } else {
                            Option::None
                        }
                    } else {
                        match spec_skip_value(s, v, (fuel - 1) as nat) {
                            Option::None => Option::None,
                            Option::Some(e) => Option::Some((found, e)),
                        }
                    };
                    match step {
                        Option::None => Option::None,
                        Option::Some((found2, e)) => {
                            let w = spec_skip_ws(s, e);
                            if 0 <= w < s.len() && s[w] == ',' {
                                spec_translations_obj_items(
                                    s,
                                    spec_skip_ws(s, w + 1),
                                    (fuel - 1) as nat,
                                    false,
                                    found2,
                                )
                            } else if 0 <= w < s.len() && s[w] == '}' {
                                match found2 {
                                    Option::Some(ts) => Option::Some((ts, w + 1)),
                                    Option::None => Option::None,
                                }
                            } else {
                                Option::None
                            }
                        },
                    }
                }
            },
        }
    }
}

/// A whole language-list response body: one array of language descriptors
/// with nothing but whitespace around it.
pub open spec fn spec_parse_languages_body(s: Seq<char>) -> Option<Seq<(Seq<char>, Seq<char>)>> {
    if s.len() >= usize::MAX - 1 {
        Option::None
    } else {
        let i = spec_skip_ws(s, 0);
        if !(i < s.len() && s[i] == '[') {
            Option::None
        } else {
            match spec_language_list_items(
                s,
                spec_skip_ws(s, i + 1),
                (s.len() + 1) as nat,
                true,
                Seq::empty(),
            ) {
                Option::None => Option::None,
                Option::Some((ls, e)) => {
                    if spec_skip_ws(s, e) == s.len() {
                        Option::Some(ls)
                    } else {
                        Option::None
                    }
                },
            }
        }
    }
}

/// A whole translate response body: one object holding the `translations`
/// array, with nothing but whitespace around it.
pub open spec fn spec_parse_translations_body(s: Seq<char>) -> Option<
    Seq<(Seq<char>, Seq<char>)>,
> {
    if s.len() >= usize::MAX - 1 {
        Option::None
    } else {
        let i = spec_skip_ws(s, 0);
        if !(i < s.len() && s[i] == '{') {
            Option::None
        } else {
            match spec_translations_obj_items(
                s,
                spec_skip_ws(s, i + 1),
                (s.len() + 1) as nat,
                true,
                Option::None,
            ) {
                Option::None => Option::None,
                Option::Some((ts, e)) => {
                    if spec_skip_ws(s, e) == s.len() {
                        Option::Some(ts)
                    } else {
                        Option::None
                    }
                },
            }
        }
    }
}

} // verus!

verus! {

/// Reads one language-descriptor object's members, as
/// [`spec_language_items`] describes them.
#[verifier::rlimit(60)]
fn language_items(s: &str, n: usize, i: usize, fuel: usize, first: bool) -> (r: Option<
    (LanguageInformation, usize),
>)
    requires
        n == s@.len(),
        i <= n,
    ensures
        match spec_language_items(s@, i as int, fuel as nat, first, Option::None, Option::None) {
            Option::None => r is None,
            Option::Some((p, e)) => r is Some && r.unwrap().0.language@ == p.0
                && r.unwrap().0.name@ == p.1 && r.unwrap().1 == e && e <= n,
        },
{
    let mut j = i;
    let mut f = fuel;
    let mut fst = first;
    let mut language: Option<String> = Option::None;
    let mut name: Option<String> = Option::None;
    loop
        invariant
            n == s@.len(),
            j <= n,
            f <= fuel,
            spec_language_items(s@, i as int, fuel as nat, first, Option::None, Option::None)
                == spec_language_items(
                s@,
                j as int,
                f as nat,
                fst,
                spec_str_opt_view(language),
                spec_str_opt_view(name),
            ),
        decreases f,
    {
        if f == 0 {
            return Option::None;
        }
        if fst && j < n && s.get_char(j) == '}' {
            match (language, name) {
                (Option::Some(l), Option::Some(m)) => {
                    return Option::Some((LanguageInformation { language: l, name: m }, j + 1));
                },
                _ => {
                    return Option::None;
                },
            }
        }
        let (key, j2) = match parse_string(s, n, j) {
            Option::None => {
                return Option::None;
            },
            Option::Some(p) => p,
        };
        let k = skip_ws(s, n, j2);
        if !(k < n && s.get_char(k) == ':') {
            return Option::None;
        }
        let v = skip_ws(s, n, k + 1);
        let stepped: (Option<String>, Option<String>, usize) = if key == String::from_str(
            "language",
        ) {
            if language.is_some() {
                return Option::None;
            }
            match parse_string(s, n, v) {
                Option::None => {
                    return Option::None;
                },
                Option::Some((x, e2)) => (Option::Some(x), name, e2),
            }
        } else if key == String::from_str("name") {
            if name.is_some() {
                return Option::None;
            }
            match parse_string(s, n, v) {
                Option::None => {
                    return Option::None;
                },
                Option::Some((x, e2)) => (language, Option::Some(x), e2),
            }
        } else {
            match skip_value(s, n, v, f - 1) {
                Option::None => {
                    return Option::None;
                },
                Option::Some(e2) => (language, name, e2),
            }
        };
        let w = skip_ws(s, n, stepped.2);
        if w < n && s.get_char(w) == ',' {
            let j3 = skip_ws(s, n, w + 1);
            j = j3;
            f = f - 1;
            fst = false;
            language = stepped.0;
            name = stepped.1;
        } else if w < n && s.get_char(w) == '}' {
            match (stepped.0, stepped.1) {
                (Option::Some(l), Option::Some(m)) => {
                    return Option::Some((LanguageInformation { language: l, name: m }, w + 1));
                },
                _ => {
                    return Option::None;
                },
            }
        } else {
            return Option::None;
        }
    }
}

/// Reads one translated-text object's members, as
/// [`spec_translation_items`] describes them.
#[verifier::rlimit(60)]
fn translation_items(s: &str, n: usize, i: usize, fuel: usize, first: bool) -> (r: Option<
    (TranslatedText, usize),
>)
    requires
        n == s@.len(),
        i <= n,
    ensures
        match spec_translation_items(
            s@,
            i as int,
            fuel as nat,
            first,
            Option::None,
            Option::None,
        ) {
            Option::None => r is None,
            Option::Some((p, e)) => r is Some && r.unwrap().0.detected_source_language@ == p.0
                && r.unwrap().0.text@ == p.1 && r.unwrap().1 == e && e <= n,
        },
{
    let mut j = i;
    let mut f = fuel;
    let mut fst = first;
    let mut detected: Option<String> = Option::None;
    let mut text: Option<String> = Option::None;
    loop
        invariant
            n == s@.len(),
            j <= n,
            f <= fuel,
            spec_translation_items(s@, i as int, fuel as nat, first, Option::None, Option::None)
                == spec_translation_items(
                s@,
                j as int,
                f as nat,
                fst,
                spec_str_opt_view(detected),
                spec_str_opt_view(text),
            ),
        decreases f,
    {
        if f == 0 {
            return Option::None;
        }
        if fst && j < n && s.get_char(j) == '}' {
            match (detected, text) {
                (Option::Some(d), Option::Some(t)) => {
                    return Option::Some(
                        (TranslatedText { detected_source_language: d, text: t }, j + 1),
                    );
                },
                _ => {
                    return Option::None;
                },
            }
        }
        let (key, j2) = match parse_string(s, n, j) {
            Option::None => {
                return Option::None;
            },
            Option::Some(p) => p,
        };
        let k = skip_ws(s, n, j2);
        if !(k < n && s.get_char(k) == ':') {
            return Option::None;
        }
        let v = skip_ws(s, n, k + 1);
        let stepped: (Option<String>, Option<String>, usize) = if key == String::from_str(
            "detected_source_language",
        ) {
            if detected.is_some() {
                return Option::None;
            }
            match parse_string(s, n, v) {
                Option::None => {
                    return Option::None;
                },
                Option::Some((x, e2)) => (Option::Some(x), text, e2),
            }
        } else if key == String::from_str("text") {
            if text.is_some() {
                return Option::None;
            }
            match parse_string(s, n, v) {
                Option::None => {
                    return Option::None;
                },
                Option::Some((x, e2)) => (detected, Option::Some(x), e2),
            }
        } else {
            match skip_value(s, n, v, f - 1) {
                Option::None => {
                    return Option::None;
                },
                Option::Some(e2) => (detected, text, e2),
            }
        };
        let w = skip_ws(s, n, stepped.2);
        if w < n && s.get_char(w) == ',' {
            let j3 = skip_ws(s, n, w + 1);
            j = j3;
            f = f - 1;
            fst = false;
            detected = stepped.0;
            text = stepped.1;
        } else if w < n && s.get_char(w) == '}' {
            match (stepped.0, stepped.1) {
                (Option::Some(d), Option::Some(t)) => {
                    return Option::Some(
                        (TranslatedText { detected_source_language: d, text: t }, w + 1),
                    );
                },
                _ => {
                    return Option::None;
                },
            }
        } else {
            return Option::None;
        }
    }
}

/// Reads the language-list array's items, as [`spec_language_list_items`]
/// describes them.
fn language_list_items(s: &str, n: usize, i: usize, fuel: usize, first: bool) -> (r: Option<
    (Vec<LanguageInformation>, usize),
>)
    requires
        n == s@.len(),
        i <= n,
    ensures
        match spec_language_list_items(s@, i as int, fuel as nat, first, Seq::empty()) {
            Option::None => r is None,
            Option::Some((ls, e)) => r is Some && spec_language_views(r.unwrap().0@) == ls
                && r.unwrap().1 == e && e <= n,
        },
{
    let mut j = i;
    let mut f = fuel;
    let mut fst = first;
    let mut acc: Vec<LanguageInformation> = Vec::new();
    proof {
        assert(spec_language_views(acc@) =~= Seq::<(Seq<char>, Seq<char>)>::empty());
    }
    loop
        invariant
            n == s@.len(),
            j <= n,
            f <= fuel,
            spec_language_list_items(s@, i as int, fuel as nat, first, Seq::empty())
                == spec_language_list_items(
                s@,
                j as int,
                f as nat,
                fst,
                spec_language_views(acc@),
            ),
        decreases f,
    {
        if f == 0 {
            return Option::None;
        }
        if fst && j < n && s.get_char(j) == ']' {
            return Option::Some((acc, j + 1));
        }
        if !(j < n && s.get_char(j) == '{') {
            return Option::None;
        }
        let j2 = skip_ws(s, n, j + 1);
        match language_items(s, n, j2, f - 1, true) {
            Option::None => {
                return Option::None;
            },
            Option::Some((li, e)) => {
                let w = skip_ws(s, n, e);
                let ghost prev_views = spec_language_views(acc@);
                let ghost lpair = (li.language@, li.name@);
                acc.push(li);
                proof {
                    assert(spec_language_views(acc@) =~= prev_views.push(lpair));
                }
                if w < n && s.get_char(w) == ',' {
                    let j3 = skip_ws(s, n, w + 1);
                    j = j3;
                    f = f - 1;
                    fst = false;
                } else if w < n && s.get_char(w) == ']' {
                    return Option::Some((acc, w + 1));
                } else {
                    return Option::None;
                }
            },
        }
    }
}

/// Reads the translation-list array's items, as
/// [`spec_translation_list_items`] describes them.
fn translation_list_items(s: &str, n: usize, i: usize, fuel: usize, first: bool) -> (r: Option<
    (Vec<TranslatedText>, usize),
>)
    requires
        n == s@.len(),
        i <= n,
    ensures
        match spec_translation_list_items(s@, i as int, fuel as nat, first, Seq::empty()) {
            Option::None => r is None,
            Option::Some((ts, e)) => r is Some && spec_translation_views(r.unwrap().0@) == ts
                && r.unwrap().1 == e && e <= n,
        },
{
    let mut j = i;
    let mut f = fuel;
    let mut fst = first;
    let mut acc: Vec<TranslatedText> = Vec::new();
    proof {
        assert(spec_translation_views(acc@) =~= Seq::<(Seq<char>, Seq<char>)>::empty());
    }
    loop
        invariant
            n == s@.len(),
            j <= n,
            f <= fuel,
            spec_translation_list_items(s@, i as int, fuel as nat, first, Seq::empty())
                == spec_translation_list_items(
                s@,
                j as int,
                f as nat,
                fst,
                spec_translation_views(acc@),
            ),
        decreases f,
    {
        if f == 0 {
            return Option::None;
        }
        if fst && j < n && s.get_char(j) == ']' {
            return Option::Some((acc, j + 1));
        }
        if !(j < n && s.get_char(j) == '{') {
            return Option::None;
        }
        let j2 = skip_ws(s, n, j + 1);
        match translation_items(s, n, j2, f - 1, true) {
            Option::None => {
                return Option::None;
            },
            Option::Some((tt, e)) => {
                let w = skip_ws(s, n, e);
                let ghost prev_views = spec_translation_views(acc@);
                let ghost tpair = (tt.detected_source_language@, tt.text@);
                acc.push(tt);
                proof {
                    assert(spec_translation_views(acc@) =~= prev_views.push(tpair));
                }
                if w < n && s.get_char(w) == ',' {
                    let j3 = skip_ws(s, n, w + 1);
                    j = j3;
                    f = f - 1;
                    fst = false;
                } else if w < n && s.get_char(w) == ']' {
                    return Option::Some((acc, w + 1));
                } else {
                    return Option::None;
                }
            },
        }
    }
}

/// Reads the translate response object's members, as
/// [`spec_translations_obj_items`] describes them.
#[verifier::rlimit(60)]
fn translations_obj_items(s: &str, n: usize, i: usize, fuel: usize, first: bool) -> (r: Option<
    (Vec<TranslatedText>, usize),
>)
    requires
        n == s@.len(),
        i <= n,
    ensures
        match spec_translations_obj_items(s@, i as int, fuel as nat, first, Option::None) {
            Option::None => r is None,
            Option::Some((ts, e)) => r is Some && spec_translation_views(r.unwrap().0@) == ts
                && r.unwrap().1 == e && e <= n,
        },
{
    let mut j = i;
    let mut f = fuel;
    let mut fst = first;
    let mut found: Option<Vec<TranslatedText>> = Option::None;
    loop
        invariant
            n == s@.len(),
            j <= n,
            f <= fuel,
            spec_translations_obj_items(s@, i as int, fuel as nat, first, Option::None)
                == spec_translations_obj_items(s@, j as int, f as nat, fst, spec_tt_opt_view(found)),
        decreases f,
    {
        if f == 0 {
            return Option::None;
        }
        if fst && j < n && s.get_char(j) == '}' {
            match found {
                Option::Some(ts) => {
                    return Option::Some((ts, j + 1));
                },
                Option::None => {
                    return Option::None;
                },
            }
        }
        let (key, j2) = match parse_string(s, n, j) {
            Option::None => {
                return Option::None;
            },
            Option::Some(p) => p,
        };
        let k = skip_ws(s, n, j2);
        if !(k < n && s.get_char(k) == ':') {
            return Option::None;
        }
        let v = skip_ws(s, n, k + 1);
        let stepped: (Option<Vec<TranslatedText>>, usize) = if key == String::from_str(
            "translations",
        ) {
            if found.is_some() {
                return Option::None;
            }
            if !(v < n && s.get_char(v) == '[') {
                return Option::None;
            }
            let v2 = skip_ws(s, n, v + 1);
            match translation_list_items(s, n, v2, f - 1, true) {
                Option::None => {
                    return Option::None;
                },
                Option::Some((ts, e2)) => (Option::Some(ts), e2),
            }
        } else {
            match skip_value(s, n, v, f - 1) {
                Option::None => {
                    return Option::None;
                },
                Option::Some(e2) => (found, e2),
            }
        };
        let found2 = stepped.0;
        let e = stepped.1;
        let w = skip_ws(s, n, e);
        if w < n && s.get_char(w) == ',' {
            let j3 = skip_ws(s, n, w + 1);
            j = j3;
            f = f - 1;
            fst = false;
            found = found2;
        } else if w < n && s.get_char(w) == '}' {
            match found2 {
                Option::Some(ts) => {
                    return Option::Some((ts, w + 1));
                },
                Option::None => {
                    return Option::None;
                },
            }
        } else {
            return Option::None;
        }
    }
}

/// Parses a whole language-list response body, as
/// [`spec_parse_languages_body`] describes it.
pub fn parse_languages_body(s: &str) -> (r: Option<Vec<LanguageInformation>>)
    ensures
        match spec_parse_languages_body(s@) {
            Option::None => r is None,
            Option::Some(ls) => r is Some && spec_language_views(r.unwrap()@) == ls,
        },
{
    let n = s.unicode_len();
    if n >= usize::MAX - 1 {
        return Option::None;
    }
    let i = skip_ws(s, n, 0);
    if !(i < n && s.get_char(i) == '[') {
        return Option::None;
    }
    let j = skip_ws(s, n, i + 1);
    match language_list_items(s, n, j, n + 1, true) {
        Option::None => Option::None,
        Option::Some((ls, e)) => {
            if skip_ws(s, n, e) == n {
                Option::Some(ls)
            } else {
                Option::None
            }
        },
    }
}

/// Parses a whole translate response body, as
/// [`spec_parse_translations_body`] describes it.
pub fn parse_translations_body(s: &str) -> (r: Option<Vec<TranslatedText>>)
    ensures
        match spec_parse_translations_body(s@) {
            Option::None => r is None,
            Option::Some(ts) => r is Some && spec_translation_views(r.unwrap()@) == ts,
        },
{
    let n = s.unicode_len();
    if n >= usize::MAX - 1 {
        return Option::None;
    }
    let i = skip_ws(s, n, 0);
    if !(i < n && s.get_char(i) == '{') {
        return Option::None;
    }
    let j = skip_ws(s, n, i + 1);
    match translations_obj_items(s, n, j, n + 1, true) {
        Option::None => Option::None,
        Option::Some((ts, e)) => {
            if skip_ws(s, n, e) == n {
                Option::Some(ts)
            } else {
                Option::None
            }
        },
    }
}

} // verus!
