use vstd::prelude::*;
use crate::failure::{FailureDisposition, HandlerFailure};
use crate::json::{JsonValue, json_get, json_get_i64, json_get_str, json_str, opt_text};
use crate::quote::white_space;
use crate::uri::{UrlParts, parse_url, parts_view, url_parse};
use crate::text::{ascii_lower, ascii_lowercase_char, chars_of, eq_ignore_ascii_case, is_white_space, push_char};

verus! {

/// What a remote emoji fetch job asks for.
#[derive(Debug)]
pub struct EmojiFetchRequest {
    pub emoji_id: i64,
    /// The image URL the emoji row must still name.
    pub remote_url: String,
    /// The domain that owns the emoji.
    pub domain: String,
    /// The media type the emoji's metadata advertises, if any.
    pub media_type: Option<String>,
    /// The parsed image URL.
    pub url: UrlParts,
}

/// The request of an emoji fetch job's arguments, as `(id, url, domain, media type)`, or
/// why they are invalid. A `null` media type counts as absent; the URL must parse.
pub open spec fn emoji_fetch_request_spec(arguments: JsonValue)
    -> Result<(i64, Seq<char>, Seq<char>, Option<Seq<char>>), Seq<char>> {
    match json_get_i64(arguments, "emoji_id"@) {
        None => Err("emoji fetch job has no emoji ID"@),
        Some(id) => match json_get_str(arguments, "remote_url"@) {
            None => Err("emoji fetch job has no URL"@),
            Some(url) => match json_get_str(arguments, "domain"@) {
                None => Err("emoji fetch job has no domain"@),
                Some(domain) => {
                    let media_type = match json_get(arguments, "media_type"@) {
                        None => Ok(None),
                        Some(JsonValue::Null) => Ok(None),
                        Some(v) => match json_str(v) {
                            Some(t) => Ok(Some(t)),
                            None => Err("emoji media type is invalid"@),
                        },
                    };
                    match media_type {
                        Err(m) => Err(m),
                        Ok(t) => if url_parse(url) is None {
                            Err("emoji fetch URL is invalid"@)
                        } else {
                            Ok((id, url, domain, t))
                        },
                    }
                },
            },
        },
    }
}

/// The view of a request.
pub open spec fn emoji_request_view(r: EmojiFetchRequest) -> (i64, Seq<char>, Seq<char>, Option<Seq<char>>) {
    (r.emoji_id, r.remote_url@, r.domain@, match r.media_type {
        Some(t) => Some(t@),
        None => None,
    })
}

/// Reads an emoji fetch job's arguments.
pub fn parse_emoji_fetch_request(arguments: &JsonValue) -> (r: Result<EmojiFetchRequest, HandlerFailure>)
    ensures
        match r {
            Ok(req) => emoji_fetch_request_spec(*arguments) == Ok::<_, Seq<char>>(emoji_request_view(req))
                && url_parse(req.remote_url@) == Some(parts_view(req.url)),
            Err(f) => f.disposition == FailureDisposition::Permanent
                && emoji_fetch_request_spec(*arguments)
                == Err::<(i64, Seq<char>, Seq<char>, Option<Seq<char>>), Seq<char>>(f.message@),
        },
{
    let emoji_id = match arguments.member_i64("emoji_id") {
        Some(id) => id,
        None => {
            return Err(HandlerFailure::permanent("emoji fetch job has no emoji ID"));
        },
    };
    let remote_url = match arguments.member_str("remote_url") {
        Some(u) => u,
        None => {
            return Err(HandlerFailure::permanent("emoji fetch job has no URL"));
        },
    };
    let domain = match arguments.member_str("domain") {
        Some(d) => d,
        None => {
            return Err(HandlerFailure::permanent("emoji fetch job has no domain"));
        },
    };
    let media_type = match arguments.get("media_type") {
        None => None,
        Some(JsonValue::Null) => None,
        Some(v) => match v.as_str() {
            Some(t) => Some(t.to_owned()),
            None => {
                return Err(HandlerFailure::permanent("emoji media type is invalid"));
            },
        },
    };
    let url = match parse_url(remote_url) {
        Some(u) => u,
        None => {
            return Err(HandlerFailure::permanent("emoji fetch URL is invalid"));
        },
    };
    Ok(EmojiFetchRequest { emoji_id, remote_url: remote_url.to_owned(), domain: domain.to_owned(), media_type, url })
}

/// The index of the first `;` at or after `i`, or the length.
pub open spec fn semicolon_at(s: Seq<char>, i: int) -> int
    decreases s.len() - i,
{
    if i < 0 || i >= s.len() {
        s.len() as int
    } else if s[i] == ';' {
        i
    } else {
        semicolon_at(s, i + 1)
    }
}

/// The index of the first character at or after `i` (and before `end`) that is not white space.
pub open spec fn skip_white(s: Seq<char>, i: int, end: int) -> int
    decreases end - i,
{
    if 0 <= i < end && end <= s.len() && is_white_space(s[i]) {
        skip_white(s, i + 1, end)
    } else {
        i
    }
}

/// The end of `s[start..end]` without its trailing white space.
pub open spec fn drop_white(s: Seq<char>, start: int, end: int) -> int
    decreases end - start,
{
    if start < end && 0 < end <= s.len() && is_white_space(s[end - 1]) {
        drop_white(s, start, end - 1)
    } else {
        end
    }
}

/// A media type without its parameters, trimmed and in lower case: the part before the first
/// `;`, without surrounding white space, ASCII letters lowered.
pub open spec fn media_essence(s: Seq<char>) -> Seq<char> {
    let end = semicolon_at(s, 0);
    let start = skip_white(s, 0, end);
    let stop = drop_white(s, start, end);
    s.subrange(start, stop).map_values(|c: char| ascii_lower(c))
}

/// The image types an emoji may have.
pub open spec fn emoji_image_type(t: Seq<char>) -> bool {
    t == "image/png"@ || t == "image/gif"@ || t == "image/webp"@
}

/// The content type an emoji is stored with, or why the response is refused: the response's
/// media type must be PNG, GIF or WebP, and must equal the advertised one up to ASCII case.
pub open spec fn emoji_content_type_spec(response_type: Option<Seq<char>>, advertised: Option<Seq<char>>)
    -> Result<Seq<char>, Seq<char>> {
    match response_type {
        None => Err("remote emoji content type is invalid"@),
        Some(t) => {
            let essence = media_essence(t);
            if !emoji_image_type(essence) {
                Err("remote emoji content type is invalid"@)
            } else if advertised matches Some(a) && !eq_ignore_ascii_case(a, essence) {
                Err("remote emoji content type does not match its metadata"@)
            } else {
                Ok(essence)
            }
        },
    }
}

proof fn lemma_semicolon_step(s: Seq<char>, i: int)
    requires
        0 <= i < s.len(),
        s[i] != ';',
    ensures
        semicolon_at(s, i) == semicolon_at(s, i + 1),
{
}

pub(crate) fn essence_of(text: &str) -> (essence: String)
    ensures
        essence@ == media_essence(text@),
{
    let chars = chars_of(text);
    let ghost s = text@;
    let mut end: usize = 0;
    while end < chars.len() && chars[end] != ';'
        invariant
            chars@ == s,
            end <= s.len(),
            semicolon_at(s, end as int) == semicolon_at(s, 0),
        decreases s.len() - end,
    {
        proof {
            lemma_semicolon_step(s, end as int);
        }
        end = end + 1;
    }
    let mut start: usize = 0;
    while start < end && white_space(chars[start])
        invariant
            chars@ == s,
            end == semicolon_at(s, 0),
            end <= s.len(),
            start <= end,
            skip_white(s, start as int, end as int) == skip_white(s, 0, end as int),
        decreases end - start,
    {
        start = start + 1;
    }
    let mut stop: usize = end;
    while stop > start && white_space(chars[stop - 1])
        invariant
            chars@ == s,
            start <= stop <= end <= s.len(),
            drop_white(s, start as int, stop as int) == drop_white(s, start as int, end as int),
        decreases stop - start,
    {
        stop = stop - 1;
    }
    let mut essence = String::new();
    let mut i: usize = start;
    while i < stop
        invariant
            chars@ == s,
            start <= i <= stop <= s.len(),
            essence@ == s.subrange(start as int, i as int).map_values(|c: char| ascii_lower(c)),
        decreases stop - i,
    {
        push_char(&mut essence, ascii_lowercase_char(chars[i]));
        proof {
            assert(s.subrange(start as int, i + 1).map_values(|c: char| ascii_lower(c))
                =~= s.subrange(start as int, i as int).map_values(|c: char| ascii_lower(c)).push(ascii_lower(s[i as int])));
        }
        i = i + 1;
    }
    essence
}

fn is_emoji_image_type(t: &str) -> (r: bool)
    ensures
        r == emoji_image_type(t@),
{
    crate::text::str_eq(t, "image/png") || crate::text::str_eq(t, "image/gif") || crate::text::str_eq(t, "image/webp")
}

fn same_ignoring_ascii_case(a: &str, b: &str) -> (r: bool)
    ensures
        r == eq_ignore_ascii_case(a@, b@),
{
    let x = chars_of(a);
    let y = chars_of(b);
    if x.len() != y.len() {
        return false;
    }
    let mut i: usize = 0;
    while i < x.len()
        invariant
            x@ == a@,
            y@ == b@,
            x@.len() == y@.len(),
            i <= x@.len(),
            forall|j: int| 0 <= j < i ==> ascii_lower(#[trigger] x@[j]) == ascii_lower(y@[j]),
        decreases x@.len() - i,
    {
        if ascii_lowercase_char(x[i]) != ascii_lowercase_char(y[i]) {
            return false;
        }
        i = i + 1;
    }
    true
}

/// Checks a fetched emoji's content type against what the emoji may be and what its
/// metadata advertises; gives the type the emoji is stored with.
pub fn emoji_content_type(response_type: Option<&str>, advertised: Option<&str>)
    -> (r: Result<String, HandlerFailure>)
    ensures
        match r {
            Ok(t) => emoji_content_type_spec(opt_text(response_type), opt_text(advertised)) == Ok::<Seq<char>, Seq<char>>(t@),
            Err(f) => f.disposition == FailureDisposition::Permanent
                && emoji_content_type_spec(opt_text(response_type), opt_text(advertised)) == Err::<Seq<char>, Seq<char>>(f.message@),
        },
{
    let raw = match response_type {
        Some(t) => t,
        None => {
            return Err(HandlerFailure::permanent("remote emoji content type is invalid"));
        },
    };
    let essence = essence_of(raw);
    if !is_emoji_image_type(essence.as_str()) {
        return Err(HandlerFailure::permanent("remote emoji content type is invalid"));
    }
    if let Some(a) = advertised {
        if !same_ignoring_ascii_case(a, essence.as_str()) {
            return Err(HandlerFailure::permanent("remote emoji content type does not match its metadata"));
        }
    }
    Ok(essence)
}

/// Whether the emoji row still names what the job fetched: same owner domain, same URL.
pub fn emoji_row_current(row_domain: &str, row_url: &str, request: &EmojiFetchRequest) -> (r: bool)
    ensures
        r == (row_domain@ == request.domain@ && row_url@ == request.remote_url@),
{
    crate::text::str_eq(row_domain, request.domain.as_str()) && crate::text::str_eq(row_url, request.remote_url.as_str())
}

/// An emoji is stored with a PNG, GIF or WebP type read from the response. When its
/// metadata advertises a type, the stored type equals it up to ASCII case, and any present
/// advertised type that differs, whatever it is, refuses the emoji for good; without a
/// response type, or with one of another kind, it is refused as invalid.
pub proof fn lemma_emoji_content_type(response_type: Option<Seq<char>>, advertised: Option<Seq<char>>)
    ensures
        emoji_content_type_spec(response_type, advertised) matches Ok(t) ==> {
            &&& t == "image/png"@ || t == "image/gif"@ || t == "image/webp"@
            &&& response_type is Some && t == media_essence(response_type->0)
            &&& advertised is Some ==> eq_ignore_ascii_case(advertised->0, t)
        },
        response_type is None ==> emoji_content_type_spec(response_type, advertised)
            == Err::<Seq<char>, Seq<char>>("remote emoji content type is invalid"@),
        (response_type is Some && {
            let t = media_essence(response_type->0);
            t != "image/png"@ && t != "image/gif"@ && t != "image/webp"@
        }) ==> emoji_content_type_spec(response_type, advertised)
            == Err::<Seq<char>, Seq<char>>("remote emoji content type is invalid"@),
        (response_type is Some && advertised is Some && {
            let t = media_essence(response_type->0);
            &&& t == "image/png"@ || t == "image/gif"@ || t == "image/webp"@
            &&& !eq_ignore_ascii_case(advertised->0, t)
        }) ==> emoji_content_type_spec(response_type, advertised)
            == Err::<Seq<char>, Seq<char>>("remote emoji content type does not match its metadata"@),
{
}

proof fn lemma_semicolon_at_bounds(s: Seq<char>, i: int)
    requires
        0 <= i <= s.len(),
    ensures
        i <= semicolon_at(s, i) <= s.len(),
        forall|k: int| i <= k < semicolon_at(s, i) ==> s[k] != ';',
    decreases s.len() - i,
{
    if i < s.len() && s[i] != ';' {
        lemma_semicolon_at_bounds(s, i + 1);
    }
}

proof fn lemma_skip_white_bounds(s: Seq<char>, i: int, end: int)
    requires
        0 <= i <= end <= s.len(),
    ensures
        i <= skip_white(s, i, end) <= end,
        skip_white(s, i, end) < end ==> !is_white_space(s[skip_white(s, i, end)]),
    decreases end - i,
{
    if i < end && is_white_space(s[i]) {
        lemma_skip_white_bounds(s, i + 1, end);
    }
}

proof fn lemma_drop_white_bounds(s: Seq<char>, start: int, end: int)
    requires
        0 <= start <= end <= s.len(),
    ensures
        start <= drop_white(s, start, end) <= end,
        start < drop_white(s, start, end) ==> !is_white_space(s[drop_white(s, start, end) - 1]),
    decreases end - start,
{
    if start < end && is_white_space(s[end - 1]) {
        lemma_drop_white_bounds(s, start, end - 1);
    }
}

/// A media essence is what comes before the first `;`, with no white space at either end and
/// no ASCII capital letter: its characters are the lowered characters of that part.
pub proof fn lemma_media_essence(t: Seq<char>)
    ensures
        forall|i: int| 0 <= i < media_essence(t).len() ==> {
            &&& !('A' <= #[trigger] media_essence(t)[i] && media_essence(t)[i] <= 'Z')
            &&& media_essence(t)[i] != ';'
        },
        media_essence(t).len() > 0 ==> !is_white_space(media_essence(t)[0])
            && !is_white_space(media_essence(t)[media_essence(t).len() - 1]),
        media_essence(t).len() <= t.len(),
{
    let end = semicolon_at(t, 0);
    lemma_semicolon_at_bounds(t, 0);
    let start = skip_white(t, 0, end);
    lemma_skip_white_bounds(t, 0, end);
    let stop = drop_white(t, start, end);
    lemma_drop_white_bounds(t, start, end);
    let e = media_essence(t);
    assert(e.len() == stop - start);
    assert forall|i: int| 0 <= i < e.len() implies e[i] == ascii_lower(t[start + i]) by {}
    if e.len() > 0 {
        assert(e[0] == ascii_lower(t[start]));
        assert(e[e.len() - 1] == ascii_lower(t[stop - 1]));
        assert(!is_white_space(t[start]));
    }
}

/// An emoji fetch request is read only when its URL parses; the request holds the job's
/// emoji ID, URL and domain as given.
pub proof fn lemma_emoji_fetch_request(arguments: JsonValue)
    ensures
        emoji_fetch_request_spec(arguments) matches Ok((id, url, domain, _)) ==> {
            &&& url_parse(url) is Some
            &&& json_get_i64(arguments, "emoji_id"@) == Some(id)
            &&& json_get_str(arguments, "remote_url"@) == Some(url)
            &&& json_get_str(arguments, "domain"@) == Some(domain)
        },
        (json_get_i64(arguments, "emoji_id"@) is Some && json_get_str(arguments, "domain"@) is Some
            && (json_get_str(arguments, "remote_url"@) matches Some(u) && url_parse(u) is None)
            && !(json_get(arguments, "media_type"@) matches Some(v) && !(v is Null) && json_str(v) is None))
            ==> emoji_fetch_request_spec(arguments) == Err::<(i64, Seq<char>, Seq<char>, Option<Seq<char>>), Seq<char>>(
            "emoji fetch URL is invalid"@),
{
}

} // verus!
