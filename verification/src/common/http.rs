use vstd::prelude::*;

use crate::common::file;
use crate::common::text::str_equals;

verus! {

/// The essence (`type/subtype`, lower-cased, without parameters) of the
/// MIME type that `tide::http::Mime` parses from the text, or `None` where
/// it rejects the text.
pub uninterp spec fn mime_essence(s: Seq<char>) -> Option<Seq<char>>;

/// Parses a MIME type with `tide::http::Mime`'s `FromStr` and returns its
/// `essence()`. Trusted: the result is the named parse of the text.
#[verifier::external_body]
fn parse_mime_essence(s: &str) -> (r: Option<String>)
    ensures
        match r {
            Some(e) => mime_essence(s@) == Some(e@),
            None => mime_essence(s@) is None,
        },
{
    match s.parse::<tide::http::Mime>() {
        Ok(mime) => Some(mime.essence().to_string()),
        Err(_) => None,
    }
}

/// `Bearer ` followed by a space.
pub open spec fn bearer_prefix() -> Seq<char> {
    seq!['B', 'e', 'a', 'r', 'e', 'r', ' ']
}

/// The token of an `Authorization` header value: what follows `Bearer`
/// and one space.
pub open spec fn bearer_token_of(value: Seq<char>) -> Option<Seq<char>> {
    if value.len() >= 7 && value.take(7) == bearer_prefix() {
        Some(value.skip(7))
    } else {
        None
    }
}

/// The bearer token of an optional `Authorization` header value.
pub open spec fn token_of(authorization: Option<&str>) -> Option<Seq<char>> {
    match authorization {
        Some(value) => bearer_token_of(value@),
        None => None,
    }
}

/// The token of the `Authorization` header (whose value is
/// `authorization`), when it has the form `Bearer <token>`.
pub fn get_bearer_token(authorization: Option<&str>) -> (r: Option<&str>)
    ensures
        match r {
            Some(token) => token_of(authorization) == Some(token@),
            None => token_of(authorization) is None,
        },
{
    let value = match authorization {
        Some(value) => value,
        None => {
            return None;
        },
    };
    let length = value.unicode_len();
    if length < 7 {
        return None;
    }
    proof {
        reveal_strlit("Bearer ");
        assert("Bearer "@ =~= bearer_prefix());
    }
    if !str_equals(value.substring_char(0, 7), "Bearer ") {
        return None;
    }
    Some(value.substring_char(7, length))
}

/// The file type that the `Content-Type` header (whose value is
/// `content_type`) names, when it names JPEG or PNG.
pub fn get_file_type(content_type: Option<&str>) -> (r: Option<file::Type>)
    ensures
        r == match content_type {
            Some(c) => match mime_essence(c@) {
                Some(essence) => file::type_of_mime(essence),
                None => None,
            },
            None => None,
        },
{
    let content_type = match content_type {
        Some(c) => c,
        None => {
            return None;
        },
    };
    match parse_mime_essence(content_type) {
        Some(essence) => file::Type::from_mime_type(essence.as_str()),
        None => None,
    }
}

} // verus!
