//! Response handling shared by every provider: decoding images, request identifiers,
//! vendor error mapping and the final result.

use vstd::prelude::*;

use crate::ai::error::AiError;
use crate::ai::json::{
    base64_decode, base64_decoded, json_parsed, member, parse_json, spec_member, spec_text,
    text_of, JsonValue,
};
use crate::ai::transport::HttpResponse;
use crate::ai::types::{GeneratedImage, GenerationResult, ProviderId};
use crate::text::{
    ascii_lowercase_chars, chars_of, contains_chars, decimal, push_chars, push_decimal, push_str,
    seq_ascii_lower, seq_contains, seq_starts_with, starts_with_str, string_from_chars,
};

verus! {

/// The MIME type recorded for a decoded image: the given one when it names an image,
/// `image/png` otherwise.
pub open spec fn spec_image_mime(mime_type: Option<Seq<char>>) -> Seq<char> {
    match mime_type {
        Some(m) => if seq_starts_with(m, "image/"@) {
            m
        } else {
            "image/png"@
        },
        None => "image/png"@,
    }
}

/// Decodes one base64 image from a response; invalid base64 or empty data is an invalid
/// response.
pub fn decode_image(data: &str, mime_type: Option<&str>) -> (image: Result<GeneratedImage, AiError>)
    ensures
        match base64_decoded(data@) {
            Some(bytes) => if bytes.len() == 0 {
                image matches Err(AiError::InvalidResponse)
            } else {
                image matches Ok(img) && img.bytes@ == bytes && img.mime_type@ == spec_image_mime(
                    match mime_type {
                        Some(m) => Some(m@),
                        None => None,
                    },
                )
            },
            None => image matches Err(AiError::InvalidResponse),
        },
{
    let bytes = match base64_decode(data) {
        Some(b) => b,
        None => {
            return Err(AiError::InvalidResponse);
        },
    };
    if bytes.len() == 0 {
        return Err(AiError::InvalidResponse);
    }
    proof {
        reveal_strlit("image/");
        reveal_strlit("image/png");
    }
    let mime = match mime_type {
        Some(m) => {
            if starts_with_str(m, "image/") {
                m.to_owned()
            } else {
                String::from_str("image/png")
            }
        },
        None => String::from_str("image/png"),
    };
    Ok(GeneratedImage { bytes, mime_type: mime })
}

/// `name` names a request-identifier header, in any ASCII case.
pub open spec fn is_request_id_header(name: Seq<char>) -> bool {
    seq_ascii_lower(name) == "x-request-id"@ || seq_ascii_lower(name) == "x-goog-request-id"@
}

/// The value of the first request-identifier header.
pub open spec fn spec_request_id(headers: Seq<(String, String)>) -> Option<Seq<char>>
    decreases headers.len(),
{
    if headers.len() == 0 {
        None
    } else if is_request_id_header(headers[0].0@) {
        Some(headers[0].1@)
    } else {
        spec_request_id(headers.drop_first())
    }
}

/// The provider's request identifier (`x-request-id` or `x-goog-request-id`, any case).
pub fn request_id(response: &HttpResponse) -> (id: Option<String>)
    ensures
        match id {
            Some(s) => spec_request_id(response.headers@) == Some(s@),
            None => spec_request_id(response.headers@) is None,
        },
{
    let mut i: usize = 0;
    assert(response.headers@.skip(0) =~= response.headers@);
    proof {
        reveal_strlit("x-request-id");
        reveal_strlit("x-goog-request-id");
    }
    while i < response.headers.len()
        invariant
            i <= response.headers.len(),
            spec_request_id(response.headers@) == spec_request_id(response.headers@.skip(i as int)),
        decreases response.headers.len() - i,
    {
        let lower = ascii_lowercase_chars(response.headers[i].0.as_str());
        proof {
            assert(response.headers@.skip(i as int).drop_first() =~= response.headers@.skip(i + 1));
            assert(response.headers@.skip(i as int)[0] == response.headers@[i as int]);
        }
        if crate::text::chars_equal(&lower, "x-request-id") || crate::text::chars_equal(
            &lower,
            "x-goog-request-id",
        ) {
            return Some(response.headers[i].1.clone());
        }
        i = i + 1;
    }
    None
}

/// The document of an error body: the parsed JSON, or `null` when it is not JSON.
pub open spec fn error_document(body: Seq<u8>) -> JsonValue {
    match json_parsed(body) {
        Some(v) => v,
        None => JsonValue::Null,
    }
}

/// The object that describes an error: the `error` member, or the document itself.
pub open spec fn error_object(body: Seq<u8>) -> JsonValue {
    match spec_member(error_document(body), "error"@) {
        Some(e) => e,
        None => error_document(body),
    }
}

/// A string member of the error object, lower-cased; empty when absent.
pub open spec fn error_field(body: Seq<u8>, key: Seq<char>) -> Seq<char> {
    match spec_text(spec_member(error_object(body), key)) {
        Some(s) => seq_ascii_lower(s),
        None => Seq::empty(),
    }
}

/// `code message`, both lower-cased.
pub open spec fn error_words(body: Seq<u8>) -> Seq<char> {
    error_field(body, "code"@) + seq![' '] + error_field(body, "message"@)
}

/// The stable meaning of a vendor error, tried in this order: credentials, balance, rate
/// limit, content policy, server failure, otherwise an invalid request.
pub open spec fn spec_error_class(status: u16, words: Seq<char>) -> int {
    if status == 401 || seq_contains(words, "api key"@) || seq_contains(words, "credential"@) {
        0
    } else if seq_contains(words, "balance"@) || seq_contains(words, "overdue"@) || seq_contains(
        words,
        "billing"@,
    ) {
        1
    } else if status == 429 || seq_contains(words, "rate limit"@) || seq_contains(
        words,
        "resource_exhausted"@,
    ) {
        2
    } else if seq_contains(words, "content"@) || seq_contains(words, "safety"@) || seq_contains(
        words,
        "policy"@,
    ) || seq_contains(words, "moderation"@) || seq_contains(words, "blocked"@) {
        3
    } else if status >= 500 {
        4
    } else {
        5
    }
}

/// The error an HTTP failure maps to.
pub open spec fn is_mapped_http_error(e: AiError, status: u16, body: Seq<u8>) -> bool {
    let class = spec_error_class(status, error_words(body));
    &&& class == 0 ==> e is InvalidCredentials
    &&& class == 1 ==> e is InsufficientBalance
    &&& class == 2 ==> e is RateLimited
    &&& class == 3 ==> e is ContentBlocked
    &&& class == 4 ==> e is ProviderUnavailable
    &&& class == 5 ==> (e matches AiError::InvalidRequest(text) && text@ == (if error_field(
        body,
        "message"@,
    ).len() == 0 {
        "provider returned HTTP "@ + decimal(status as nat)
    } else {
        error_field(body, "message"@)
    }))
}

fn error_text(obj: &JsonValue, key: &str) -> (text: Vec<char>)
    ensures
        text@ == match spec_text(spec_member(*obj, key@)) {
            Some(s) => seq_ascii_lower(s),
            None => Seq::empty(),
        },
{
    match text_of(member(obj, key)) {
        Some(s) => ascii_lowercase_chars(s.as_str()),
        None => Vec::new(),
    }
}

/// Maps a vendor's HTTP error to a stable meaning from its status and the `code` and
/// `message` of its JSON error body.
pub fn map_http_error(status: u16, body: &[u8]) -> (e: AiError)
    ensures
        is_mapped_http_error(e, status, body@),
{
    let parsed = parse_json(body);
    let document = match parsed {
        Some(v) => v,
        None => JsonValue::Null,
    };
    proof {
        reveal_strlit("error");
        reveal_strlit("code");
        reveal_strlit("message");
    }
    let (code, message) = match member(&document, "error") {
        Some(object) => (error_text(object, "code"), error_text(object, "message")),
        None => (error_text(&document, "code"), error_text(&document, "message")),
    };
    let mut words = code.clone();
    words.push(' ');
    let mut k: usize = 0;
    while k < message.len()
        invariant
            k <= message.len(),
            words@ == code@ + seq![' '] + message@.take(k as int),
        decreases message.len() - k,
    {
        words.push(message[k]);
        k = k + 1;
        assert(words@ =~= code@ + seq![' '] + message@.take(k as int));
    }
    assert(message@.take(k as int) =~= message@);
    assert(words@ == error_words(body@));
    proof {
        reveal_strlit("api key");
        reveal_strlit("credential");
        reveal_strlit("balance");
        reveal_strlit("overdue");
        reveal_strlit("billing");
        reveal_strlit("rate limit");
        reveal_strlit("resource_exhausted");
        reveal_strlit("content");
        reveal_strlit("safety");
        reveal_strlit("policy");
        reveal_strlit("moderation");
        reveal_strlit("blocked");
    }
    if status == 401 || contains_chars(&words, "api key") || contains_chars(&words, "credential") {
        AiError::InvalidCredentials
    } else if contains_chars(&words, "balance") || contains_chars(&words, "overdue")
        || contains_chars(&words, "billing") {
        AiError::InsufficientBalance
    } else if status == 429 || contains_chars(&words, "rate limit") || contains_chars(
        &words,
        "resource_exhausted",
    ) {
        AiError::RateLimited
    } else if contains_chars(&words, "content") || contains_chars(&words, "safety")
        || contains_chars(&words, "policy") || contains_chars(&words, "moderation")
        || contains_chars(&words, "blocked") {
        AiError::ContentBlocked
    } else if status >= 500 {
        AiError::ProviderUnavailable
    } else if message.len() == 0 {
        proof {
            reveal_strlit("provider returned HTTP ");
        }
        let mut text = String::from_str("provider returned HTTP ");
        push_decimal(&mut text, status as u64);
        AiError::InvalidRequest(text)
    } else {
        AiError::InvalidRequest(string_from_chars(&message))
    }
}

/// Turns a response and its decoded images into the final result: a non-2xx status maps to
/// its vendor error; a success without images means the content was blocked.
pub fn finish(provider: ProviderId, response: HttpResponse, images: Vec<GeneratedImage>) -> (result: Result<
    GenerationResult,
    AiError,
>)
    ensures
        !(200 <= response.status < 300) ==> (result matches Err(e) && is_mapped_http_error(
            e,
            response.status,
            response.body@,
        )),
        200 <= response.status < 300 && images.len() == 0 ==> result matches Err(
            AiError::ContentBlocked,
        ),
        200 <= response.status < 300 && images.len() > 0 ==> (result matches Ok(r) && r.images@
            == images@ && r.provider == provider && match r.request_id {
            Some(s) => spec_request_id(response.headers@) == Some(s@),
            None => spec_request_id(response.headers@) is None,
        }),
{
    if !(200 <= response.status && response.status < 300) {
        return Err(map_http_error(response.status, response.body.as_slice()));
    }
    if images.len() == 0 {
        return Err(AiError::ContentBlocked);
    }
    let request_id = request_id(&response);
    Ok(GenerationResult { images, provider, request_id })
}

} // verus!
