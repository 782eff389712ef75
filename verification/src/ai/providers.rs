//! The three provider adapters: how each builds its HTTP request and reads its answer.

use vstd::prelude::*;

use std::sync::Arc;

use crate::ai::error::AiError;
use crate::ai::json::{
    base64_decoded, base64_encode, base64_encoded, json_parsed, json_quoted, member, parse_json,
    push_json_string, spec_member, spec_text, text_of, JsonValue,
};
use crate::ai::shared::{decode_image, finish, is_mapped_http_error, map_http_error, spec_image_mime, spec_request_id};
use crate::ai::transport::{HttpRequest, HttpResponse, HttpTransport};
use crate::ai::types::{
    spec_common_ratios, spec_openai_size, spec_ratio_text, spec_seedream_size, ApiKey,
    AspectRatio, GeneratedImage, GenerationQuality, GenerationRequest, GenerationResult,
    ImageInput, Provider, ProviderCapabilities, ProviderId,
};
use crate::text::{append_bytes, append_utf8, decimal, push_decimal, push_str};

verus! {

/// The elements of an array value; empty for anything else.
pub open spec fn json_array(value: Option<JsonValue>) -> Seq<JsonValue> {
    match value {
        Some(JsonValue::Array(items)) => items@,
        _ => Seq::empty(),
    }
}

fn array_of(value: Option<&JsonValue>) -> (items: &[JsonValue])
    ensures
        items@ == json_array(match value {
            Some(v) => Some(*v),
            None => None,
        }),
{
    match value {
        Some(JsonValue::Array(items)) => items.as_slice(),
        _ => &[],
    }
}

/// An image to decode: base64 text and the MIME type the response gave.
pub type EncodedImage = (Seq<char>, Option<Seq<char>>);

/// A `data` item that carries `b64_json` text, read as a PNG.
pub open spec fn data_item_image(item: JsonValue) -> Option<EncodedImage> {
    match spec_text(spec_member(item, "b64_json"@)) {
        Some(s) => Some((s, Some("image/png"@))),
        None => None,
    }
}

/// The images of a `data` array response, in order.
pub open spec fn data_images(doc: JsonValue) -> Seq<EncodedImage> {
    json_array(spec_member(doc, "data"@)).filter_map(|item: JsonValue| data_item_image(item))
}

/// The content blocks of a Gemini step of type `model_output`.
pub open spec fn step_blocks(step: JsonValue) -> Seq<JsonValue> {
    if spec_text(spec_member(step, "type"@)) == Some("model_output"@) {
        json_array(spec_member(step, "content"@))
    } else {
        Seq::empty()
    }
}

/// The content blocks of every model-output step, in order.
pub open spec fn all_step_blocks(steps: Seq<JsonValue>) -> Seq<JsonValue>
    decreases steps.len(),
{
    if steps.len() == 0 {
        Seq::empty()
    } else {
        all_step_blocks(steps.drop_last()) + step_blocks(steps.last())
    }
}

/// A Gemini block of type `image`: its `data` (empty when absent) and `mime_type`.
pub open spec fn gemini_block_image(block: JsonValue) -> Option<EncodedImage> {
    if spec_text(spec_member(block, "type"@)) == Some("image"@) {
        Some(
            (
                match spec_text(spec_member(block, "data"@)) {
                    Some(d) => d,
                    None => Seq::empty(),
                },
                spec_text(spec_member(block, "mime_type"@)),
            ),
        )
    } else {
        None
    }
}

/// The images of a Gemini interaction response, in order.
pub open spec fn gemini_images(doc: JsonValue) -> Seq<EncodedImage> {
    all_step_blocks(json_array(spec_member(doc, "steps"@))).filter_map(
        |b: JsonValue| gemini_block_image(b),
    )
}

/// What one encoded image decodes to: its bytes and MIME type, or `None` when the base64
/// is invalid or empty.
pub open spec fn decoded(item: EncodedImage) -> Option<(Seq<u8>, Seq<char>)> {
    match base64_decoded(item.0) {
        Some(b) => if b.len() > 0 {
            Some((b, spec_image_mime(item.1)))
        } else {
            None
        },
        None => None,
    }
}

/// `images` are exactly the decodings of `items`, in order.
pub open spec fn decodes_to(items: Seq<EncodedImage>, images: Seq<GeneratedImage>) -> bool {
    &&& images.len() == items.len()
    &&& forall|i: int|
        0 <= i < items.len() ==> decoded(items[i]) == Some(
            (#[trigger] images[i].bytes@, images[i].mime_type@),
        )
}

/// Every item decodes.
pub open spec fn all_decode(items: Seq<EncodedImage>) -> bool {
    forall|i: int| 0 <= i < items.len() ==> #[trigger] decoded(items[i]) is Some
}

fn decode_all(items: &Vec<(String, Option<String>)>) -> (images: Result<Vec<GeneratedImage>, AiError>)
    ensures
        images is Ok <==> all_decode(
            items@.map_values(|it: (String, Option<String>)| encoded_view(it)),
        ),
        images matches Ok(v) ==> decodes_to(
            items@.map_values(|it: (String, Option<String>)| encoded_view(it)),
            v@,
        ),
        images matches Err(e) ==> e is InvalidResponse,
{
    let ghost views = items@.map_values(|it: (String, Option<String>)| encoded_view(it));
    let mut images: Vec<GeneratedImage> = Vec::new();
    let mut i: usize = 0;
    while i < items.len()
        invariant
            i <= items.len(),
            views == items@.map_values(|it: (String, Option<String>)| encoded_view(it)),
            images.len() == i,
            forall|j: int|
                0 <= j < i ==> decoded(views[j]) == Some(
                    (#[trigger] images@[j].bytes@, images@[j].mime_type@),
                ),
        decreases items.len() - i,
    {
        let mime = match &items[i].1 {
            Some(m) => Some(m.as_str()),
            None => None,
        };
        match decode_image(items[i].0.as_str(), mime) {
            Ok(image) => {
                images.push(image);
            },
            Err(e) => {
                proof {
                    assert(decoded(views[i as int]) is None);
                }
                return Err(e);
            },
        }
        i = i + 1;
    }
    proof {
        assert forall|j: int| 0 <= j < views.len() implies #[trigger] decoded(views[j]) is Some by {
            assert(decoded(views[j]) == Some((images@[j].bytes@, images@[j].mime_type@)));
        }
    }
    Ok(images)
}

/// An item as plain text values.
pub open spec fn encoded_view(item: (String, Option<String>)) -> EncodedImage {
    (
        item.0@,
        match item.1 {
            Some(m) => Some(m@),
            None => None,
        },
    )
}

fn data_items(doc: &JsonValue) -> (items: Vec<(String, Option<String>)>)
    ensures
        items@.map_values(|it: (String, Option<String>)| encoded_view(it)) == data_images(*doc),
{
    proof {
        reveal_strlit("data");
        reveal_strlit("b64_json");
        reveal_strlit("image/png");
    }
    let array = array_of(member(doc, "data"));
    let ghost arr = json_array(spec_member(*doc, "data"@));
    let mut items: Vec<(String, Option<String>)> = Vec::new();
    let mut i: usize = 0;
    while i < array.len()
        invariant
            i <= array.len(),
            array@ == arr,
            items@.map_values(|it: (String, Option<String>)| encoded_view(it)) == arr.take(
                i as int,
            ).filter_map(|item: JsonValue| data_item_image(item)),
        decreases array.len() - i,
    {
        let ghost prefix = arr.take(i as int);
        proof {
            assert(arr.take(i + 1).drop_last() =~= prefix);
            assert(arr.take(i + 1).last() == arr[i as int]);
        }
        match text_of(member(&array[i], "b64_json")) {
            Some(text) => {
                let ghost before = items@;
                items.push((text.clone(), Some(String::from_str("image/png"))));
                proof {
                    assert(items@.map_values(|it: (String, Option<String>)| encoded_view(it))
                        =~= before.map_values(|it: (String, Option<String>)| encoded_view(it))
                        + seq![encoded_view(items@[before.len() as int])]);
                }
            },
            None => {},
        }
        i = i + 1;
    }
    proof {
        assert(arr.take(i as int) =~= arr);
    }
    items
}

/// Builds the `(data, mime)` list of a Gemini response.
fn gemini_items(doc: &JsonValue) -> (items: Vec<(String, Option<String>)>)
    ensures
        items@.map_values(|it: (String, Option<String>)| encoded_view(it)) == gemini_images(*doc),
{
    proof {
        reveal_strlit("steps");
        reveal_strlit("type");
        reveal_strlit("model_output");
        reveal_strlit("content");
        reveal_strlit("image");
        reveal_strlit("data");
        reveal_strlit("mime_type");
    }
    let steps = array_of(member(doc, "steps"));
    let ghost all_steps = json_array(spec_member(*doc, "steps"@));
    let mut blocks: Vec<&JsonValue> = Vec::new();
    let mut s: usize = 0;
    while s < steps.len()
        invariant
            s <= steps.len(),
            steps@ == all_steps,
            blocks@.map_values(|b: &JsonValue| *b) == all_step_blocks(all_steps.take(s as int)),
        decreases steps.len() - s,
    {
        proof {
            assert(all_steps.take(s + 1).drop_last() =~= all_steps.take(s as int));
            assert(all_steps.take(s + 1).last() == all_steps[s as int]);
        }
        let step = &steps[s];
        let is_output = match text_of(member(step, "type")) {
            Some(t) => crate::text::chars_equal(&crate::text::chars_of(t.as_str()), "model_output"),
            None => false,
        };
        if is_output {
            let content = array_of(member(step, "content"));
            let ghost before = blocks@.map_values(|b: &JsonValue| *b);
            let mut c: usize = 0;
            while c < content.len()
                invariant
                    c <= content.len(),
                    blocks@.map_values(|b: &JsonValue| *b) == before + content@.take(c as int),
                decreases content.len() - c,
            {
                let ghost prev = blocks@;
                blocks.push(&content[c]);
                proof {
                    assert(blocks@.map_values(|b: &JsonValue| *b) =~= prev.map_values(
                        |b: &JsonValue| *b,
                    ).push(content@[c as int]));
                    assert(content@.take(c + 1) =~= content@.take(c as int).push(content@[c as int]));
                }
                c = c + 1;
            }
            assert(content@.take(c as int) =~= content@);
            assert(step_blocks(*step) == content@);
        } else {
            assert(step_blocks(*step) =~= Seq::<JsonValue>::empty());
            assert(blocks@.map_values(|b: &JsonValue| *b) =~= blocks@.map_values(|b: &JsonValue| *b) + step_blocks(*step));
        }
        s = s + 1;
    }
    proof {
        assert(all_steps.take(s as int) =~= all_steps);
    }
    let ghost all_blocks = all_step_blocks(all_steps);
    let mut items: Vec<(String, Option<String>)> = Vec::new();
    let mut b: usize = 0;
    while b < blocks.len()
        invariant
            b <= blocks.len(),
            blocks@.map_values(|x: &JsonValue| *x) == all_blocks,
            items@.map_values(|it: (String, Option<String>)| encoded_view(it)) == all_blocks.take(
                b as int,
            ).filter_map(|x: JsonValue| gemini_block_image(x)),
        decreases blocks.len() - b,
    {
        proof {
            assert(all_blocks.take(b + 1).drop_last() =~= all_blocks.take(b as int));
            assert(all_blocks.take(b + 1).last() == all_blocks[b as int]);
            assert(all_blocks[b as int] == *blocks@[b as int]);
        }
        let block = blocks[b];
        let is_image = match text_of(member(block, "type")) {
            Some(t) => crate::text::chars_equal(&crate::text::chars_of(t.as_str()), "image"),
            None => false,
        };
        if is_image {
            let data = match text_of(member(block, "data")) {
                Some(d) => d.clone(),
                None => String::new(),
            };
            let mime = match text_of(member(block, "mime_type")) {
                Some(m) => Some(m.clone()),
                None => None,
            };
            let ghost before = items@;
            items.push((data, mime));
            proof {
                assert(items@.map_values(|it: (String, Option<String>)| encoded_view(it))
                    =~= before.map_values(|it: (String, Option<String>)| encoded_view(it))
                    + seq![encoded_view(items@[before.len() as int])]);
            }
        }
        b = b + 1;
    }
    proof {
        assert(all_blocks.take(b as int) =~= all_blocks);
    }
    items
}

/// The outcome of reading a response whose images are `images_of(document)`: a non-2xx
/// status maps to its vendor error; a body that is not JSON or an image that does not
/// decode is an invalid response; otherwise the final result of `finish`.
pub open spec fn is_interpreted(
    result: Result<GenerationResult, AiError>,
    provider: ProviderId,
    response: HttpResponse,
    items: Option<Seq<EncodedImage>>,
) -> bool {
    if !(200 <= response.status < 300) {
        result matches Err(e) && is_mapped_http_error(e, response.status, response.body@)
    } else {
        match items {
            None => result matches Err(AiError::InvalidResponse),
            Some(list) => if !all_decode(list) {
                result matches Err(AiError::InvalidResponse)
            } else if list.len() == 0 {
                result matches Err(AiError::ContentBlocked)
            } else {
                result matches Ok(r) && decodes_to(list, r.images@) && r.provider == provider
                    && match r.request_id {
                    Some(s) => spec_request_id(response.headers@) == Some(s@),
                    None => spec_request_id(response.headers@) is None,
                }
            },
        }
    }
}

/// The images a `data`-array response announces, or `None` when its body is not JSON.
pub open spec fn data_response_images(body: Seq<u8>) -> Option<Seq<EncodedImage>> {
    match json_parsed(body) {
        Some(doc) => Some(data_images(doc)),
        None => None,
    }
}

/// The images a Gemini response announces, or `None` when its body is not JSON.
pub open spec fn gemini_response_images(body: Seq<u8>) -> Option<Seq<EncodedImage>> {
    match json_parsed(body) {
        Some(doc) => Some(gemini_images(doc)),
        None => None,
    }
}

/// Reads a response whose images are the `b64_json` strings of its `data` array (OpenAI
/// and Seedream).
pub fn read_data_response(provider: ProviderId, response: HttpResponse) -> (result: Result<
    GenerationResult,
    AiError,
>)
    ensures
        is_interpreted(result, provider, response, data_response_images(response.body@)),
{
    if !(200 <= response.status && response.status < 300) {
        return Err(map_http_error(response.status, response.body.as_slice()));
    }
    let doc = match parse_json(response.body.as_slice()) {
        Some(d) => d,
        None => {
            return Err(AiError::InvalidResponse);
        },
    };
    let items = data_items(&doc);
    let images = decode_all(&items)?;
    finish(provider, response, images)
}

/// Reads a Gemini interaction response.
pub fn read_gemini_response(response: HttpResponse) -> (result: Result<GenerationResult, AiError>)
    ensures
        is_interpreted(
            result,
            ProviderId::NanoBanana,
            response,
            gemini_response_images(response.body@),
        ),
{
    if !(200 <= response.status && response.status < 300) {
        return Err(map_http_error(response.status, response.body.as_slice()));
    }
    let doc = match parse_json(response.body.as_slice()) {
        Some(d) => d,
        None => {
            return Err(AiError::InvalidResponse);
        },
    };
    let items = gemini_items(&doc);
    let images = decode_all(&items)?;
    finish(ProviderId::NanoBanana, response, images)
}

} // verus!
