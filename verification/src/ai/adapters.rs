//! Provider adapters: what each provider is sent, and how its answer is read.

use vstd::prelude::*;

use std::sync::Arc;

use crate::ai::error::AiError;
use crate::ai::json::{base64_encode, base64_encoded, json_quoted, push_json_string};
use crate::ai::providers::{
    data_response_images, gemini_response_images, is_interpreted, read_data_response,
    read_gemini_response,
};
use crate::ai::transport::{HttpRequest, HttpResponse, HttpTransport};
use crate::ai::types::{
    is_valid_request, is_validation_outcome, spec_common_ratios, spec_openai_size, spec_ratio_text, spec_seedream_size, ApiKey,
    AspectRatio, GenerationQuality, GenerationRequest, GenerationResult, ImageInput, Provider,
    ProviderCapabilities, ProviderId,
};
use crate::text::{append_bytes, append_utf8, decimal, push_decimal, push_str};

verus! {

/// The quality name sent to providers.
pub open spec fn spec_quality_text(q: GenerationQuality) -> Seq<char> {
    match q {
        GenerationQuality::Low => "low"@,
        GenerationQuality::Medium => "medium"@,
        GenerationQuality::High => "high"@,
    }
}

/// The multipart boundary of OpenAI edit requests.
pub open spec fn boundary() -> Seq<char> {
    "rastery-gpt-image-boundary"@
}

/// One text field of a multipart body.
pub open spec fn text_part(name: Seq<char>, value: Seq<char>) -> Seq<char> {
    "--"@ + boundary() + "\r\nContent-Disposition: form-data; name=\""@ + name + "\"\r\n\r\n"@
        + value + "\r\n"@
}

/// The text fields of an OpenAI edit request.
pub open spec fn openai_text_fields(model: Seq<char>, request: GenerationRequest) -> Seq<char> {
    text_part("model"@, model) + text_part("prompt"@, request.prompt@) + text_part(
        "size"@,
        spec_openai_size(request.aspect_ratio),
    ) + text_part("quality"@, spec_quality_text(request.quality)) + text_part(
        "n"@,
        decimal(request.count as nat),
    ) + text_part("output_format"@, "png"@)
}

/// The header of the `index`-th reference-image part.
pub open spec fn reference_head(index: nat, mime: Seq<char>) -> Seq<char> {
    "--"@ + boundary()
        + "\r\nContent-Disposition: form-data; name=\"image[]\"; filename=\"reference-"@
        + decimal(index) + ".png\"\r\nContent-Type: "@ + mime + "\r\n\r\n"@
}

/// The reference-image parts of a multipart body.
pub open spec fn reference_parts(images: Seq<ImageInput>) -> Seq<u8>
    decreases images.len(),
{
    if images.len() == 0 {
        Seq::empty()
    } else {
        reference_parts(images.drop_last()) + vstd::utf8::encode_utf8(
            reference_head((images.len() - 1) as nat, images.last().mime_type@),
        ) + images.last().bytes@ + vstd::utf8::encode_utf8("\r\n"@)
    }
}

/// The header of the mask part.
pub open spec fn mask_head(mime: Seq<char>) -> Seq<char> {
    "--"@ + boundary()
        + "\r\nContent-Disposition: form-data; name=\"mask\"; filename=\"mask.png\"\r\nContent-Type: "@
        + mime + "\r\n\r\n"@
}

/// The mask part, when there is a mask.
pub open spec fn mask_part(mask: Option<ImageInput>) -> Seq<u8> {
    match mask {
        Some(m) => vstd::utf8::encode_utf8(mask_head(m.mime_type@)) + m.bytes@
            + vstd::utf8::encode_utf8("\r\n"@),
        None => Seq::empty(),
    }
}

/// The body of an OpenAI edit request.
pub open spec fn openai_multipart_body(model: Seq<char>, request: GenerationRequest) -> Seq<u8> {
    vstd::utf8::encode_utf8(openai_text_fields(model, request)) + reference_parts(
        request.reference_images@,
    ) + mask_part(request.mask) + vstd::utf8::encode_utf8("--"@ + boundary() + "--\r\n"@)
}

/// The JSON body of an OpenAI text-to-image request (members in key order).
pub open spec fn openai_json_body(model: Seq<char>, request: GenerationRequest) -> Seq<char> {
    "{\"model\":"@ + json_quoted(model) + ",\"n\":"@ + decimal(request.count as nat)
        + ",\"output_format\":\"png\",\"prompt\":"@ + json_quoted(request.prompt@)
        + ",\"quality\":"@ + json_quoted(spec_quality_text(request.quality)) + ",\"size\":"@
        + json_quoted(spec_openai_size(request.aspect_ratio)) + "}"@
}

/// A reference image as a data URL.
pub open spec fn data_url(image: ImageInput) -> Seq<char> {
    "data:"@ + image.mime_type@ + ";base64,"@ + base64_encoded(image.bytes@)
}

/// Comma-separated JSON strings of the data URLs of `images`.
pub open spec fn data_url_list(images: Seq<ImageInput>) -> Seq<char>
    decreases images.len(),
{
    if images.len() == 0 {
        Seq::empty()
    } else if images.len() == 1 {
        json_quoted(data_url(images[0]))
    } else {
        data_url_list(images.drop_last()) + ","@ + json_quoted(data_url(images.last()))
    }
}

/// The `image` member of a Seedream body: absent, one string, or an array of strings.
pub open spec fn seedream_image_member(images: Seq<ImageInput>) -> Seq<char> {
    if images.len() == 0 {
        Seq::empty()
    } else if images.len() == 1 {
        "\"image\":"@ + data_url_list(images) + ","@
    } else {
        "\"image\":["@ + data_url_list(images) + "],"@
    }
}

/// The JSON body of a Seedream request (members in key order).
pub open spec fn seedream_json_body(model: Seq<char>, request: GenerationRequest) -> Seq<char> {
    "{"@ + seedream_image_member(request.reference_images@) + "\"model\":"@ + json_quoted(model)
        + ",\"output_format\":\"png\",\"prompt\":"@ + json_quoted(request.prompt@)
        + ",\"response_format\":\"b64_json\",\"size\":"@ + json_quoted(
        spec_seedream_size(request.aspect_ratio),
    ) + ",\"watermark\":false}"@
}

/// The image entries of a Gemini `input` array, each preceded by a comma.
pub open spec fn gemini_image_entries(images: Seq<ImageInput>) -> Seq<char>
    decreases images.len(),
{
    if images.len() == 0 {
        Seq::empty()
    } else {
        gemini_image_entries(images.drop_last()) + ",{\"data\":"@ + json_quoted(
            base64_encoded(images.last().bytes@),
        ) + ",\"mime_type\":"@ + json_quoted(images.last().mime_type@) + ",\"type\":\"image\"}"@
    }
}

/// The JSON body of a Gemini interaction request (members in key order).
pub open spec fn gemini_json_body(model: Seq<char>, request: GenerationRequest) -> Seq<char> {
    "{\"input\":[{\"text\":"@ + json_quoted(request.prompt@) + ",\"type\":\"text\"}"@
        + gemini_image_entries(request.reference_images@) + "],\"model\":"@ + json_quoted(model)
        + ",\"response_format\":{\"aspect_ratio\":"@ + json_quoted(
        spec_ratio_text(request.aspect_ratio),
    ) + ",\"image_size\":"@ + json_quoted(
        if request.quality == GenerationQuality::High {
            "2K"@
        } else {
            "1K"@
        },
    ) + ",\"mime_type\":\"image/png\",\"type\":\"image\"}}"@
}

/// A request that carries one header.
pub open spec fn has_single_header(request: HttpRequest, name: Seq<char>, value: Seq<char>) -> bool {
    request.headers.len() == 1 && request.headers@[0].0@ == name && request.headers@[0].1@ == value
}

fn push_quality(s: &mut String, q: GenerationQuality)
    ensures
        final(s)@ == old(s)@ + spec_quality_text(q),
{
    push_str(s, q.as_str());
}

fn push_text_part(s: &mut String, name: &str, value: &str)
    ensures
        final(s)@ == old(s)@ + text_part(name@, value@),
{
    proof {
        reveal_strlit("--");
        reveal_strlit("rastery-gpt-image-boundary");
        reveal_strlit("\r\nContent-Disposition: form-data; name=\"");
        reveal_strlit("\"\r\n\r\n");
        reveal_strlit("\r\n");
    }
    push_str(s, "--");
    push_str(s, "rastery-gpt-image-boundary");
    push_str(s, "\r\nContent-Disposition: form-data; name=\"");
    push_str(s, name);
    push_str(s, "\"\r\n\r\n");
    push_str(s, value);
    push_str(s, "\r\n");
    assert(s@ =~= old(s)@ + text_part(name@, value@));
}

/// The body of an OpenAI edit request.
pub fn openai_multipart(model: &str, request: &GenerationRequest) -> (body: Vec<u8>)
    ensures
        body@ == openai_multipart_body(model@, *request),
{
    proof {
        reveal_strlit("model");
        reveal_strlit("prompt");
        reveal_strlit("size");
        reveal_strlit("quality");
        reveal_strlit("n");
        reveal_strlit("output_format");
        reveal_strlit("png");
    }
    let mut fields = String::new();
    push_text_part(&mut fields, "model", model);
    push_text_part(&mut fields, "prompt", request.prompt.as_str());
    push_text_part(&mut fields, "size", request.aspect_ratio.openai_size());
    push_text_part(&mut fields, "quality", request.quality.as_str());
    let mut count = String::new();
    push_decimal(&mut count, request.count as u64);
    push_text_part(&mut fields, "n", count.as_str());
    push_text_part(&mut fields, "output_format", "png");
    assert(fields@ =~= openai_text_fields(model@, *request));
    let mut body: Vec<u8> = Vec::new();
    append_utf8(&mut body, fields.as_str());
    let ghost head = body@;
    proof {
        reveal_strlit("--");
        reveal_strlit("rastery-gpt-image-boundary");
        reveal_strlit("\r\nContent-Disposition: form-data; name=\"image[]\"; filename=\"reference-");
        reveal_strlit(".png\"\r\nContent-Type: ");
        reveal_strlit("\r\n\r\n");
        reveal_strlit("\r\n");
    }
    let mut i: usize = 0;
    assert(request.reference_images@.take(0) =~= Seq::<ImageInput>::empty());
    while i < request.reference_images.len()
        invariant
            i <= request.reference_images.len(),
            body@ == head + reference_parts(request.reference_images@.take(i as int)),
        decreases request.reference_images.len() - i,
    {
        let image = &request.reference_images[i];
        let mut part = String::from_str("--");
        push_str(&mut part, "rastery-gpt-image-boundary");
        push_str(&mut part, "\r\nContent-Disposition: form-data; name=\"image[]\"; filename=\"reference-");
        push_decimal(&mut part, i as u64);
        push_str(&mut part, ".png\"\r\nContent-Type: ");
        push_str(&mut part, image.mime_type.as_str());
        push_str(&mut part, "\r\n\r\n");
        assert(part@ =~= reference_head(i as nat, image.mime_type@));
        append_utf8(&mut body, part.as_str());
        append_bytes(&mut body, image.bytes.as_slice());
        append_utf8(&mut body, "\r\n");
        proof {
            let t = request.reference_images@.take(i + 1);
            assert(t.drop_last() =~= request.reference_images@.take(i as int));
            assert(t.last() == *image);
            assert(body@ =~= head + reference_parts(t));
        }
        i = i + 1;
    }
    assert(request.reference_images@.take(i as int) =~= request.reference_images@);
    match &request.mask {
        Some(mask) => {
            proof {
                reveal_strlit("\r\nContent-Disposition: form-data; name=\"mask\"; filename=\"mask.png\"\r\nContent-Type: ");
            }
            let mut part = String::from_str("--");
            push_str(&mut part, "rastery-gpt-image-boundary");
            push_str(&mut part, "\r\nContent-Disposition: form-data; name=\"mask\"; filename=\"mask.png\"\r\nContent-Type: ");
            push_str(&mut part, mask.mime_type.as_str());
            push_str(&mut part, "\r\n\r\n");
            assert(part@ =~= mask_head(mask.mime_type@));
            append_utf8(&mut body, part.as_str());
            append_bytes(&mut body, mask.bytes.as_slice());
            append_utf8(&mut body, "\r\n");
        },
        None => {},
    }
    let ghost before_tail = body@;
    proof {
        reveal_strlit("--\r\n");
    }
    let mut tail = String::from_str("--");
    push_str(&mut tail, "rastery-gpt-image-boundary");
    push_str(&mut tail, "--\r\n");
    append_utf8(&mut body, tail.as_str());
    assert(tail@ =~= "--"@ + boundary() + "--\r\n"@);
    assert(body@ =~= openai_multipart_body(model@, *request));
    body
}

/// The JSON body of an OpenAI text-to-image request.
pub fn openai_json(model: &str, request: &GenerationRequest) -> (body: String)
    ensures
        body@ == openai_json_body(model@, *request),
{
    proof {
        reveal_strlit("{\"model\":");
        reveal_strlit(",\"n\":");
        reveal_strlit(",\"output_format\":\"png\",\"prompt\":");
        reveal_strlit(",\"quality\":");
        reveal_strlit(",\"size\":");
        reveal_strlit("}");
    }
    let mut body = String::from_str("{\"model\":");
    push_json_string(&mut body, model);
    push_str(&mut body, ",\"n\":");
    push_decimal(&mut body, request.count as u64);
    push_str(&mut body, ",\"output_format\":\"png\",\"prompt\":");
    push_json_string(&mut body, request.prompt.as_str());
    push_str(&mut body, ",\"quality\":");
    push_json_string(&mut body, request.quality.as_str());
    push_str(&mut body, ",\"size\":");
    push_json_string(&mut body, request.aspect_ratio.openai_size());
    push_str(&mut body, "}");
    assert(body@ =~= openai_json_body(model@, *request));
    body
}

fn data_url_of(image: &ImageInput) -> (url: String)
    ensures
        url@ == data_url(*image),
{
    proof {
        reveal_strlit("data:");
        reveal_strlit(";base64,");
    }
    let mut url = String::from_str("data:");
    push_str(&mut url, image.mime_type.as_str());
    push_str(&mut url, ";base64,");
    let encoded = base64_encode(image.bytes.as_slice());
    push_str(&mut url, encoded.as_str());
    assert(url@ =~= data_url(*image));
    url
}

/// The JSON body of a Seedream request.
pub fn seedream_json(model: &str, request: &GenerationRequest) -> (body: String)
    ensures
        body@ == seedream_json_body(model@, *request),
{
    proof {
        reveal_strlit("{");
        reveal_strlit("\"image\":");
        reveal_strlit("\"image\":[");
        reveal_strlit(",");
        reveal_strlit("],");
        reveal_strlit("\"model\":");
        reveal_strlit(",\"output_format\":\"png\",\"prompt\":");
        reveal_strlit(",\"response_format\":\"b64_json\",\"size\":");
        reveal_strlit(",\"watermark\":false}");
    }
    let images = &request.reference_images;
    let mut body = String::from_str("{");
    let n = images.len();
    if n > 0 {
        if n == 1 {
            push_str(&mut body, "\"image\":");
        } else {
            push_str(&mut body, "\"image\":[");
        }
        let ghost start = body@;
        let mut i: usize = 0;
        while i < n
            invariant
                n == images.len(),
                n > 0,
                i <= n,
                body@ == start + data_url_list(images@.take(i as int)),
            decreases n - i,
        {
            let url = data_url_of(&images[i]);
            if i > 0 {
                push_str(&mut body, ",");
            }
            push_json_string(&mut body, url.as_str());
            proof {
                let t = images@.take(i + 1);
                assert(t.drop_last() =~= images@.take(i as int));
                assert(t.last() == images@[i as int]);
                if i == 0 {
                    assert(t[0] == images@[0]);
                    assert(images@.take(0) =~= Seq::<ImageInput>::empty());
                }
                assert(body@ =~= start + data_url_list(t));
            }
            i = i + 1;
        }
        assert(images@.take(i as int) =~= images@);
        if n == 1 {
            push_str(&mut body, ",");
        } else {
            push_str(&mut body, "],");
        }
    }
    push_str(&mut body, "\"model\":");
    push_json_string(&mut body, model);
    push_str(&mut body, ",\"output_format\":\"png\",\"prompt\":");
    push_json_string(&mut body, request.prompt.as_str());
    push_str(&mut body, ",\"response_format\":\"b64_json\",\"size\":");
    push_json_string(&mut body, request.aspect_ratio.seedream_size());
    push_str(&mut body, ",\"watermark\":false}");
    assert(body@ =~= seedream_json_body(model@, *request));
    body
}

/// The JSON body of a Gemini interaction request.
pub fn gemini_json(model: &str, request: &GenerationRequest) -> (body: String)
    ensures
        body@ == gemini_json_body(model@, *request),
{
    proof {
        reveal_strlit("{\"input\":[{\"text\":");
        reveal_strlit(",\"type\":\"text\"}");
        reveal_strlit(",{\"data\":");
        reveal_strlit(",\"mime_type\":");
        reveal_strlit(",\"type\":\"image\"}");
        reveal_strlit("],\"model\":");
        reveal_strlit(",\"response_format\":{\"aspect_ratio\":");
        reveal_strlit(",\"image_size\":");
        reveal_strlit("2K");
        reveal_strlit("1K");
        reveal_strlit(",\"mime_type\":\"image/png\",\"type\":\"image\"}}");
    }
    let images = &request.reference_images;
    let mut body = String::from_str("{\"input\":[{\"text\":");
    push_json_string(&mut body, request.prompt.as_str());
    push_str(&mut body, ",\"type\":\"text\"}");
    let ghost start = body@;
    let mut i: usize = 0;
    assert(images@.take(0) =~= Seq::<ImageInput>::empty());
    while i < images.len()
        invariant
            i <= images.len(),
            body@ == start + gemini_image_entries(images@.take(i as int)),
        decreases images.len() - i,
    {
        let encoded = base64_encode(images[i].bytes.as_slice());
        push_str(&mut body, ",{\"data\":");
        push_json_string(&mut body, encoded.as_str());
        push_str(&mut body, ",\"mime_type\":");
        push_json_string(&mut body, images[i].mime_type.as_str());
        push_str(&mut body, ",\"type\":\"image\"}");
        proof {
            let t = images@.take(i + 1);
            assert(t.drop_last() =~= images@.take(i as int));
            assert(t.last() == images@[i as int]);
            assert(body@ =~= start + gemini_image_entries(t));
        }
        i = i + 1;
    }
    assert(images@.take(i as int) =~= images@);
    push_str(&mut body, "],\"model\":");
    push_json_string(&mut body, model);
    push_str(&mut body, ",\"response_format\":{\"aspect_ratio\":");
    push_json_string(&mut body, request.aspect_ratio.as_str());
    push_str(&mut body, ",\"image_size\":");
    if request.quality == GenerationQuality::High {
        push_json_string(&mut body, "2K");
    } else {
        push_json_string(&mut body, "1K");
    }
    push_str(&mut body, ",\"mime_type\":\"image/png\",\"type\":\"image\"}}");
    assert(body@ =~= gemini_json_body(model@, *request));
    body
}

fn bearer(api_key: &ApiKey) -> (header: (String, String))
    ensures
        header.0@ == "Authorization"@,
        header.1@ == "Bearer "@ + api_key.secret(),
{
    proof {
        reveal_strlit("Authorization");
        reveal_strlit("Bearer ");
    }
    let mut value = String::from_str("Bearer ");
    push_str(&mut value, api_key.expose());
    (String::from_str("Authorization"), value)
}

/// What `generate` may return for `request` under `caps`: the validation error when the
/// request is refused; otherwise a network failure or the reading of some response.
pub open spec fn is_generation_outcome(
    r: Result<GenerationResult, AiError>,
    caps: ProviderCapabilities,
    request: GenerationRequest,
    provider: ProviderId,
) -> bool {
    if !is_valid_request(caps, request) {
        r matches Err(e) && is_validation_outcome(Err(e), caps, request)
    } else {
        (r matches Err(AiError::Network)) || exists|response: HttpResponse|
            is_interpreted(
                r,
                provider,
                response,
                if provider == ProviderId::NanoBanana {
                    gemini_response_images(response.body@)
                } else {
                    data_response_images(response.body@)
                },
            )
    }
}

/// OpenAI image generation (`gpt-image-2`): JSON for text-to-image, multipart edits when
/// reference images or a mask are given.
pub struct OpenAiProvider<T: HttpTransport> {
    transport: Arc<T>,
    generation_endpoint: String,
    edit_endpoint: String,
    model: String,
}

impl<T: HttpTransport> OpenAiProvider<T> {
    /// The model asked for.
    pub closed spec fn spec_model(&self) -> Seq<char> {
        self.model@
    }

    /// The text-to-image endpoint.
    pub closed spec fn spec_generation_endpoint(&self) -> Seq<char> {
        self.generation_endpoint@
    }

    /// The edit endpoint.
    pub closed spec fn spec_edit_endpoint(&self) -> Seq<char> {
        self.edit_endpoint@
    }

    /// An adapter that sends its requests through `transport`.
    pub fn new(transport: Arc<T>) -> (p: Self)
        ensures
            p.spec_model() == "gpt-image-2"@,
            p.spec_generation_endpoint() == "https://api.openai.com/v1/images/generations"@,
            p.spec_edit_endpoint() == "https://api.openai.com/v1/images/edits"@,
    {
        OpenAiProvider {
            transport,
            generation_endpoint: String::from_str("https://api.openai.com/v1/images/generations"),
            edit_endpoint: String::from_str("https://api.openai.com/v1/images/edits"),
            model: String::from_str("gpt-image-2"),
        }
    }

    /// The HTTP request for `request`: JSON to the generation endpoint for text alone,
    /// multipart to the edit endpoint otherwise; the key goes in a bearer header.
    pub fn build_request(&self, request: &GenerationRequest, api_key: &ApiKey) -> (http: HttpRequest)
        ensures
            http.method@ == "POST"@,
            has_single_header(http, "Authorization"@, "Bearer "@ + api_key.secret()),
            request.reference_images.len() == 0 && request.mask is None ==> {
                &&& http.url@ == self.spec_generation_endpoint()
                &&& http.content_type@ == "application/json"@
                &&& http.body@ == vstd::utf8::encode_utf8(openai_json_body(self.spec_model(), *request))
            },
            !(request.reference_images.len() == 0 && request.mask is None) ==> {
                &&& http.url@ == self.spec_edit_endpoint()
                &&& http.content_type@ == "multipart/form-data; boundary="@ + boundary()
                &&& http.body@ == openai_multipart_body(self.spec_model(), *request)
            },
    {
        proof {
            reveal_strlit("POST");
            reveal_strlit("application/json");
            reveal_strlit("multipart/form-data; boundary=");
            reveal_strlit("rastery-gpt-image-boundary");
        }
        let header = bearer(api_key);
        let mut headers: Vec<(String, String)> = Vec::new();
        headers.push(header);
        if request.reference_images.len() == 0 && request.mask.is_none() {
            let json = openai_json(self.model.as_str(), request);
            let mut body: Vec<u8> = Vec::new();
            append_utf8(&mut body, json.as_str());
            assert(body@ =~= vstd::utf8::encode_utf8(json@));
            HttpRequest {
                method: "POST",
                url: self.generation_endpoint.clone(),
                headers,
                content_type: String::from_str("application/json"),
                body,
            }
        } else {
            let body = openai_multipart(self.model.as_str(), request);
            let mut content_type = String::from_str("multipart/form-data; boundary=");
            push_str(&mut content_type, "rastery-gpt-image-boundary");
            HttpRequest { method: "POST", url: self.edit_endpoint.clone(), headers, content_type, body }
        }
    }
}

/// The capabilities OpenAI declares.
pub open spec fn openai_capabilities(c: ProviderCapabilities) -> bool {
    &&& c.max_reference_images == 4
    &&& c.supported_aspect_ratios@ == spec_common_ratios()
    &&& c.max_generation_count == 10
    &&& c.text_to_image
    &&& c.image_to_image
    &&& c.region_edit
    &&& c.max_input_image_bytes == 50 * 1024 * 1024
}

impl<T: HttpTransport> Provider for OpenAiProvider<T> {
    open spec fn spec_id(&self) -> ProviderId {
        ProviderId::OpenAi
    }

    open spec fn reports_capabilities(&self, c: ProviderCapabilities) -> bool {
        openai_capabilities(c)
    }

    open spec fn generation_outcome(&self, request: GenerationRequest, r: Result<GenerationResult, AiError>) -> bool {
        forall|c: ProviderCapabilities| openai_capabilities(c) ==> is_generation_outcome(r, c, request, ProviderId::OpenAi)
    }

    fn id(&self) -> (id: ProviderId)
        ensures
            id == ProviderId::OpenAi,
    {
        ProviderId::OpenAi
    }

    fn capabilities(&self) -> (c: ProviderCapabilities)
        ensures
            openai_capabilities(c),
    {
        ProviderCapabilities {
            max_reference_images: 4,
            supported_aspect_ratios: AspectRatio::common(),
            max_generation_count: 10,
            text_to_image: true,
            image_to_image: true,
            region_edit: true,
            max_input_image_bytes: 50 * 1024 * 1024,
        }
    }

    fn generate(&self, request: &GenerationRequest, api_key: &ApiKey) -> (r: Result<
        GenerationResult,
        AiError,
    >)
        ensures
            forall|c: ProviderCapabilities|
                openai_capabilities(c) ==> is_generation_outcome(r, c, *request, ProviderId::OpenAi),
    {
        let caps = self.capabilities();
        match caps.validate(request) {
            Ok(()) => {},
            Err(e) => {
                return Err(e);
            },
        }
        let http = self.build_request(request, api_key);
        let response = match self.transport.execute(http) {
            Ok(response) => response,
            Err(_) => {
                return Err(AiError::Network);
            },
        };
        let ghost seen = response;
        let result = read_data_response(ProviderId::OpenAi, response);
        assert(is_interpreted(result, ProviderId::OpenAi, seen, data_response_images(seen.body@)));
        result
    }
}

/// Seedream image generation: one JSON request, reference images as data URLs.
pub struct SeedreamProvider<T: HttpTransport> {
    transport: Arc<T>,
    endpoint: String,
    model: String,
}

impl<T: HttpTransport> SeedreamProvider<T> {
    /// The model asked for.
    pub closed spec fn spec_model(&self) -> Seq<char> {
        self.model@
    }

    /// The endpoint.
    pub closed spec fn spec_endpoint(&self) -> Seq<char> {
        self.endpoint@
    }

    /// An adapter that sends its requests through `transport`.
    pub fn new(transport: Arc<T>) -> (p: Self)
        ensures
            p.spec_model() == "dola-seedream-5-0-pro-260628"@,
            p.spec_endpoint() == "https://ark.ap-southeast.bytepluses.com/api/v3/images/generations"@,
    {
        SeedreamProvider {
            transport,
            endpoint: String::from_str(
                "https://ark.ap-southeast.bytepluses.com/api/v3/images/generations",
            ),
            model: String::from_str("dola-seedream-5-0-pro-260628"),
        }
    }

    /// The HTTP request for `request`.
    pub fn build_request(&self, request: &GenerationRequest, api_key: &ApiKey) -> (http: HttpRequest)
        ensures
            http.method@ == "POST"@,
            http.url@ == self.spec_endpoint(),
            http.content_type@ == "application/json"@,
            has_single_header(http, "Authorization"@, "Bearer "@ + api_key.secret()),
            http.body@ == vstd::utf8::encode_utf8(seedream_json_body(self.spec_model(), *request)),
    {
        proof {
            reveal_strlit("POST");
            reveal_strlit("application/json");
        }
        let mut headers: Vec<(String, String)> = Vec::new();
        headers.push(bearer(api_key));
        let json = seedream_json(self.model.as_str(), request);
        let mut body: Vec<u8> = Vec::new();
        append_utf8(&mut body, json.as_str());
        assert(body@ =~= vstd::utf8::encode_utf8(json@));
        HttpRequest {
            method: "POST",
            url: self.endpoint.clone(),
            headers,
            content_type: String::from_str("application/json"),
            body,
        }
    }
}

/// The capabilities Seedream declares.
pub open spec fn seedream_capabilities(c: ProviderCapabilities) -> bool {
    &&& c.max_reference_images == 10
    &&& c.supported_aspect_ratios@ == spec_common_ratios()
    &&& c.max_generation_count == 1
    &&& c.text_to_image
    &&& c.image_to_image
    &&& !c.region_edit
    &&& c.max_input_image_bytes == 30 * 1024 * 1024
}

impl<T: HttpTransport> Provider for SeedreamProvider<T> {
    open spec fn spec_id(&self) -> ProviderId {
        ProviderId::Seedream
    }

    open spec fn reports_capabilities(&self, c: ProviderCapabilities) -> bool {
        seedream_capabilities(c)
    }

    open spec fn generation_outcome(&self, request: GenerationRequest, r: Result<GenerationResult, AiError>) -> bool {
        forall|c: ProviderCapabilities| seedream_capabilities(c) ==> is_generation_outcome(r, c, request, ProviderId::Seedream)
    }

    fn id(&self) -> (id: ProviderId)
        ensures
            id == ProviderId::Seedream,
    {
        ProviderId::Seedream
    }

    fn capabilities(&self) -> (c: ProviderCapabilities)
        ensures
            seedream_capabilities(c),
    {
        ProviderCapabilities {
            max_reference_images: 10,
            supported_aspect_ratios: AspectRatio::common(),
            max_generation_count: 1,
            text_to_image: true,
            image_to_image: true,
            region_edit: false,
            max_input_image_bytes: 30 * 1024 * 1024,
        }
    }

    fn generate(&self, request: &GenerationRequest, api_key: &ApiKey) -> (r: Result<
        GenerationResult,
        AiError,
    >)
        ensures
            forall|c: ProviderCapabilities|
                seedream_capabilities(c) ==> is_generation_outcome(r, c, *request, ProviderId::Seedream),
    {
        let caps = self.capabilities();
        match caps.validate(request) {
            Ok(()) => {},
            Err(e) => {
                return Err(e);
            },
        }
        let http = self.build_request(request, api_key);
        let response = match self.transport.execute(http) {
            Ok(response) => response,
            Err(_) => {
                return Err(AiError::Network);
            },
        };
        let ghost seen = response;
        let result = read_data_response(ProviderId::Seedream, response);
        assert(is_interpreted(result, ProviderId::Seedream, seen, data_response_images(seen.body@)));
        result
    }
}

/// Gemini ("Nano Banana") image generation through the interactions endpoint.
pub struct GeminiProvider<T: HttpTransport> {
    transport: Arc<T>,
    endpoint: String,
    model: String,
}

impl<T: HttpTransport> GeminiProvider<T> {
    /// The model asked for.
    pub closed spec fn spec_model(&self) -> Seq<char> {
        self.model@
    }

    /// The endpoint.
    pub closed spec fn spec_endpoint(&self) -> Seq<char> {
        self.endpoint@
    }

    /// An adapter that sends its requests through `transport`.
    pub fn new(transport: Arc<T>) -> (p: Self)
        ensures
            p.spec_model() == "gemini-3.1-flash-image"@,
            p.spec_endpoint() == "https://generativelanguage.googleapis.com/v1beta/interactions"@,
    {
        GeminiProvider {
            transport,
            endpoint: String::from_str("https://generativelanguage.googleapis.com/v1beta/interactions"),
            model: String::from_str("gemini-3.1-flash-image"),
        }
    }

    /// The HTTP request for `request`; the key goes in the `x-goog-api-key` header.
    pub fn build_request(&self, request: &GenerationRequest, api_key: &ApiKey) -> (http: HttpRequest)
        ensures
            http.method@ == "POST"@,
            http.url@ == self.spec_endpoint(),
            http.content_type@ == "application/json"@,
            has_single_header(http, "x-goog-api-key"@, api_key.secret()),
            http.body@ == vstd::utf8::encode_utf8(gemini_json_body(self.spec_model(), *request)),
    {
        proof {
            reveal_strlit("POST");
            reveal_strlit("application/json");
            reveal_strlit("x-goog-api-key");
        }
        let mut headers: Vec<(String, String)> = Vec::new();
        headers.push((String::from_str("x-goog-api-key"), api_key.expose().to_owned()));
        let json = gemini_json(self.model.as_str(), request);
        let mut body: Vec<u8> = Vec::new();
        append_utf8(&mut body, json.as_str());
        assert(body@ =~= vstd::utf8::encode_utf8(json@));
        HttpRequest {
            method: "POST",
            url: self.endpoint.clone(),
            headers,
            content_type: String::from_str("application/json"),
            body,
        }
    }
}

/// The capabilities Gemini declares.
pub open spec fn gemini_capabilities(c: ProviderCapabilities) -> bool {
    &&& c.max_reference_images == 14
    &&& c.supported_aspect_ratios@ == spec_common_ratios()
    &&& c.max_generation_count == 1
    &&& c.text_to_image
    &&& c.image_to_image
    &&& !c.region_edit
    &&& c.max_input_image_bytes == 20 * 1024 * 1024
}

impl<T: HttpTransport> Provider for GeminiProvider<T> {
    open spec fn spec_id(&self) -> ProviderId {
        ProviderId::NanoBanana
    }

    open spec fn reports_capabilities(&self, c: ProviderCapabilities) -> bool {
        gemini_capabilities(c)
    }

    open spec fn generation_outcome(&self, request: GenerationRequest, r: Result<GenerationResult, AiError>) -> bool {
        forall|c: ProviderCapabilities| gemini_capabilities(c) ==> is_generation_outcome(r, c, request, ProviderId::NanoBanana)
    }

    fn id(&self) -> (id: ProviderId)
        ensures
            id == ProviderId::NanoBanana,
    {
        ProviderId::NanoBanana
    }

    fn capabilities(&self) -> (c: ProviderCapabilities)
        ensures
            gemini_capabilities(c),
    {
        ProviderCapabilities {
            max_reference_images: 14,
            supported_aspect_ratios: AspectRatio::common(),
            max_generation_count: 1,
            text_to_image: true,
            image_to_image: true,
            region_edit: false,
            max_input_image_bytes: 20 * 1024 * 1024,
        }
    }

    fn generate(&self, request: &GenerationRequest, api_key: &ApiKey) -> (r: Result<
        GenerationResult,
        AiError,
    >)
        ensures
            forall|c: ProviderCapabilities|
                gemini_capabilities(c) ==> is_generation_outcome(r, c, *request, ProviderId::NanoBanana),
    {
        let caps = self.capabilities();
        match caps.validate(request) {
            Ok(()) => {},
            Err(e) => {
                return Err(e);
            },
        }
        let http = self.build_request(request, api_key);
        let response = match self.transport.execute(http) {
            Ok(response) => response,
            Err(_) => {
                return Err(AiError::Network);
            },
        };
        let ghost seen = response;
        let result = read_gemini_response(response);
        assert(is_interpreted(result, ProviderId::NanoBanana, seen, gemini_response_images(seen.body@)));
        result
    }
}

} // verus!
