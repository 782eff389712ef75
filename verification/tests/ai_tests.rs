use std::sync::{Arc, Mutex};

use impressy::ai::adapters::{GeminiProvider, OpenAiProvider, SeedreamProvider};
use impressy::ai::credentials::{CredentialStore, MemoryCredentialStore};
use impressy::ai::error::AiError;
use impressy::ai::shared::{finish, map_http_error};
use impressy::ai::transport::{check_request, HttpRequest, HttpResponse, HttpTransport, TransportError};
use impressy::ai::types::{
    ApiKey, AspectRatio, GenerationRequest, ImageInput, Provider, ProviderCapabilities,
    ProviderId,
};

struct RecordedRequest {
    url: String,
    content_type: String,
    headers: Vec<(String, String)>,
    body: Vec<u8>,
}

struct RecordingTransport {
    response: HttpResponse,
    request: Mutex<Option<RecordedRequest>>,
}

impl RecordingTransport {
    fn new(body: &str) -> Arc<Self> {
        Arc::new(Self {
            response: HttpResponse {
                status: 200,
                headers: vec![("x-request-id".into(), "req-test".into())],
                body: body.as_bytes().to_vec(),
            },
            request: Mutex::new(None),
        })
    }

    fn take(&self) -> RecordedRequest {
        self.request
            .lock()
            .expect("request lock")
            .take()
            .expect("request")
    }
}

impl HttpTransport for RecordingTransport {
    fn execute(&self, request: HttpRequest) -> Result<HttpResponse, TransportError> {
        *self.request.lock().map_err(|_| TransportError::Failed)? = Some(RecordedRequest {
            url: request.url,
            content_type: request.content_type,
            headers: request.headers,
            body: request.body,
        });
        Ok(self.response.clone())
    }
}

fn key() -> ApiKey {
    ApiKey::new("provider-secret").expect("key")
}

#[test]
fn memory_store_round_trip_and_delete() {
    let mut store = MemoryCredentialStore::new();
    let key = ApiKey::new("test-key").expect("key");
    store.set(ProviderId::OpenAi, &key).expect("set");
    assert_eq!(
        store.get(ProviderId::OpenAi).expect("get").display_text(),
        "[REDACTED]"
    );
    store.delete(ProviderId::OpenAi).expect("delete");
    assert!(matches!(
        store.get(ProviderId::OpenAi),
        Err(AiError::CredentialMissing)
    ));
}

#[test]
fn memory_store_keeps_each_provider_separate() {
    let mut store = MemoryCredentialStore::new();
    store.set(ProviderId::OpenAi, &ApiKey::new("a-key").expect("key")).expect("set");
    store.set(ProviderId::Seedream, &ApiKey::new("b-key").expect("key")).expect("set");
    store.delete(ProviderId::OpenAi).expect("delete");
    assert!(store.get(ProviderId::OpenAi).is_err());
    assert!(store.get(ProviderId::Seedream).is_ok());
    assert!(store.get(ProviderId::NanoBanana).is_err());
}

#[test]
fn successful_response_without_images_is_a_blocked_zero_image_result() {
    let response = HttpResponse {
        status: 200,
        headers: Vec::new(),
        body: Vec::new(),
    };
    assert!(matches!(
        finish(ProviderId::OpenAi, response, Vec::new()),
        Err(AiError::ContentBlocked)
    ));
}

#[test]
fn vendor_status_codes_map_to_stable_errors() {
    assert!(matches!(map_http_error(401, b"{}"), AiError::InvalidCredentials));
    assert!(matches!(map_http_error(429, b"{}"), AiError::RateLimited));
    assert!(matches!(map_http_error(503, b"{}"), AiError::ProviderUnavailable));
}

#[test]
fn api_key_debug_is_redacted() {
    let key = ApiKey::new("sk-secret-value").expect("key");
    assert_eq!(key.debug_text(), "ApiKey([REDACTED])");
    assert!(!key.debug_text().contains("secret-value"));
}

#[test]
fn blank_api_key_is_refused() {
    assert!(ApiKey::new("   ").is_err());
}

#[test]
fn capabilities_reject_unsupported_inputs() {
    let caps = ProviderCapabilities {
        max_reference_images: 0,
        supported_aspect_ratios: &[AspectRatio::Square],
        max_generation_count: 1,
        text_to_image: true,
        image_to_image: false,
        region_edit: false,
        max_input_image_bytes: 1,
    };
    let mut request = GenerationRequest::text("hello");
    request.count = 2;
    assert!(matches!(
        caps.validate(&request),
        Err(AiError::InvalidRequest(_))
    ));
}

#[test]
fn openai_uses_multipart_edits_for_reference_images() {
    let transport = RecordingTransport::new(r#"{"data":[{"b64_json":"aW1n"}]}"#);
    let provider = OpenAiProvider::new(transport.clone());
    let mut request = GenerationRequest::text("remove selected item");
    request.reference_images = vec![ImageInput::new(vec![1, 2, 3], "image/png").expect("image")];
    request.mask = Some(ImageInput::new(vec![4, 5, 6], "image/png").expect("mask"));

    let result = provider.generate(&request, &key()).expect("generation");
    assert_eq!(result.request_id.as_deref(), Some("req-test"));
    assert_eq!(result.images.len(), 1);
    assert_eq!(result.images[0].bytes, b"img".to_vec());
    let recorded = transport.take();
    assert!(recorded.url.ends_with("/v1/images/edits"));
    assert!(
        recorded
            .content_type
            .starts_with("multipart/form-data; boundary=")
    );
    let body = String::from_utf8_lossy(&recorded.body);
    assert!(body.contains("name=\"mask\""));
    assert!(body.contains("name=\"image[]\""));
    assert!(!body.contains("provider-secret"));
    assert!(recorded.headers.iter().any(|(name, _)| name == "Authorization"));
}

#[test]
fn capabilities_cover_dynamic_ui_constraints() {
    let seedream = SeedreamProvider::new(RecordingTransport::new("{}"));
    let gemini = GeminiProvider::new(RecordingTransport::new("{}"));
    let openai = OpenAiProvider::new(RecordingTransport::new("{}"));
    assert_eq!(seedream.capabilities().max_reference_images, 10);
    assert_eq!(gemini.capabilities().max_reference_images, 14);
    assert_eq!(openai.capabilities().max_generation_count, 10);
    assert!(openai.capabilities().region_edit);
    assert!(!seedream.capabilities().region_edit);
}

#[test]
fn maps_vendor_errors_to_stable_semantics() {
    assert!(matches!(
        map_http_error(401, br#"{"error":{"message":"invalid API key"}}"#),
        AiError::InvalidCredentials
    ));
    assert!(matches!(
        map_http_error(402, br#"{"error":{"message":"billing balance exhausted"}}"#),
        AiError::InsufficientBalance
    ));
    assert!(matches!(map_http_error(429, b"{}"), AiError::RateLimited));
    assert!(matches!(
        map_http_error(400, br#"{"error":{"message":"blocked by safety policy"}}"#),
        AiError::ContentBlocked
    ));
    assert!(matches!(map_http_error(503, b"{}"), AiError::ProviderUnavailable));
}

#[test]
fn transport_rejects_plain_http_before_io() {
    let request = HttpRequest {
        method: "POST",
        url: "http://example.invalid".into(),
        headers: Vec::new(),
        content_type: "application/json".into(),
        body: Vec::new(),
    };
    assert!(matches!(check_request(&request), Err(TransportError::InsecureEndpoint)));
    let get = HttpRequest { method: "GET", url: "https://example.invalid".into(), headers: Vec::new(), content_type: String::new(), body: Vec::new() };
    assert!(matches!(check_request(&get), Err(TransportError::Failed)));
    let post = HttpRequest { method: "POST", url: "https://example.invalid".into(), headers: Vec::new(), content_type: String::new(), body: Vec::new() };
    assert!(check_request(&post).is_ok());
}

#[test]
fn seedream_serializes_image_to_image_contract() {
    let transport = RecordingTransport::new(r#"{"data":[{"b64_json":"aW1n"}]}"#);
    let provider = SeedreamProvider::new(transport.clone());
    let mut request = GenerationRequest::text("preserve the subject");
    request.aspect_ratio = AspectRatio::PortraitThreeFour;
    request.reference_images = vec![ImageInput::new(vec![1, 2, 3], "image/png").expect("image")];

    let result = provider.generate(&request, &key()).expect("generation");
    assert_eq!(result.images[0].bytes, b"img".to_vec());
    let recorded = transport.take();
    assert!(recorded.url.starts_with("https://"));
    let json: serde_json::Value = serde_json::from_slice(&recorded.body).expect("JSON body");
    assert_eq!(json["size"], "864x1152");
    assert!(json["image"].as_str().is_some_and(|value| value.starts_with("data:image/png;base64,")));
    assert!(!String::from_utf8_lossy(&recorded.body).contains("provider-secret"));
}

#[test]
fn nano_banana_parses_interactions_image_blocks() {
    let transport = RecordingTransport::new(
        r#"{"steps":[{"type":"model_output","content":[{"type":"image","mime_type":"image/png","data":"aW1n"}]}]}"#,
    );
    let provider = GeminiProvider::new(transport.clone());
    let mut request = GenerationRequest::text("series illustration");
    request.aspect_ratio = AspectRatio::LandscapeSixteenNine;

    let result = provider.generate(&request, &key()).expect("generation");
    assert_eq!(result.images.len(), 1);
    let recorded = transport.take();
    assert_eq!(recorded.content_type, "application/json");
    let json: serde_json::Value = serde_json::from_slice(&recorded.body).expect("JSON body");
    assert_eq!(json["response_format"]["aspect_ratio"], "16:9");
    assert!(recorded.headers.iter().any(|(name, _)| name == "x-goog-api-key"));
}
