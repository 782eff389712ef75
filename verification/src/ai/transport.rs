//! The HTTP exchange a provider needs, as plain data, and the trait that performs it.

use vstd::prelude::*;

use crate::text::{chars_equal, chars_of, seq_starts_with, starts_with_str};

verus! {

/// An outgoing request. It has no debug form, so its authorization header cannot be
/// logged by accident.
pub struct HttpRequest {
    /// Always `POST`.
    pub method: &'static str,
    /// HTTPS endpoint.
    pub url: String,
    /// Extra headers, such as authorization.
    pub headers: Vec<(String, String)>,
    /// Body content type.
    pub content_type: String,
    /// Body bytes.
    pub body: Vec<u8>,
}

/// A received response.
#[derive(Debug, Clone)]
pub struct HttpResponse {
    /// HTTP status code.
    pub status: u16,
    /// Response headers.
    pub headers: Vec<(String, String)>,
    /// Body bytes.
    pub body: Vec<u8>,
}

/// Why an exchange failed before a response arrived.
#[derive(Debug, Clone, Copy, PartialEq, Eq, Structural)]
pub enum TransportError {
    /// The endpoint is not HTTPS.
    InsecureEndpoint,
    /// The exchange failed.
    Failed,
}

/// Whether a request may go out: refused as insecure unless its endpoint is HTTPS, and
/// refused as failed unless it is a `POST`. Transports check this before any I/O.
pub fn check_request(request: &HttpRequest) -> (checked: Result<(), TransportError>)
    ensures
        !seq_starts_with(request.url@, "https://"@) ==> checked == Err::<(), TransportError>(
            TransportError::InsecureEndpoint,
        ),
        seq_starts_with(request.url@, "https://"@) && request.method@ != "POST"@ ==> checked == Err::<
            (),
            TransportError,
        >(TransportError::Failed),
        seq_starts_with(request.url@, "https://"@) && request.method@ == "POST"@ ==> checked is Ok,
{
    if !starts_with_str(request.url.as_str(), "https://") {
        return Err(TransportError::InsecureEndpoint);
    }
    let method = chars_of(request.method);
    if !chars_equal(&method, "POST") {
        return Err(TransportError::Failed);
    }
    Ok(())
}

/// Performs one HTTP exchange; supplied by the application (a real network client) or by
/// tests (a recorder).
pub trait HttpTransport {
    /// Sends `request` and returns the response.
    fn execute(&self, request: HttpRequest) -> Result<HttpResponse, TransportError>;
}

} // verus!
