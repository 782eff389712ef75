//! Errors of AI generation, with stable meanings across providers.

use vstd::prelude::*;

verus! {

/// Why a generation request failed.
#[derive(Debug, Clone)]
pub enum AiError {
    /// No API key was given.
    ApiKeyRequired,
    /// The provider refused the key.
    InvalidCredentials,
    /// The account cannot pay for the request.
    InsufficientBalance,
    /// Too many requests.
    RateLimited,
    /// The content policy blocked the request or its result.
    ContentBlocked,
    /// The request did not reach the provider.
    Network,
    /// The provider is down or unknown.
    ProviderUnavailable,
    /// The provider's answer could not be understood.
    InvalidResponse,
    /// The request itself is wrong.
    InvalidRequest(String),
    /// The provider lacks a capability the request needs.
    UnsupportedCapability(&'static str),
    /// More reference images than the provider accepts.
    TooManyReferenceImages {
        /// Accepted maximum.
        maximum: u8,
        /// Number given.
        actual: usize,
    },
    /// An input image is larger than the provider accepts.
    ImageTooLarge {
        /// Accepted maximum, in bytes.
        maximum_bytes: usize,
    },
    /// The credential store could not be used.
    CredentialStore,
    /// No key is stored for the provider.
    CredentialMissing,
}

} // verus!
