//! Image generation through hosted AI providers: request rules, provider adapters,
//! response handling and credential storage.

pub mod error;
pub mod types;
pub mod transport;
pub mod json;
pub mod shared;
pub mod credentials;
pub mod providers;
pub mod adapters;
pub mod registry;
