//! A SAML 2.0 identity provider: request decoding, attribute resolution,
//! response assembly, the HTTP-POST binding, metadata and key-material rules.
pub mod assembler;
pub mod attributes;
pub mod binding;
pub mod codec;
pub mod decoder;
pub mod http;
pub mod identity;
pub mod metadata;
pub mod models;
pub mod sso;
