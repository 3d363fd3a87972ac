//! Verified core of a TLS-terminating web service.
//!
//! The heart of the crate is [`util_https`]: a model of the connection
//! dispatcher that accepts raw transport connections, inspects the TLS
//! ClientHello, resolves certificate material, and either completes the
//! handshake or reports a failure on the still-unencrypted stream. The
//! remaining modules hold the small pieces of pure logic the service is
//! built from: token generation and encoding, UUID-timestamp arithmetic,
//! and the decisions of the user store.

pub mod app_internal;
pub mod http_to_https_redirect;
pub mod store_user;
pub mod util;
pub mod util_https;
pub mod util_session;
pub mod util_token;
pub mod util_uuid;
