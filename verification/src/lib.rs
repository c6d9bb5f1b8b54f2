//! Client-side credential primitives for a mobile-money HTTP API.
//!
//! The crate covers the authentication subsystem of such a client: pulling a
//! bearer token out of the authentication endpoint's response, and producing
//! the encrypted "security credential" that authorizes sensitive transactions
//! (the client secret encrypted under the platform's X.509 certificate with
//! RSA PKCS#1 v1.5 padding, then base64-encoded).
//!
//! The network request itself is left to the caller: the library builds the
//! request URL and interprets the outcome of the request, so that everything
//! but the socket work is verified.

mod client;
mod crypto;
mod environment;
mod errors;
mod token;

pub use client::HttpOutcome;
pub use client::Mpesa;
pub use client::token_from_response;
pub use crypto::MAX_ENCRYPTION_INPUT_LEN;
pub use crypto::SecurityCredentialEncoder;
pub use crypto::base64_of;
pub use crypto::x509_has_public_key;
pub use crypto::x509_key_is_rsa;
pub use crypto::x509_modulus_bytes;
pub use crypto::x509_parses;
pub use crypto::yields_rsa_key;
pub use environment::Environment;
pub use errors::AuthError;
pub use errors::CredentialError;
pub use token::TokenExtractor;
pub use token::TokenResponse;
pub use token::extract_auth_token;
