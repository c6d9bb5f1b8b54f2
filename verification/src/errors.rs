use vstd::prelude::*;

verus! {

/// Why bearer-token acquisition failed.
///
/// The variants are a closed set so that a caller can branch on them: a
/// `Transport` failure may be worth retrying, while the others mean the
/// response had an unexpected shape.
#[derive(Debug, PartialEq, Eq)]
pub enum AuthError {
    /// The authentication endpoint could not be reached (connection refused,
    /// DNS failure, TLS failure, timeout).
    Transport,
    /// A response arrived but its body was not a JSON object of string fields.
    Decode,
    /// The response parsed as an object but lacked the expected token field;
    /// carries the name of the field that was looked up.
    MissingToken(String),
}

/// Why security-credential generation failed.
///
/// The first three variants indicate a configuration defect in the supplied
/// certificate; `EncryptionFailed` covers inputs the cryptographic operation
/// itself rejects, such as a plaintext too long for the key's modulus.
#[derive(Debug, Clone, Copy, PartialEq, Eq, Structural)]
pub enum CredentialError {
    /// The supplied bytes do not parse as a PEM-encoded X.509 certificate.
    InvalidCertificate,
    /// The certificate parsed but no public key could be extracted from it.
    InvalidPublicKey,
    /// The certificate's public key is not an RSA key.
    NotRsaKey,
    /// The RSA encryption itself was refused, e.g. the plaintext exceeds the
    /// maximum the key size and PKCS#1 v1.5 padding admit.
    EncryptionFailed,
}

} // verus!
