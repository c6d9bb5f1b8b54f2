use vstd::prelude::*;
use vstd::string::StringExecFns;
use vstd::utf8::encode_utf8;

use crate::crypto::MAX_ENCRYPTION_INPUT_LEN;
use crate::crypto::SecurityCredentialEncoder;
use crate::crypto::base64_of;
use crate::crypto::x509_has_public_key;
use crate::crypto::x509_key_is_rsa;
use crate::crypto::x509_modulus_bytes;
use crate::crypto::x509_parses;
use crate::crypto::yields_rsa_key;
use crate::environment::Environment;
use crate::errors::AuthError;
use crate::errors::CredentialError;
use crate::token::TokenResponse;
use crate::token::extract_auth_token;

verus! {

/// Client for the platform API. It holds the client identity and the target
/// environment, both immutable once constructed, so repeated calls and
/// concurrent use share no mutable state.
#[derive(Debug)]
pub struct Mpesa {
    client_key: String,
    client_secret: String,
    environment: Environment,
}

/// What one authentication request produced, as seen at the HTTP boundary.
/// The unverified caller that performs the request reports its outcome in
/// this form and `token_from_response` interprets it.
pub enum HttpOutcome {
    /// The request itself failed: connection refused, DNS, TLS or timeout.
    TransportFailed,
    /// A response arrived but its body was not a JSON object of string fields.
    BodyNotJson,
    /// A response arrived and its body decoded as an object of string fields.
    Body(TokenResponse),
}

impl Mpesa {
    /// The client key this instance was constructed with.
    pub closed spec fn spec_client_key(&self) -> Seq<char> {
        self.client_key@
    }

    /// The client secret this instance was constructed with.
    pub closed spec fn spec_client_secret(&self) -> Seq<char> {
        self.client_secret@
    }

    /// The environment this instance was constructed with.
    pub closed spec fn spec_environment(&self) -> Environment {
        self.environment
    }

    /// Constructs a new client instance. Performs no I/O and no validation:
    /// an empty key or secret is sent as-is on the first request and rejected
    /// by the remote server, not refused locally.
    pub fn new(client_key: String, client_secret: String, environment: Environment) -> (r: Mpesa)
        ensures
            r.spec_client_key() == client_key@,
            r.spec_client_secret() == client_secret@,
            r.spec_environment() == environment,
    {
        Mpesa { client_key, client_secret, environment }
    }

    /// The client key, for the caller that performs the HTTP request.
    pub fn client_key(&self) -> (r: &String)
        ensures
            r@ == self.spec_client_key(),
    {
        &self.client_key
    }

    /// The client secret, for the caller that performs the HTTP request.
    pub fn client_secret(&self) -> (r: &String)
        ensures
            r@ == self.spec_client_secret(),
    {
        &self.client_secret
    }

    /// The environment this client targets.
    pub fn environment(&self) -> (r: Environment)
        ensures
            r == self.spec_environment(),
    {
        self.environment
    }

    /// The URL of the token endpoint for this client's environment: the
    /// environment's base URL followed by the oauth path and the
    /// client-credentials grant type.
    pub fn auth_url(&self) -> (r: String)
        ensures
            r@ == self.spec_environment().spec_base_url()
                + "/oauth/v1/generate?grant_type=client_credentials"@,
    {
        let base: String = self.environment.base_url().to_owned();
        base.concat("/oauth/v1/generate?grant_type=client_credentials")
    }

    /// Generates the security credential: the client secret encrypted under
    /// the supplied certificate's RSA public key with PKCS#1 v1.5 padding,
    /// base64-encoded. A pure local computation, recomputed on every call;
    /// the certificate text is configuration that the caller supplies for the
    /// chosen environment.
    pub fn get_security_credentials(&self, certificate_pem: &[u8]) -> (r: Result<
        String,
        CredentialError,
    >)
        requires
            certificate_pem@.len() <= MAX_ENCRYPTION_INPUT_LEN,
        ensures
            r == Err::<String, CredentialError>(CredentialError::InvalidCertificate)
                <==> !x509_parses(certificate_pem@),
            r == Err::<String, CredentialError>(CredentialError::InvalidPublicKey) <==> (
            x509_parses(certificate_pem@) && !x509_has_public_key(certificate_pem@)),
            r == Err::<String, CredentialError>(CredentialError::NotRsaKey) <==> (x509_parses(
                certificate_pem@,
            ) && x509_has_public_key(certificate_pem@) && !x509_key_is_rsa(certificate_pem@)),
            yields_rsa_key(certificate_pem@) && encode_utf8(self.spec_client_secret()).len() + 11
                > x509_modulus_bytes(certificate_pem@) ==> r == Err::<String, CredentialError>(
                CredentialError::EncryptionFailed,
            ),
            yields_rsa_key(certificate_pem@) && encode_utf8(self.spec_client_secret()).len() + 11
                <= x509_modulus_bytes(certificate_pem@) ==> (r is Ok || r == Err::<
                String,
                CredentialError,
            >(CredentialError::EncryptionFailed)),
            r is Ok ==> yields_rsa_key(certificate_pem@) && encode_utf8(
                self.spec_client_secret(),
            ).len() + 11 <= x509_modulus_bytes(certificate_pem@),
            r matches Ok(credential) ==> exists|ct: Seq<u8>|
                credential@ == #[trigger] base64_of(ct) && ct.len() == x509_modulus_bytes(
                    certificate_pem@,
                ) && encode_utf8(self.spec_client_secret()).len() + 11 <= ct.len()
                    && credential@.len() == 4 * ((ct.len() + 2) / 3),
    {
        SecurityCredentialEncoder::encode(certificate_pem, self.client_secret.as_str().as_bytes())
    }
}

/// Maps the outcome of one authentication request to the bearer token or to
/// the error the caller can branch on: a transport failure keeps its
/// identity, an undecodable body is a `Decode` failure, and a decoded body
/// yields its `access_token` field or `MissingToken`.
pub fn token_from_response(outcome: &HttpOutcome) -> (r: Result<String, AuthError>)
    ensures
        outcome matches HttpOutcome::TransportFailed ==> r == Err::<String, AuthError>(
            AuthError::Transport,
        ),
        outcome matches HttpOutcome::BodyNotJson ==> r == Err::<String, AuthError>(
            AuthError::Decode,
        ),
        outcome matches HttpOutcome::Body(resp) ==> (resp@.contains_key("access_token"@) ==> (
        r matches Ok(t) && t@ == resp@["access_token"@])),
        outcome matches HttpOutcome::Body(resp) ==> (!resp@.contains_key("access_token"@) ==> (
        r matches Err(e) && e matches AuthError::MissingToken(k) && k@ == "access_token"@)),
{
    match outcome {
        HttpOutcome::TransportFailed => Err(AuthError::Transport),
        HttpOutcome::BodyNotJson => Err(AuthError::Decode),
        HttpOutcome::Body(resp) => extract_auth_token(resp),
    }
}

} // verus!
