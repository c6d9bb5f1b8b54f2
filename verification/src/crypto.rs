use vstd::prelude::*;

use crate::errors::CredentialError;
use openssl::error::ErrorStack;
use openssl::pkey::Public;
use openssl::rsa::Rsa;
use openssl::x509::X509;

verus! {

/// The largest byte length this module hands to the OpenSSL primitives, which
/// take C `int` lengths and reject or abort on anything larger.
pub const MAX_ENCRYPTION_INPUT_LEN: usize = 0x7fff_ffff;

/// Whether `pem` parses as a PEM-encoded X.509 certificate: the success of
/// `openssl::x509::X509::from_pem`, which depends on the input bytes alone.
pub uninterp spec fn x509_parses(pem: Seq<u8>) -> bool;

/// Whether the certificate parsed from `pem` yields a public key: the
/// success of `openssl::x509::X509Ref::public_key` on it, which depends on
/// the input bytes alone.
pub uninterp spec fn x509_has_public_key(pem: Seq<u8>) -> bool;

/// Whether the public key of the certificate parsed from `pem` is an RSA
/// key: the success of `openssl::pkey::PKeyRef::rsa` on it, which depends on
/// the input bytes alone.
pub uninterp spec fn x509_key_is_rsa(pem: Seq<u8>) -> bool;

/// The size in bytes of the RSA modulus of the key carried by the
/// certificate parsed from `pem`: the result of `openssl::rsa::RsaRef::size`
/// on it, which depends on the input bytes alone. Meaningful only where
/// `yields_rsa_key(pem)` holds.
pub uninterp spec fn x509_modulus_bytes(pem: Seq<u8>) -> nat;

/// The standard base64 encoding, `=`-padded, of `bytes`: the result of
/// `base64::encode`, which depends on the input bytes alone.
pub uninterp spec fn base64_of(bytes: Seq<u8>) -> Seq<char>;

/// Whether `pem` yields a usable RSA public key: it parses as an X.509
/// certificate, the certificate yields a public key, and that key is RSA.
pub open spec fn yields_rsa_key(pem: Seq<u8>) -> bool {
    x509_parses(pem) && x509_has_public_key(pem) && x509_key_is_rsa(pem)
}

#[verifier::external_type_specification]
#[verifier::external_body]
pub struct ExErrorStack(ErrorStack);

#[verifier::external_type_specification]
#[verifier::external_body]
pub struct ExPublic(Public);

#[verifier::external_type_specification]
#[verifier::external_body]
#[verifier::reject_recursive_types(T)]
pub struct ExRsa<T>(Rsa<T>);

/// Relies on openssl's `X509::from_pem` (`PEM_read_bio_X509`),
/// `X509Ref::public_key` (`X509_get_pubkey`), `PKeyRef::rsa`
/// (`EVP_PKEY_get1_RSA`) and `RsaRef::size` (`RSA_size`): each step succeeds
/// or fails on the input bytes alone, no step runs unless the one before it
/// succeeded, each failure maps to its own error variant, and on success the
/// returned size is the modulus size in bytes. The length bound keeps the
/// input within the C `int` range the PEM reader insists on.
#[verifier::external_body]
fn rsa_key_from_pem(pem: &[u8]) -> (r: Result<(Rsa<Public>, usize), CredentialError>)
    requires
        pem@.len() <= MAX_ENCRYPTION_INPUT_LEN,
    ensures
        (r matches Err(e) && e == CredentialError::InvalidCertificate) <==> !x509_parses(pem@),
        (r matches Err(e) && e == CredentialError::InvalidPublicKey) <==> (x509_parses(pem@)
            && !x509_has_public_key(pem@)),
        (r matches Err(e) && e == CredentialError::NotRsaKey) <==> (x509_parses(pem@)
            && x509_has_public_key(pem@) && !x509_key_is_rsa(pem@)),
        r is Ok <==> yields_rsa_key(pem@),
        r matches Ok(p) ==> p.1 == x509_modulus_bytes(pem@),
{
    let cert = match X509::from_pem(pem) {
        Ok(cert) => cert,
        Err(_) => return Err(CredentialError::InvalidCertificate),
    };
    let key = match cert.public_key() {
        Ok(key) => key,
        Err(_) => return Err(CredentialError::InvalidPublicKey),
    };
    let rsa = match key.rsa() {
        Ok(rsa) => rsa,
        Err(_) => return Err(CredentialError::NotRsaKey),
    };
    let size = rsa.size() as usize;
    Ok((rsa, size))
}

/// Relies on openssl's `RsaRef::size` and `RsaRef::public_encrypt`
/// (`RSA_size`, `RSA_public_encrypt`) with PKCS#1 v1.5 padding: on success
/// the ciphertext fills a buffer of exactly the modulus size, and the
/// padding admits at most the modulus size less 11 bytes of plaintext, so a
/// returned ciphertext is at least 11 bytes longer than the plaintext. The
/// padding is random, so nothing is stated of the ciphertext's bytes.
#[verifier::external_body]
fn rsa_encrypt_pkcs1(rsa: &Rsa<Public>, from: &[u8]) -> (r: Result<Vec<u8>, ErrorStack>)
    requires
        from@.len() <= MAX_ENCRYPTION_INPUT_LEN,
    ensures
        r matches Ok(ct) ==> from@.len() + 11 <= ct@.len(),
{
    let size = rsa.size() as usize;
    let mut buffer = vec![0u8; size];
    match rsa.public_encrypt(from, &mut buffer, openssl::rsa::Padding::PKCS1) {
        Ok(_) => Ok(buffer),
        Err(e) => Err(e),
    }
}

/// Relies on `base64::encode`: encodes with the standard alphabet and `=`
/// padding, four output characters for every started group of three input
/// bytes, determined by the input bytes alone; the precondition rules out
/// input lengths whose output length would not fit in a `usize`.
#[verifier::external_body]
fn base64_encode(bytes: &[u8]) -> (r: String)
    requires
        4 * ((bytes@.len() + 2) / 3) <= usize::MAX,
    ensures
        r@ == base64_of(bytes@),
        r@.len() == 4 * ((bytes@.len() + 2) / 3),
{
    base64::encode(bytes)
}

/// Turns a PEM certificate and a plaintext secret into a base64 RSA-PKCS#1
/// v1.5 encrypted credential; a leaf component with no network dependency.
pub struct SecurityCredentialEncoder;

impl SecurityCredentialEncoder {
    /// Parses `certificate_pem` as an X.509 certificate, extracts its RSA
    /// public key, encrypts `secret` under it with PKCS#1 v1.5 padding and
    /// returns the ciphertext base64-encoded. Each failing step maps to its
    /// own error variant, if and only if that step is the one that fails; a
    /// secret longer than the modulus size less the 11 padding bytes is
    /// refused, never truncated; and on a usable certificate with a fitting
    /// secret only the encryption primitive itself can still refuse, so the
    /// result is then a credential or `EncryptionFailed`, never a certificate
    /// error. A returned credential is always the base64 encoding of a
    /// ciphertext of exactly the modulus size, never fabricated, empty or
    /// truncated.
    pub fn encode(certificate_pem: &[u8], secret: &[u8]) -> (r: Result<String, CredentialError>)
        requires
            certificate_pem@.len() <= MAX_ENCRYPTION_INPUT_LEN,
        ensures
            r == Err::<String, CredentialError>(CredentialError::InvalidCertificate)
                <==> !x509_parses(certificate_pem@),
            r == Err::<String, CredentialError>(CredentialError::InvalidPublicKey) <==> (
            x509_parses(certificate_pem@) && !x509_has_public_key(certificate_pem@)),
            r == Err::<String, CredentialError>(CredentialError::NotRsaKey) <==> (x509_parses(
                certificate_pem@,
            ) && x509_has_public_key(certificate_pem@) && !x509_key_is_rsa(certificate_pem@)),
            yields_rsa_key(certificate_pem@) && secret@.len() + 11 > x509_modulus_bytes(
                certificate_pem@,
            ) ==> r == Err::<String, CredentialError>(CredentialError::EncryptionFailed),
            yields_rsa_key(certificate_pem@) && secret@.len() + 11 <= x509_modulus_bytes(
                certificate_pem@,
            ) ==> (r is Ok || r == Err::<String, CredentialError>(CredentialError::EncryptionFailed)),
            r is Ok ==> yields_rsa_key(certificate_pem@) && secret@.len() + 11
                <= x509_modulus_bytes(certificate_pem@),
            r matches Ok(credential) ==> exists|ct: Seq<u8>|
                credential@ == #[trigger] base64_of(ct) && ct.len() == x509_modulus_bytes(
                    certificate_pem@,
                ) && secret@.len() + 11 <= ct.len() && credential@.len() == 4 * ((ct.len() + 2)
                    / 3),
    {
        let (rsa_key, key_size) = match rsa_key_from_pem(certificate_pem) {
            Ok(pair) => pair,
            Err(e) => {
                return Err(e);
            },
        };
        if key_size < 11 || secret.len() > key_size - 11 {
            // The PKCS#1 v1.5 bound: the padding needs 11 bytes of the modulus.
            return Err(CredentialError::EncryptionFailed);
        }
        if secret.len() > MAX_ENCRYPTION_INPUT_LEN {
            return Err(CredentialError::EncryptionFailed);
        }
        let ciphertext = match rsa_encrypt_pkcs1(&rsa_key, secret) {
            Ok(ciphertext) => ciphertext,
            Err(_) => {
                return Err(CredentialError::EncryptionFailed);
            },
        };
        if ciphertext.len() != key_size {
            // OpenSSL fills exactly the modulus size; anything else would be
            // an internal failure, and no such bytes may become a credential.
            return Err(CredentialError::EncryptionFailed);
        }
        if ciphertext.len() > MAX_ENCRYPTION_INPUT_LEN {
            return Err(CredentialError::EncryptionFailed);
        }
        proof {
            lemma_base64_length_fits(ciphertext@.len());
        }
        let credential = base64_encode(ciphertext.as_slice());
        proof {
            assert(credential@ == base64_of(ciphertext@) && ciphertext@.len()
                == x509_modulus_bytes(certificate_pem@) && secret@.len() + 11 <= ciphertext@.len()
                && credential@.len() == 4 * ((ciphertext@.len() + 2) / 3));
        }
        Ok(credential)
    }
}

/// A base64 encoding of at most `MAX_ENCRYPTION_INPUT_LEN` input bytes has a
/// length that fits in a `usize`.
proof fn lemma_base64_length_fits(n: nat)
    requires
        n <= MAX_ENCRYPTION_INPUT_LEN,
    ensures
        4 * ((n + 2) / 3) <= usize::MAX,
{
    assert((n + 2) / 3 <= 0x2aaa_aaab) by (nonlinear_arith)
        requires
            n <= 0x7fff_ffff,
    ;
    assert(usize::MAX >= 0xffff_ffff);
}

} // verus!
