//! The trust policy of an insecure transport: a verifier that accepts every
//! server.

use std::sync::Arc;
use vstd::prelude::*;

verus! {

/// A signature scheme of a TLS handshake.
#[allow(non_camel_case_types)]
#[derive(Debug, Clone, Copy, PartialEq, Eq, Structural)]
pub enum SignatureScheme {
    ED25519,
    ED448,
    RSA_PSS_SHA512,
    RSA_PSS_SHA384,
    RSA_PSS_SHA256,
    ECDSA_NISTP521_SHA512,
    ECDSA_NISTP384_SHA384,
    ECDSA_NISTP256_SHA256,
}

/// The number that TLS gives a signature scheme.
pub open spec fn scheme_code(scheme: SignatureScheme) -> u16 {
    match scheme {
        SignatureScheme::ED25519 => 0x0807,
        SignatureScheme::ED448 => 0x0808,
        SignatureScheme::RSA_PSS_SHA512 => 0x0806,
        SignatureScheme::RSA_PSS_SHA384 => 0x0805,
        SignatureScheme::RSA_PSS_SHA256 => 0x0804,
        SignatureScheme::ECDSA_NISTP521_SHA512 => 0x0603,
        SignatureScheme::ECDSA_NISTP384_SHA384 => 0x0503,
        SignatureScheme::ECDSA_NISTP256_SHA256 => 0x0403,
    }
}

impl SignatureScheme {
    /// The number that TLS gives this scheme.
    pub fn code(self) -> (n: u16)
        ensures
            n == scheme_code(self),
    {
        match self {
            SignatureScheme::ED25519 => 0x0807,
            SignatureScheme::ED448 => 0x0808,
            SignatureScheme::RSA_PSS_SHA512 => 0x0806,
            SignatureScheme::RSA_PSS_SHA384 => 0x0805,
            SignatureScheme::RSA_PSS_SHA256 => 0x0804,
            SignatureScheme::ECDSA_NISTP521_SHA512 => 0x0603,
            SignatureScheme::ECDSA_NISTP384_SHA384 => 0x0503,
            SignatureScheme::ECDSA_NISTP256_SHA256 => 0x0403,
        }
    }
}

/// The schemes whose handshake signatures a skipping verifier accepts, in the
/// order in which it offers them.
pub open spec fn skipped_schemes() -> Seq<SignatureScheme> {
    seq![
        SignatureScheme::ED25519,
        SignatureScheme::ED448,
        SignatureScheme::RSA_PSS_SHA512,
        SignatureScheme::RSA_PSS_SHA384,
        SignatureScheme::RSA_PSS_SHA256,
        SignatureScheme::ECDSA_NISTP521_SHA512,
        SignatureScheme::ECDSA_NISTP384_SHA384,
        SignatureScheme::ECDSA_NISTP256_SHA256,
    ]
}

/// The schemes of a skipping verifier, in order.
fn all_schemes() -> (schemes: Vec<SignatureScheme>)
    ensures
        schemes@ == skipped_schemes(),
{
    let mut schemes: Vec<SignatureScheme> = Vec::new();
    schemes.push(SignatureScheme::ED25519);
    schemes.push(SignatureScheme::ED448);
    schemes.push(SignatureScheme::RSA_PSS_SHA512);
    schemes.push(SignatureScheme::RSA_PSS_SHA384);
    schemes.push(SignatureScheme::RSA_PSS_SHA256);
    schemes.push(SignatureScheme::ECDSA_NISTP521_SHA512);
    schemes.push(SignatureScheme::ECDSA_NISTP384_SHA384);
    schemes.push(SignatureScheme::ECDSA_NISTP256_SHA256);
    assert(schemes@ =~= skipped_schemes());
    schemes
}

/// Every scheme there is is among the skipped ones.
pub proof fn lemma_every_scheme_is_skipped(scheme: SignatureScheme)
    ensures
        skipped_schemes().contains(scheme),
{
    let all = skipped_schemes();
    match scheme {
        SignatureScheme::ED25519 => assert(all[0] == scheme),
        SignatureScheme::ED448 => assert(all[1] == scheme),
        SignatureScheme::RSA_PSS_SHA512 => assert(all[2] == scheme),
        SignatureScheme::RSA_PSS_SHA384 => assert(all[3] == scheme),
        SignatureScheme::RSA_PSS_SHA256 => assert(all[4] == scheme),
        SignatureScheme::ECDSA_NISTP521_SHA512 => assert(all[5] == scheme),
        SignatureScheme::ECDSA_NISTP384_SHA384 => assert(all[6] == scheme),
        SignatureScheme::ECDSA_NISTP256_SHA256 => assert(all[7] == scheme),
    }
}

/// Verifier of a TLS transport that accepts every server certificate and
/// every handshake signature.
#[derive(Debug, Clone, Copy, PartialEq, Eq, Structural)]
pub struct SkipServerVerification;

impl SkipServerVerification {
    /// A shared verifier.
    pub fn new() -> (verifier: Arc<Self>)
        ensures
            *verifier == SkipServerVerification,
    {
        Arc::new(SkipServerVerification)
    }

    /// Whether the server's certificate is accepted: always.
    pub fn verify_server_cert(
        &self,
        end_entity: &[u8],
        intermediates: &[Vec<u8>],
        server_name: &str,
        ocsp_response: &[u8],
        now: u64,
    ) -> (accepted: bool)
        ensures
            accepted,
    {
        true
    }

    /// Whether a TLS 1.2 handshake signature is accepted: always.
    pub fn verify_tls12_signature(&self, message: &[u8], cert: &[u8], signature: &[u8]) -> (accepted:
        bool)
        ensures
            accepted,
    {
        true
    }

    /// Whether a TLS 1.3 handshake signature is accepted: always.
    pub fn verify_tls13_signature(&self, message: &[u8], cert: &[u8], signature: &[u8]) -> (accepted:
        bool)
        ensures
            accepted,
    {
        true
    }

    /// The schemes that the verifier offers to the server.
    pub fn supported_verify_schemes(&self) -> (schemes: Vec<SignatureScheme>)
        ensures
            schemes@ == skipped_schemes(),
    {
        all_schemes()
    }
}

/// Verifier of a QUIC transport that accepts every server certificate and
/// every handshake signature.
#[derive(Debug, Clone, Copy, PartialEq, Eq, Structural)]
pub struct QuinnSkipServerVerification;

impl QuinnSkipServerVerification {
    /// A shared verifier.
    pub fn new() -> (verifier: Arc<Self>)
        ensures
            *verifier == QuinnSkipServerVerification,
    {
        Arc::new(QuinnSkipServerVerification)
    }

    /// Whether the server's certificate is accepted: always.
    pub fn verify_server_cert(
        &self,
        end_entity: &[u8],
        intermediates: &[Vec<u8>],
        server_name: &str,
        ocsp_response: &[u8],
        now: u64,
    ) -> (accepted: bool)
        ensures
            accepted,
    {
        true
    }

    /// Whether a TLS 1.2 handshake signature is accepted: always.
    pub fn verify_tls12_signature(&self, message: &[u8], cert: &[u8], signature: &[u8]) -> (accepted:
        bool)
        ensures
            accepted,
    {
        true
    }

    /// Whether a TLS 1.3 handshake signature is accepted: always.
    pub fn verify_tls13_signature(&self, message: &[u8], cert: &[u8], signature: &[u8]) -> (accepted:
        bool)
        ensures
            accepted,
    {
        true
    }

    /// The schemes that the verifier offers to the server.
    pub fn supported_verify_schemes(&self) -> (schemes: Vec<SignatureScheme>)
        ensures
            schemes@ == skipped_schemes(),
    {
        all_schemes()
    }

    /// Whether signed certificate timestamps are asked for: never.
    pub fn request_scts(&self) -> (asked: bool)
        ensures
            !asked,
    {
        false
    }
}

} // verus!
