//! Signed envelopes: creating them with a private key and verifying them
//! against a certificate, under a negotiated security policy.
use crate::policy::{
    algorithm_of, digest_len_of, is_signing_policy, policy_of_algorithm, policy_of_uri, uses_sha1,
    SecurityPolicy,
};
use crate::primitives::{
    hmac_sha1, hmac_sha1_of, hmac_sha1_verify, hmac_sha256, hmac_sha256_of, hmac_sha256_verify,
};
use vstd::prelude::*;
use vstd::slice::slice_to_vec;

verus! {

/// A byte sequence that may be absent, which is distinct from empty.
#[derive(Clone, Debug)]
pub struct ByteString {
    pub value: Option<Vec<u8>>,
}

/// A text that may be absent, which is distinct from empty.
#[derive(Clone, Debug)]
pub struct UAString {
    pub value: Option<String>,
}

/// An envelope: the identifier of the signing algorithm and the signature.
#[derive(Clone, Debug)]
pub struct SignatureData {
    pub algorithm: UAString,
    pub signature: ByteString,
}

/// Private key material used to sign.
#[derive(Clone, Debug)]
pub struct PKey {
    pub value: Vec<u8>,
}

/// A certificate, from which the key material that checks signatures may or
/// may not be extracted.
#[derive(Clone, Debug)]
pub struct X509 {
    pub public_key: Option<PKey>,
}

/// Why a well-formed envelope was not accepted.
#[derive(Clone, Copy, Debug, PartialEq, Eq, Structural)]
pub enum Rejection {
    /// The policy is `NoSecurity`, under which nothing can be verified.
    PolicyNone,
    /// The algorithm identifier names no supported policy.
    UnknownPolicy,
    /// The signature does not match the payload and nonce.
    SignatureMismatch,
}

/// Why an envelope could not be checked at all.
#[derive(Clone, Copy, Debug, PartialEq, Eq, Structural)]
pub enum InfrastructureError {
    /// The payload or the nonce is absent.
    MissingInput,
    /// The envelope declares no algorithm.
    MissingAlgorithm,
    /// No key can be extracted from the certificate.
    KeyUnavailable,
}

/// The three-way outcome of a verification.
#[derive(Clone, Copy, Debug, PartialEq, Eq, Structural)]
pub enum VerificationOutcome {
    Accepted,
    Rejected(Rejection),
    InfrastructuralError(InfrastructureError),
}

/// The model of an envelope: algorithm identifier and signature bytes.
pub type EnvelopeModel = (Option<Seq<char>>, Option<Seq<u8>>);

impl View for ByteString {
    type V = Option<Seq<u8>>;

    open spec fn view(&self) -> Option<Seq<u8>> {
        match self.value {
            Some(v) => Some(v@),
            None => None,
        }
    }
}

impl View for UAString {
    type V = Option<Seq<char>>;

    open spec fn view(&self) -> Option<Seq<char>> {
        match self.value {
            Some(s) => Some(s@),
            None => None,
        }
    }
}

impl View for SignatureData {
    type V = EnvelopeModel;

    open spec fn view(&self) -> EnvelopeModel {
        (self.algorithm@, self.signature@)
    }
}

impl View for PKey {
    type V = Seq<u8>;

    open spec fn view(&self) -> Seq<u8> {
        self.value@
    }
}

impl View for X509 {
    type V = Option<Seq<u8>>;

    open spec fn view(&self) -> Option<Seq<u8>> {
        match self.public_key {
            Some(k) => Some(k@),
            None => None,
        }
    }
}

impl ByteString {
    /// The absent byte sequence.
    pub fn null() -> (r: ByteString)
        ensures
            r@ is None,
    {
        ByteString { value: None }
    }

    /// A present byte sequence holding a copy of the bytes.
    pub fn from_slice(bytes: &[u8]) -> (r: ByteString)
        ensures
            r@ == Some(bytes@),
    {
        ByteString { value: Some(slice_to_vec(bytes)) }
    }

    /// Whether the value is absent.
    pub fn is_null(&self) -> (r: bool)
        ensures
            r == (self@ is None),
    {
        self.value.is_none()
    }
}

impl UAString {
    /// The absent text.
    pub fn null() -> (r: UAString)
        ensures
            r@ is None,
    {
        UAString { value: None }
    }

    /// A present text holding a copy of the text.
    pub fn from_text(text: &str) -> (r: UAString)
        ensures
            r@ == Some(text@),
    {
        UAString { value: Some(text.to_owned()) }
    }

    /// Whether the value is absent.
    pub fn is_null(&self) -> (r: bool)
        ensures
            r == (self@ is None),
    {
        self.value.is_none()
    }
}

impl SignatureData {
    /// The envelope that carries no signature.
    pub fn null() -> (r: SignatureData)
        ensures
            r@ == (None::<Seq<char>>, None::<Seq<u8>>),
    {
        SignatureData { algorithm: UAString::null(), signature: ByteString::null() }
    }
}

/// The bytes that are signed: the payload followed by the nonce.
pub open spec fn signed_message(data: Seq<u8>, nonce: Seq<u8>) -> Seq<u8> {
    data + nonce
}

/// The tag of a message under a key, by the algorithm of a signing policy.
pub open spec fn tag_of(p: SecurityPolicy, key: Seq<u8>, message: Seq<u8>) -> Seq<u8> {
    if uses_sha1(p) {
        hmac_sha1_of(key, message)
    } else {
        hmac_sha256_of(key, message)
    }
}

/// The envelope that signing a payload and a nonce with a key under a policy
/// URI produces.
pub open spec fn created_envelope(
    key: Seq<u8>,
    uri: Seq<char>,
    data: Option<Seq<u8>>,
    nonce: Option<Seq<u8>>,
) -> EnvelopeModel {
    let p = policy_of_uri(uri);
    if data is Some && nonce is Some && is_signing_policy(p) {
        (Some(algorithm_of(p)), Some(tag_of(p, key, signed_message(data->0, nonce->0))))
    } else {
        (None, None)
    }
}

/// The outcome of verifying an envelope over a payload and a nonce against the
/// key of a certificate, if one can be extracted. An absent signature is
/// checked as an empty one.
pub open spec fn verification_of(
    cert_key: Option<Seq<u8>>,
    envelope: EnvelopeModel,
    data: Option<Seq<u8>>,
    nonce: Option<Seq<u8>>,
) -> VerificationOutcome {
    if data is None || nonce is None {
        VerificationOutcome::InfrastructuralError(InfrastructureError::MissingInput)
    } else if envelope.0 is None {
        VerificationOutcome::InfrastructuralError(InfrastructureError::MissingAlgorithm)
    } else if cert_key is None {
        VerificationOutcome::InfrastructuralError(InfrastructureError::KeyUnavailable)
    } else {
        let p = policy_of_algorithm(envelope.0->0);
        let signature = match envelope.1 {
            Some(s) => s,
            None => Seq::empty(),
        };
        if p == SecurityPolicy::NoSecurity {
            VerificationOutcome::Rejected(Rejection::PolicyNone)
        } else if p == SecurityPolicy::Unknown {
            VerificationOutcome::Rejected(Rejection::UnknownPolicy)
        } else if signature == tag_of(p, cert_key->0, signed_message(data->0, nonce->0)) {
            VerificationOutcome::Accepted
        } else {
            VerificationOutcome::Rejected(Rejection::SignatureMismatch)
        }
    }
}

/// Concatenates the payload and the nonce, payload first.
pub fn concat_data_and_nonce(data: &[u8], nonce: &[u8]) -> (r: Vec<u8>)
    ensures
        r@ == signed_message(data@, nonce@),
{
    let mut buffer: Vec<u8> = slice_to_vec(data);
    let mut i: usize = 0;
    while i < nonce.len()
        invariant
            i <= nonce@.len(),
            buffer@ == data@ + nonce@.subrange(0, i as int),
        decreases nonce@.len() - i,
    {
        buffer.push(nonce[i]);
        i = i + 1;
        assert(buffer@ =~= data@ + nonce@.subrange(0, i as int));
    }
    assert(nonce@.subrange(0, i as int) =~= nonce@);
    buffer
}

/// Checks an envelope over a payload and a nonce against the key of a
/// certificate, under the policy that the envelope's algorithm identifier
/// resolves to.
pub fn verify_signature(
    verifying_cert: &X509,
    signature_data: &SignatureData,
    data: &ByteString,
    nonce: &ByteString,
) -> (r: VerificationOutcome)
    ensures
        r == verification_of(verifying_cert@, signature_data@, data@, nonce@),
        data@ is None || nonce@ is None ==> r == VerificationOutcome::InfrastructuralError(
            InfrastructureError::MissingInput,
        ),
        signature_data@.0 is Some && policy_of_algorithm(signature_data@.0->0)
            == SecurityPolicy::NoSecurity ==> r != VerificationOutcome::Accepted,
        data@ is Some && nonce@ is Some && verifying_cert@ is Some && signature_data@.0 is Some
            && policy_of_algorithm(signature_data@.0->0) == SecurityPolicy::Unknown ==> r
            == VerificationOutcome::Rejected(Rejection::UnknownPolicy),
        r == VerificationOutcome::Accepted ==> signature_data@.1 is Some
            && signature_data@.1->0.len() == digest_len_of(
            policy_of_algorithm(signature_data@.0->0),
        ),
{
    let (payload, nonce_bytes) = match (&data.value, &nonce.value) {
        (Some(d), Some(n)) => (d, n),
        _ => {
            return VerificationOutcome::InfrastructuralError(InfrastructureError::MissingInput);
        },
    };
    let algorithm = match &signature_data.algorithm.value {
        Some(a) => a,
        None => {
            return VerificationOutcome::InfrastructuralError(
                InfrastructureError::MissingAlgorithm,
            );
        },
    };
    let key = match &verifying_cert.public_key {
        Some(k) => k,
        None => {
            return VerificationOutcome::InfrastructuralError(InfrastructureError::KeyUnavailable);
        },
    };
    let message = concat_data_and_nonce(payload.as_slice(), nonce_bytes.as_slice());
    let empty: Vec<u8> = Vec::new();
    let signature = match &signature_data.signature.value {
        Some(s) => s,
        None => &empty,
    };
    let security_policy = SecurityPolicy::from_signature_algorithm(algorithm.as_str());
    let verified = match security_policy {
        SecurityPolicy::Basic128Rsa15 | SecurityPolicy::Basic256 => {
            hmac_sha1_verify(key.value.as_slice(), message.as_slice(), signature.as_slice())
        },
        SecurityPolicy::Basic256Sha256 => {
            hmac_sha256_verify(key.value.as_slice(), message.as_slice(), signature.as_slice())
        },
        SecurityPolicy::NoSecurity => {
            return VerificationOutcome::Rejected(Rejection::PolicyNone);
        },
        SecurityPolicy::Unknown => {
            return VerificationOutcome::Rejected(Rejection::UnknownPolicy);
        },
    };
    if verified {
        VerificationOutcome::Accepted
    } else {
        VerificationOutcome::Rejected(Rejection::SignatureMismatch)
    }
}

/// Signs a payload and a nonce with a key under the policy that a URI names.
/// Absent inputs, the policy `NoSecurity` and an unknown URI give the envelope
/// that carries no signature.
pub fn create_signature_data(
    pkey: &PKey,
    security_policy_uri: &str,
    data: &ByteString,
    nonce: &ByteString,
) -> (r: SignatureData)
    ensures
        r@ == created_envelope(pkey@, security_policy_uri@, data@, nonce@),
        policy_of_uri(security_policy_uri@) == SecurityPolicy::Unknown ==> r@ == (
            None::<Seq<char>>,
            None::<Seq<u8>>,
        ),
        data@ is Some && nonce@ is Some && is_signing_policy(policy_of_uri(security_policy_uri@))
            ==> r@.1 is Some && r@.1->0.len() == digest_len_of(
            policy_of_uri(security_policy_uri@),
        ),
{
    let (payload, nonce_bytes) = match (&data.value, &nonce.value) {
        (Some(d), Some(n)) => (d, n),
        _ => {
            return SignatureData::null();
        },
    };
    let message = concat_data_and_nonce(payload.as_slice(), nonce_bytes.as_slice());
    let security_policy = SecurityPolicy::from_uri(security_policy_uri);
    match security_policy {
        SecurityPolicy::Basic128Rsa15 | SecurityPolicy::Basic256 => {
            let signature = hmac_sha1(pkey.value.as_slice(), message.as_slice());
            SignatureData {
                algorithm: UAString::from_text(security_policy.asymmetric_signature_algorithm()),
                signature: ByteString { value: Some(signature) },
            }
        },
        SecurityPolicy::Basic256Sha256 => {
            let signature = hmac_sha256(pkey.value.as_slice(), message.as_slice());
            SignatureData {
                algorithm: UAString::from_text(security_policy.asymmetric_signature_algorithm()),
                signature: ByteString { value: Some(signature) },
            }
        },
        SecurityPolicy::NoSecurity | SecurityPolicy::Unknown => SignatureData::null(),
    }
}

} // verus!
