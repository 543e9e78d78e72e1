//! What holds of every use of the signer and the verifier together.
use crate::policy::{
    is_signing_policy, lemma_algorithm_routes_back, policy_of_algorithm, policy_of_uri,
    SecurityPolicy,
};
use crate::signature::{
    created_envelope, signed_message, tag_of, verification_of, EnvelopeModel, InfrastructureError,
    Rejection, VerificationOutcome,
};
use vstd::prelude::*;

verus! {

/// A byte sequence with one bit of one byte inverted.
pub open spec fn flip_bit(s: Seq<u8>, i: int, bit: u8) -> Seq<u8> {
    s.update(i, s[i] ^ (1u8 << bit))
}

/// An absent payload or nonce is an infrastructural error, whatever the
/// certificate and the envelope.
pub proof fn lemma_absent_input_is_error(
    cert_key: Option<Seq<u8>>,
    envelope: EnvelopeModel,
    data: Option<Seq<u8>>,
    nonce: Option<Seq<u8>>,
)
    requires
        data is None || nonce is None,
    ensures
        verification_of(cert_key, envelope, data, nonce)
            == VerificationOutcome::InfrastructuralError(InfrastructureError::MissingInput),
{
}

/// An envelope whose identifier resolves to the policy `NoSecurity` is never
/// accepted, whatever signature bytes it carries.
pub proof fn lemma_policy_none_never_accepted(
    cert_key: Option<Seq<u8>>,
    envelope: EnvelopeModel,
    data: Option<Seq<u8>>,
    nonce: Option<Seq<u8>>,
)
    requires
        envelope.0 is Some,
        policy_of_algorithm(envelope.0->0) == SecurityPolicy::NoSecurity,
    ensures
        verification_of(cert_key, envelope, data, nonce) != VerificationOutcome::Accepted,
{
}

/// An envelope created under a signing policy is accepted when verified with
/// the same key over the same payload and nonce.
pub proof fn lemma_round_trip(key: Seq<u8>, uri: Seq<char>, data: Seq<u8>, nonce: Seq<u8>)
    requires
        is_signing_policy(policy_of_uri(uri)),
    ensures
        verification_of(
            Some(key),
            created_envelope(key, uri, Some(data), Some(nonce)),
            Some(data),
            Some(nonce),
        ) == VerificationOutcome::Accepted,
{
    lemma_algorithm_routes_back(policy_of_uri(uri));
}

/// Inverting any one bit of the signature of a created envelope makes the
/// verifier reject it.
pub proof fn lemma_tampered_signature_rejected(
    key: Seq<u8>,
    uri: Seq<char>,
    data: Seq<u8>,
    nonce: Seq<u8>,
    i: int,
    bit: u8,
)
    requires
        is_signing_policy(policy_of_uri(uri)),
        0 <= i < created_envelope(key, uri, Some(data), Some(nonce)).1->0.len(),
        bit < 8,
    ensures
        ({
            let env = created_envelope(key, uri, Some(data), Some(nonce));
            verification_of(
                Some(key),
                (env.0, Some(flip_bit(env.1->0, i, bit))),
                Some(data),
                Some(nonce),
            ) == VerificationOutcome::Rejected(Rejection::SignatureMismatch)
        }),
{
    let env = created_envelope(key, uri, Some(data), Some(nonce));
    let s = env.1->0;
    let x = s[i];
    assert(x ^ (1u8 << bit) != x) by (bit_vector)
        requires
            bit < 8,
    ;
    assert(flip_bit(s, i, bit)[i] != s[i]);
    lemma_algorithm_routes_back(policy_of_uri(uri));
}

/// Verifying a created envelope with the payload and the nonce swapped checks
/// the signature against the tag of the nonce followed by the payload: it is
/// rejected as a mismatch unless that tag equals the one that was signed.
pub proof fn lemma_swapped_inputs(key: Seq<u8>, uri: Seq<char>, data: Seq<u8>, nonce: Seq<u8>)
    requires
        is_signing_policy(policy_of_uri(uri)),
    ensures
        ({
            let p = policy_of_uri(uri);
            let outcome = verification_of(
                Some(key),
                created_envelope(key, uri, Some(data), Some(nonce)),
                Some(nonce),
                Some(data),
            );
            &&& (outcome == VerificationOutcome::Accepted) == (tag_of(
                p,
                key,
                signed_message(nonce, data),
            ) == tag_of(p, key, signed_message(data, nonce)))
            &&& outcome != VerificationOutcome::Accepted ==> outcome
                == VerificationOutcome::Rejected(Rejection::SignatureMismatch)
        }),
{
    lemma_algorithm_routes_back(policy_of_uri(uri));
}

} // verus!
