//! Security-policy driven signing and verification of handshake envelopes.
//!
//! A security policy, resolved from its URI, selects the keyed digest that
//! binds a payload and a session nonce to a key: the signer produces an
//! envelope, the verifier checks one against a certificate's key.

pub mod guarantees;
pub mod policy;
pub mod primitives;
pub mod signature;

pub use policy::SecurityPolicy;
