//! The table of security policies: URIs, signature algorithms and digest sizes.
use vstd::prelude::*;

verus! {

pub const SECURITY_POLICY_NONE_URI: &'static str = "http://opcfoundation.org/UA/SecurityPolicy#None";

pub const SECURITY_POLICY_BASIC128RSA15_URI: &'static str =
    "http://opcfoundation.org/UA/SecurityPolicy#Basic128Rsa15";

pub const SECURITY_POLICY_BASIC256_URI: &'static str = "http://opcfoundation.org/UA/SecurityPolicy#Basic256";

pub const SECURITY_POLICY_BASIC256SHA256_URI: &'static str =
    "http://opcfoundation.org/UA/SecurityPolicy#Basic256Sha256";

/// Algorithm identifier written into envelopes signed with HMAC-SHA1.
pub const HMAC_SHA1_ALGORITHM_URI: &'static str = "http://www.w3.org/2000/09/xmldsig#hmac-sha1";

/// Algorithm identifier written into envelopes signed with HMAC-SHA256.
pub const HMAC_SHA256_ALGORITHM_URI: &'static str = "http://www.w3.org/2001/04/xmldsig-more#hmac-sha256";

/// Size of a SHA1 digest in bytes.
pub const SHA1_SIZE: usize = 20;

/// Size of a SHA256 digest in bytes.
pub const SHA256_SIZE: usize = 32;

#[derive(Clone, Copy, Debug, PartialEq, Eq, Structural)]
pub enum SecurityPolicy {
    NoSecurity,
    Basic128Rsa15,
    Basic256,
    Basic256Sha256,
    Unknown,
}

/// The policy that a policy URI names; any other text is `Unknown`.
pub open spec fn policy_of_uri(s: Seq<char>) -> SecurityPolicy {
    if s == SECURITY_POLICY_NONE_URI@ {
        SecurityPolicy::NoSecurity
    } else if s == SECURITY_POLICY_BASIC128RSA15_URI@ {
        SecurityPolicy::Basic128Rsa15
    } else if s == SECURITY_POLICY_BASIC256_URI@ {
        SecurityPolicy::Basic256
    } else if s == SECURITY_POLICY_BASIC256SHA256_URI@ {
        SecurityPolicy::Basic256Sha256
    } else {
        SecurityPolicy::Unknown
    }
}

/// The policy that an envelope's algorithm identifier routes to. A policy URI
/// routes to its policy; a signature algorithm URI routes to the first policy
/// of the table that signs with it.
pub open spec fn policy_of_algorithm(s: Seq<char>) -> SecurityPolicy {
    if s == HMAC_SHA1_ALGORITHM_URI@ {
        SecurityPolicy::Basic128Rsa15
    } else if s == HMAC_SHA256_ALGORITHM_URI@ {
        SecurityPolicy::Basic256Sha256
    } else {
        policy_of_uri(s)
    }
}

/// The policies that sign with HMAC-SHA1.
pub open spec fn uses_sha1(p: SecurityPolicy) -> bool {
    p == SecurityPolicy::Basic128Rsa15 || p == SecurityPolicy::Basic256
}

/// The policies that sign with HMAC-SHA256.
pub open spec fn uses_sha256(p: SecurityPolicy) -> bool {
    p == SecurityPolicy::Basic256Sha256
}

/// The policies under which envelopes are signed and verified.
pub open spec fn is_signing_policy(p: SecurityPolicy) -> bool {
    uses_sha1(p) || uses_sha256(p)
}

/// The algorithm URI that envelopes of a signing policy carry.
pub open spec fn algorithm_of(p: SecurityPolicy) -> Seq<char> {
    if uses_sha1(p) {
        HMAC_SHA1_ALGORITHM_URI@
    } else {
        HMAC_SHA256_ALGORITHM_URI@
    }
}

/// The length of the digest that a signing policy produces.
pub open spec fn digest_len_of(p: SecurityPolicy) -> nat {
    if uses_sha1(p) {
        SHA1_SIZE as nat
    } else if uses_sha256(p) {
        SHA256_SIZE as nat
    } else {
        0
    }
}

/// Whether two texts are equal.
fn same_text(a: &str, b: &str) -> (r: bool)
    ensures
        r == (a@ == b@),
{
    let x = a.to_owned();
    let y = b.to_owned();
    x == y
}

/// The six URIs of the table are pairwise distinct, and their lengths.
pub proof fn lemma_uris_distinct()
    ensures
        SECURITY_POLICY_NONE_URI@ != SECURITY_POLICY_BASIC128RSA15_URI@,
        SECURITY_POLICY_NONE_URI@ != SECURITY_POLICY_BASIC256_URI@,
        SECURITY_POLICY_NONE_URI@ != SECURITY_POLICY_BASIC256SHA256_URI@,
        SECURITY_POLICY_BASIC128RSA15_URI@ != SECURITY_POLICY_BASIC256_URI@,
        SECURITY_POLICY_BASIC128RSA15_URI@ != SECURITY_POLICY_BASIC256SHA256_URI@,
        SECURITY_POLICY_BASIC256_URI@ != SECURITY_POLICY_BASIC256SHA256_URI@,
        HMAC_SHA1_ALGORITHM_URI@ != HMAC_SHA256_ALGORITHM_URI@,
        policy_of_uri(HMAC_SHA1_ALGORITHM_URI@) == SecurityPolicy::Unknown,
        policy_of_uri(HMAC_SHA256_ALGORITHM_URI@) == SecurityPolicy::Unknown,
        SECURITY_POLICY_NONE_URI@.len() == 47,
        SECURITY_POLICY_BASIC128RSA15_URI@.len() == 56,
        SECURITY_POLICY_BASIC256_URI@.len() == 51,
        SECURITY_POLICY_BASIC256SHA256_URI@.len() == 57,
        HMAC_SHA1_ALGORITHM_URI@.len() == 43,
        HMAC_SHA256_ALGORITHM_URI@.len() == 50,
{
    reveal_strlit("http://opcfoundation.org/UA/SecurityPolicy#None");
    reveal_strlit("http://opcfoundation.org/UA/SecurityPolicy#Basic128Rsa15");
    reveal_strlit("http://opcfoundation.org/UA/SecurityPolicy#Basic256");
    reveal_strlit("http://opcfoundation.org/UA/SecurityPolicy#Basic256Sha256");
    reveal_strlit("http://www.w3.org/2000/09/xmldsig#hmac-sha1");
    reveal_strlit("http://www.w3.org/2001/04/xmldsig-more#hmac-sha256");
    assert(SECURITY_POLICY_NONE_URI@.len() == 47);
    assert(SECURITY_POLICY_BASIC128RSA15_URI@.len() == 56);
    assert(SECURITY_POLICY_BASIC256_URI@.len() == 51);
    assert(SECURITY_POLICY_BASIC256SHA256_URI@.len() == 57);
    assert(HMAC_SHA1_ALGORITHM_URI@.len() == 43);
    assert(HMAC_SHA256_ALGORITHM_URI@.len() == 50);
}

impl SecurityPolicy {
    /// Resolves a policy URI; text that names no policy gives `Unknown`.
    pub fn from_uri(uri: &str) -> (r: SecurityPolicy)
        ensures
            r == policy_of_uri(uri@),
    {
        if same_text(uri, SECURITY_POLICY_NONE_URI) {
            SecurityPolicy::NoSecurity
        } else if same_text(uri, SECURITY_POLICY_BASIC128RSA15_URI) {
            SecurityPolicy::Basic128Rsa15
        } else if same_text(uri, SECURITY_POLICY_BASIC256_URI) {
            SecurityPolicy::Basic256
        } else if same_text(uri, SECURITY_POLICY_BASIC256SHA256_URI) {
            SecurityPolicy::Basic256Sha256
        } else {
            SecurityPolicy::Unknown
        }
    }

    /// Resolves the algorithm identifier of an envelope to the policy that
    /// decides how it is verified.
    pub fn from_signature_algorithm(algorithm: &str) -> (r: SecurityPolicy)
        ensures
            r == policy_of_algorithm(algorithm@),
    {
        if same_text(algorithm, HMAC_SHA1_ALGORITHM_URI) {
            SecurityPolicy::Basic128Rsa15
        } else if same_text(algorithm, HMAC_SHA256_ALGORITHM_URI) {
            SecurityPolicy::Basic256Sha256
        } else {
            SecurityPolicy::from_uri(algorithm)
        }
    }

    /// The canonical URI of a known policy; resolving it gives the policy back.
    pub fn to_uri(&self) -> (r: &'static str)
        requires
            *self != SecurityPolicy::Unknown,
        ensures
            policy_of_uri(r@) == *self,
    {
        proof {
            lemma_uris_distinct();
        }
        match self {
            SecurityPolicy::NoSecurity => SECURITY_POLICY_NONE_URI,
            SecurityPolicy::Basic128Rsa15 => SECURITY_POLICY_BASIC128RSA15_URI,
            SecurityPolicy::Basic256 => SECURITY_POLICY_BASIC256_URI,
            _ => SECURITY_POLICY_BASIC256SHA256_URI,
        }
    }

    /// The algorithm URI that envelopes signed under this policy carry.
    pub fn asymmetric_signature_algorithm(&self) -> (r: &'static str)
        requires
            is_signing_policy(*self),
        ensures
            r@ == algorithm_of(*self),
    {
        match self {
            SecurityPolicy::Basic256Sha256 => HMAC_SHA256_ALGORITHM_URI,
            _ => HMAC_SHA1_ALGORITHM_URI,
        }
    }
}

/// Resolving the algorithm identifier of a signing policy gives a policy that
/// signs with the same algorithm.
pub proof fn lemma_algorithm_routes_back(p: SecurityPolicy)
    requires
        is_signing_policy(p),
    ensures
        is_signing_policy(policy_of_algorithm(algorithm_of(p))),
        uses_sha1(policy_of_algorithm(algorithm_of(p))) == uses_sha1(p),
        digest_len_of(policy_of_algorithm(algorithm_of(p))) == digest_len_of(p),
{
    lemma_uris_distinct();
}

} // verus!
