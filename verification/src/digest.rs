//! The two digests of the registration protocol.
//!
//! Both are SHA-256 over the SCALE encoding of a record's fields in order,
//! computed by the ledger's hashing interface. The library never looks inside
//! a digest: it only compares digests, so each is known here by a name.

use crate::identity::{AccountId, Digest, Timestamp};
use ink::env::hash::Sha2x256;
use vstd::prelude::*;

verus! {

/// The digest of a commitment's fields: name, owner, duration, secret and
/// resolver, in this order.
pub uninterp spec fn commitment_digest(
    domain_name: Seq<char>,
    domain_owner: Seq<u8>,
    duration: u64,
    secret: Seq<u8>,
    resolver: Seq<u8>,
) -> Seq<u8>;

/// The digest of a domain's identifying fields: name, owner and expiry time,
/// in this order.
pub uninterp spec fn domain_digest(
    domain_name: Seq<char>,
    domain_owner: Seq<u8>,
    domain_expiry_time: u64,
) -> Seq<u8>;

/// Whether a name can be encoded: the encoding prefixes the name with the
/// number of its UTF-8 bytes, which must fit 32 bits.
pub open spec fn encodable(domain_name: Seq<char>) -> bool {
    vstd::utf8::encode_utf8(domain_name).len() <= u32::MAX
}

/// Whether `domain_name` can be encoded.
pub fn is_encodable(domain_name: &String) -> (r: bool)
    ensures
        r == encodable(domain_name@),
{
    domain_name.as_str().as_bytes().len() as u64 <= u32::MAX as u64
}

/// Calls `ink::env::hash_encoded` with SHA-256 on the five fields of a
/// commitment as a tuple. Trusted: the result depends on the fields alone,
/// and is what `commitment_digest` names. The call does not return for a
/// name that cannot be encoded, so such a name is left out.
#[verifier::external_body]
pub(crate) fn hash_commit_info(
    domain_name: &String,
    domain_owner: &AccountId,
    duration: Timestamp,
    secret: &[u8; 32],
    resolver: &AccountId,
) -> (digest: Digest)
    requires
        encodable(domain_name@),
    ensures
        digest@ == commitment_digest(domain_name@, domain_owner@, duration, secret@, resolver@),
{
    let mut digest = [0u8; 32];
    ink::env::hash_encoded::<Sha2x256, _>(
        &(domain_name, domain_owner, duration, secret, resolver),
        &mut digest,
    );
    digest
}

/// Calls `ink::env::hash_encoded` with SHA-256 on the three identifying
/// fields of a domain as a tuple. Trusted: the result depends on the fields
/// alone, and is what `domain_digest` names. The call does not return for a
/// name that cannot be encoded, so such a name is left out.
#[verifier::external_body]
pub(crate) fn hash_domain_info(
    domain_name: &String,
    domain_owner: &AccountId,
    domain_expiry_time: Timestamp,
) -> (digest: Digest)
    requires
        encodable(domain_name@),
    ensures
        digest@ == domain_digest(domain_name@, domain_owner@, domain_expiry_time),
{
    let mut digest = [0u8; 32];
    ink::env::hash_encoded::<Sha2x256, _>(
        &(domain_name, domain_owner, domain_expiry_time),
        &mut digest,
    );
    digest
}

} // verus!
