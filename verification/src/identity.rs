//! Identities, digests and the clock, as the host ledger hands them over.

use vstd::prelude::*;

verus! {

/// An account identity: twenty raw bytes.
pub type AccountId = [u8; 20];

/// A 256-bit digest.
pub type Digest = [u8; 32];

/// A point on the ledger's logical clock, or a span of it.
pub type Timestamp = u64;

/// An amount of the ledger's currency.
pub type Balance = u128;

/// Whether two byte arrays of one length hold the same bytes.
pub fn same_bytes<const N: usize>(a: &[u8; N], b: &[u8; N]) -> (r: bool)
    ensures
        r == (a@ == b@),
        r == (*a == *b),
{
    let mut i: usize = 0;
    while i < N
        invariant
            i <= N,
            forall|j: int| 0 <= j < i ==> a@[j] == b@[j],
        decreases N - i,
    {
        if a[i] != b[i] {
            return false;
        }
        i += 1;
    }
    assert(*a =~= *b);
    true
}

/// Whether `time` lies before the end of `span` counted from `start`.
pub fn is_before(time: Timestamp, start: Timestamp, span: Timestamp) -> (r: bool)
    ensures
        r == (time < start + span),
{
    (time as u128) < start as u128 + span as u128
}

/// Whether `time` lies after the end of `span` counted from `start`.
pub fn is_after(time: Timestamp, start: Timestamp, span: Timestamp) -> (r: bool)
    ensures
        r == (time > start + span),
{
    time as u128 > start as u128 + span as u128
}

/// Whether `text` is exactly `word`.
pub fn is_word(text: &String, word: &str) -> (r: bool)
    ensures
        r == (text@ == word@),
{
    *text == word.to_owned()
}

} // verus!
