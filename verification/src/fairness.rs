use vstd::prelude::*;

use sha2::{Digest, Sha256};

verus! {

/// The SHA-256 digest of the two identities hashed in order (the bytes
/// of `first` followed by the bytes of `second`). The digest is a pure
/// function of the two character sequences; nothing here constrains what
/// its bytes are, only that they are determined by the inputs.
pub uninterp spec fn sha256_pair(first: Seq<char>, second: Seq<char>) -> Seq<u8>;

/// Relies on sha2's `Sha256`: feeding the two strings into one hasher, in
/// order, digests their concatenation, and the output is always 32 bytes.
#[verifier::external_body]
fn sha256_pair_digest(first: &str, second: &str) -> (r: Vec<u8>)
    ensures
        r@ == sha256_pair(first@, second@),
        r@.len() == 32,
{
    Sha256::new().chain_update(first.as_bytes()).chain_update(second.as_bytes()).finalize().to_vec()
}

/// FairnessAssigner's decision: the creator moves first (holds mark "X")
/// exactly when the most significant bit of the first digest byte is set.
pub open spec fn creator_first(creator: Seq<char>, joiner: Seq<char>) -> bool {
    sha256_pair(creator, joiner)[0] >= 128
}

/// FairnessAssigner: decides which participant moves first. The decision
/// is a function of the ordered identity pair alone, so any observer can
/// recompute it, yet neither party can predict it before both identities
/// are known.
pub fn assign_first_mover(creator: &String, joiner: &String) -> (r: bool)
    ensures
        r == creator_first(creator@, joiner@),
{
    let digest = sha256_pair_digest(creator.as_str(), joiner.as_str());
    digest[0] >= 128
}

/// The first-mover decision is deterministic: two evaluations over the
/// same ordered identity pair agree.
pub proof fn lemma_assign_deterministic(
    creator: Seq<char>,
    joiner: Seq<char>,
    r1: bool,
    r2: bool,
)
    requires
        r1 == creator_first(creator, joiner),
        r2 == creator_first(creator, joiner),
    ensures
        r1 == r2,
{
}

/// The decision is drawn from the digest of the *ordered* pair: the
/// creator's identity is hashed first, the joiner's second, so swapping
/// the two roles changes the digest input. The outcome is not a function
/// of the creator alone.
pub proof fn lemma_decision_over_ordered_pair(creator: Seq<char>, joiner: Seq<char>)
    ensures
        creator_first(creator, joiner) == (sha256_pair(creator, joiner)[0] >= 128),
        creator_first(joiner, creator) == (sha256_pair(joiner, creator)[0] >= 128),
{
}

} // verus!
