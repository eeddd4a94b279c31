use crate::crypto::HashValue;
use crate::error::outcome_text;
use diem_crypto::hash::HashValue as ChainHash;
use diem_crypto::hash::TransactionAccumulatorHasher;
use diem_types::proof::AccumulatorExtensionProof as ChainProof;
use vstd::prelude::*;

verus! {

/// A proof that an accumulator, given by the roots of its full subtrees and
/// the number of its leaves, grows by some leaves.
#[derive(Clone, Debug, PartialEq, Eq)]
pub struct AccumulatorExtensionProof {
    pub frozen_subtree_roots: Vec<HashValue>,
    pub num_leaves: u64,
    pub leaves: Vec<HashValue>,
}

/// What checking an extension proof against the root of the accumulator it
/// starts from gives: the root and the version of the accumulator after the
/// new leaves, or the text of the reason why the proof does not hold.
pub uninterp spec fn accumulator_extension(
    frozen_subtree_roots: Seq<HashValue>,
    num_leaves: u64,
    leaves: Seq<HashValue>,
    base_root: HashValue,
) -> Result<(HashValue, u64), Seq<char>>;

impl AccumulatorExtensionProof {
    /// The count of leaves after the extension still fits the counter.
    pub open spec fn fits(&self) -> bool {
        self.num_leaves + self.leaves@.len() <= u64::MAX
    }

    /// Whether the count of leaves after the extension still fits the counter.
    pub fn check_fits(&self) -> (r: bool)
        ensures
            r == self.fits(),
    {
        self.leaves.len() as u64 <= u64::MAX - self.num_leaves
    }
}

/// `AccumulatorExtensionProof::verify` of diem_types, for the hasher of the
/// transaction accumulator, then `root_hash` and `version` of the accumulator
/// it returns. The claim is only that the outcome is a function of the proof
/// and the root. The leaves must fit the counter: appending past it overflows.
#[verifier::external_body]
pub(crate) fn verify_extension(
    proof: &AccumulatorExtensionProof,
    base_root: &HashValue,
) -> (r: Result<(HashValue, u64), String>)
    requires
        proof.fits(),
    ensures
        outcome_text(r) == accumulator_extension(
            proof.frozen_subtree_roots@,
            proof.num_leaves,
            proof.leaves@,
            *base_root,
        ),
{
    let roots = proof.frozen_subtree_roots.iter().map(|h| ChainHash::new(h.bytes)).collect();
    let leaves = proof.leaves.iter().map(|h| ChainHash::new(h.bytes)).collect();
    let chain = ChainProof::<TransactionAccumulatorHasher>::new(roots, proof.num_leaves, leaves);
    let tree = chain.verify(ChainHash::new(base_root.bytes)).map_err(|e| e.to_string())?;
    Ok((HashValue { bytes: *tree.root_hash().as_ref() }, tree.version()))
}

} // verus!
