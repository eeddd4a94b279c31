use crate::accumulator::AccumulatorExtensionProof;
use crate::crypto::HashValue;
use crate::crypto::Signature;
use crate::ledger::AccountAddress;
use crate::ledger::BlockInfo;
use crate::ledger::EpochState;
use crate::ledger::LedgerInfo;
use diem_crypto::hash::DefaultHasher;
use diem_crypto::hash::HashValue as ChainHash;
use diem_types::block_info::BlockInfo as ChainBlockInfo;
use diem_types::epoch_state::EpochState as ChainEpochState;
use vstd::prelude::*;

verus! {

/// What a vote is cast on: the proposed block and its parent.
#[derive(Debug, PartialEq, Eq)]
pub struct VoteData {
    pub proposed: BlockInfo,
    pub parent: BlockInfo,
}

impl Clone for VoteData {
    fn clone(&self) -> (copy: VoteData)
        ensures
            copy == *self,
    {
        VoteData { proposed: self.proposed.clone(), parent: self.parent.clone() }
    }
}

/// The digest of vote data, which the ledger info of a vote carries.
pub uninterp spec fn vote_data_digest(data: VoteData) -> [u8; 32];

/// The digest that diem_crypto's `DefaultHasher` for the type name `VoteData`
/// gives on the binary form, by bcs, of the two block infos as diem_types
/// has them, the proposed one first. The claim is only that the digest is a
/// function of the vote data.
#[verifier::external_body]
pub(crate) fn hash_vote_data(data: &VoteData) -> (digest: HashValue)
    ensures
        digest.bytes == vote_data_digest(*data),
{
    let chain = |c: &BlockInfo| {
        let next = c.next_epoch_state.as_ref().map(|s| ChainEpochState { epoch: s.epoch, verifier: s.verifier.clone() });
        let id = ChainHash::new(c.id.bytes);
        let state = ChainHash::new(c.executed_state_id.bytes);
        ChainBlockInfo::new(c.epoch, c.round, id, state, c.version, c.timestamp_usecs, next)
    };
    let mut hasher = DefaultHasher::new(b"VoteData");
    hasher.update(&bcs::to_bytes(&(chain(&data.proposed), chain(&data.parent))).unwrap());
    HashValue { bytes: *hasher.finish().as_ref() }
}

impl VoteData {
    /// The digest of this vote data.
    pub open spec fn spec_hash(&self) -> HashValue {
        HashValue { bytes: vote_data_digest(*self) }
    }

    /// The digest of this vote data.
    pub fn hash(&self) -> (digest: HashValue)
        ensures
            digest == self.spec_hash(),
    {
        hash_vote_data(self)
    }
}

/// A quorum certificate, as far as the rules read it: the vote data that a
/// quorum signed. Its `proposed` block is the certified block.
#[derive(Debug, PartialEq, Eq)]
pub struct QuorumCert {
    pub vote_data: VoteData,
}

impl QuorumCert {
    /// The block that the quorum voted for.
    pub open spec fn spec_certified_block(&self) -> BlockInfo {
        self.vote_data.proposed
    }

    /// The parent of the certified block.
    pub open spec fn spec_parent_block(&self) -> BlockInfo {
        self.vote_data.parent
    }

    /// The block that the quorum voted for.
    pub fn certified_block(&self) -> (info: &BlockInfo)
        ensures
            *info == self.spec_certified_block(),
    {
        &self.vote_data.proposed
    }

    /// The parent of the certified block.
    pub fn parent_block(&self) -> (info: &BlockInfo)
        ensures
            *info == self.spec_parent_block(),
    {
        &self.vote_data.parent
    }
}

/// The signed part of a block. `author` is `None` for a block that nobody proposed.
#[derive(Debug, PartialEq, Eq)]
pub struct BlockData {
    pub epoch: u64,
    pub round: u64,
    pub timestamp_usecs: u64,
    pub quorum_cert: QuorumCert,
    pub author: Option<AccountAddress>,
}

/// A block: its identifier, its data, and the proposer's signature if it has one.
#[derive(Debug, PartialEq, Eq)]
pub struct Block {
    pub id: HashValue,
    pub block_data: BlockData,
    pub signature: Option<Signature>,
}

impl Block {
    /// The block info of this block for a given result of its execution.
    pub open spec fn spec_gen_block_info(
        &self,
        executed_state_id: HashValue,
        version: u64,
        next_epoch_state: Option<EpochState>,
    ) -> BlockInfo {
        BlockInfo {
            epoch: self.block_data.epoch,
            round: self.block_data.round,
            id: self.id,
            executed_state_id,
            version,
            timestamp_usecs: self.block_data.timestamp_usecs,
            next_epoch_state,
        }
    }

    /// The block info of this block for a given result of its execution.
    pub fn gen_block_info(
        &self,
        executed_state_id: HashValue,
        version: u64,
        next_epoch_state: Option<EpochState>,
    ) -> (info: BlockInfo)
        ensures
            info == self.spec_gen_block_info(executed_state_id, version, next_epoch_state),
    {
        BlockInfo {
            epoch: self.block_data.epoch,
            round: self.block_data.round,
            id: self.id,
            executed_state_id,
            version,
            timestamp_usecs: self.block_data.timestamp_usecs,
            next_epoch_state,
        }
    }
}

/// A block put up for a vote, with the proof that its execution extends the
/// accumulator of its parent, and the epoch that follows if it ends one.
#[derive(Debug, PartialEq, Eq)]
pub struct VoteProposal {
    pub accumulator_extension_proof: AccumulatorExtensionProof,
    pub block: Block,
    pub next_epoch_state: Option<EpochState>,
}

impl VoteProposal {
    /// The vote data for the block with the given result of its execution.
    pub open spec fn spec_vote_data(&self, executed_state_id: HashValue, version: u64) -> VoteData {
        VoteData {
            proposed: self.block.spec_gen_block_info(executed_state_id, version, self.next_epoch_state),
            parent: self.block.block_data.quorum_cert.spec_certified_block(),
        }
    }

    /// The vote data for the block as executed: the accumulator has the given
    /// root and version after it.
    pub fn vote_data_with_extension_proof(
        &self,
        root_hash: HashValue,
        version: u64,
    ) -> (data: VoteData)
        ensures
            data == self.spec_vote_data(root_hash, version),
    {
        let next = match &self.next_epoch_state {
            Some(state) => Some(state.clone()),
            None => None,
        };
        VoteData {
            proposed: self.block.gen_block_info(root_hash, version, next),
            parent: self.block.block_data.quorum_cert.certified_block().clone(),
        }
    }

    /// The vote data for the block as ordered only: the state is the
    /// placeholder, the version 0.
    pub fn vote_data_ordering_only(&self) -> (data: VoteData)
        ensures
            data == self.spec_vote_data(HashValue::spec_placeholder(), 0),
    {
        self.vote_data_with_extension_proof(crate::crypto::accumulator_placeholder(), 0)
    }
}

/// A vote proposal, with the signature of the execution layer if it gave one.
#[derive(Debug, PartialEq, Eq)]
pub struct MaybeSignedVoteProposal {
    pub vote_proposal: VoteProposal,
    pub signature: Option<Signature>,
}

/// A vote: what it is cast on, who casts it, the ledger info it commits to,
/// and the voter's signature on that ledger info.
#[derive(Debug, PartialEq, Eq)]
pub struct Vote {
    pub vote_data: VoteData,
    pub author: AccountAddress,
    pub ledger_info: LedgerInfo,
    pub signature: Signature,
}

impl Clone for Vote {
    fn clone(&self) -> (copy: Vote)
        ensures
            copy == *self,
    {
        Vote {
            vote_data: self.vote_data.clone(),
            author: self.author,
            ledger_info: self.ledger_info.clone(),
            signature: self.signature,
        }
    }
}

impl Vote {
    /// A vote made of its four parts.
    pub fn new_with_signature(
        vote_data: VoteData,
        author: AccountAddress,
        ledger_info: LedgerInfo,
        signature: Signature,
    ) -> (vote: Vote)
        ensures
            vote == (Vote { vote_data, author, ledger_info, signature }),
    {
        Vote { vote_data, author, ledger_info, signature }
    }
}

/// The statement that a round of an epoch timed out.
#[derive(Clone, Copy, Debug, PartialEq, Eq)]
pub struct Timeout {
    pub epoch: u64,
    pub round: u64,
}

/// The bytes that a signature on a timeout covers.
pub uninterp spec fn timeout_message(epoch: u64, round: u64) -> Seq<u8>;

/// The bytes that a signature on a timeout with a quorum certificate covers:
/// they hold the round that the certificate certifies in its place.
pub uninterp spec fn two_chain_timeout_message(epoch: u64, round: u64, hqc_round: u64) -> Seq<u8>;

/// The seed that diem_crypto's `DefaultHasher::prefixed_hash` gives for the
/// type name `Timeout`, then epoch and round in their binary form by bcs.
/// The claim is only that the bytes are a function of epoch and round.
#[verifier::external_body]
pub(crate) fn timeout_signing_message(epoch: u64, round: u64) -> (message: Vec<u8>)
    ensures
        message@ == timeout_message(epoch, round),
{
    let mut message = DefaultHasher::prefixed_hash(b"Timeout").to_vec();
    message.extend(bcs::to_bytes(&(epoch, round)).unwrap());
    message
}

/// The seed that diem_crypto's `DefaultHasher::prefixed_hash` gives for the
/// type name `TimeoutSigningRepr`, then epoch, round and certified round in
/// their binary form by bcs. The claim is only that the bytes are a function
/// of the three numbers.
#[verifier::external_body]
pub(crate) fn two_chain_timeout_signing_message(epoch: u64, round: u64, hqc_round: u64) -> (message: Vec<u8>)
    ensures
        message@ == two_chain_timeout_message(epoch, round, hqc_round),
{
    let mut message = DefaultHasher::prefixed_hash(b"TimeoutSigningRepr").to_vec();
    message.extend(bcs::to_bytes(&(epoch, round, hqc_round)).unwrap());
    message
}

impl Timeout {
    /// The bytes that a signature on this timeout covers.
    pub open spec fn spec_signing_message(&self) -> Seq<u8> {
        timeout_message(self.epoch, self.round)
    }

    /// The bytes that a signature on this timeout covers.
    pub fn signing_message(&self) -> (message: Vec<u8>)
        ensures
            message@ == self.spec_signing_message(),
    {
        timeout_signing_message(self.epoch, self.round)
    }
}

/// The statement that a round timed out, with the highest quorum certificate
/// that the signer knows.
#[derive(Debug, PartialEq, Eq)]
pub struct TwoChainTimeout {
    pub epoch: u64,
    pub round: u64,
    pub quorum_cert: QuorumCert,
}

impl TwoChainTimeout {
    /// The round that the timeout's quorum certificate certifies.
    pub open spec fn spec_hqc_round(&self) -> u64 {
        self.quorum_cert.spec_certified_block().round
    }

    /// The round that the timeout's quorum certificate certifies.
    pub fn hqc_round(&self) -> (round: u64)
        ensures
            round == self.spec_hqc_round(),
    {
        self.quorum_cert.vote_data.proposed.round
    }

    /// The bytes that a signature on this timeout covers.
    pub open spec fn spec_signing_message(&self) -> Seq<u8> {
        two_chain_timeout_message(self.epoch, self.round, self.spec_hqc_round())
    }

    /// The bytes that a signature on this timeout covers.
    pub fn signing_message(&self) -> (message: Vec<u8>)
        ensures
            message@ == self.spec_signing_message(),
    {
        two_chain_timeout_signing_message(self.epoch, self.round, self.hqc_round())
    }
}

/// A quorum of timeouts for one round, as far as the rules read it: the
/// timeout among them that carries the highest quorum certificate.
#[derive(Debug, PartialEq, Eq)]
pub struct TwoChainTimeoutCertificate {
    pub timeout: TwoChainTimeout,
}

/// The voting state of a validator, which outlives the process.
#[derive(Debug, PartialEq, Eq)]
pub struct SafetyData {
    pub epoch: u64,
    pub last_voted_round: u64,
    pub preferred_round: u64,
    pub one_chain_round: u64,
    pub last_vote: Option<Vote>,
}

impl Clone for SafetyData {
    fn clone(&self) -> (copy: SafetyData)
        ensures
            copy == *self,
    {
        let last_vote = match &self.last_vote {
            Some(vote) => Some(vote.clone()),
            None => None,
        };
        SafetyData {
            epoch: self.epoch,
            last_voted_round: self.last_voted_round,
            preferred_round: self.preferred_round,
            one_chain_round: self.one_chain_round,
            last_vote,
        }
    }
}

impl SafetyData {
    /// A voting state made of its five parts.
    pub fn new(
        epoch: u64,
        last_voted_round: u64,
        preferred_round: u64,
        one_chain_round: u64,
        last_vote: Option<Vote>,
    ) -> (data: SafetyData)
        ensures
            data == (SafetyData { epoch, last_voted_round, preferred_round, one_chain_round, last_vote }),
    {
        SafetyData { epoch, last_voted_round, preferred_round, one_chain_round, last_vote }
    }

    /// The last vote, where there is one, is for no round above the last
    /// voted round.
    pub open spec fn well_formed(&self) -> bool {
        self.last_vote.is_some() ==> self.last_vote.unwrap().vote_data.proposed.round <= self.last_voted_round
    }

    /// The state at the start of an epoch: no round voted on, nothing seen.
    pub open spec fn fresh(epoch: u64) -> SafetyData {
        SafetyData { epoch, last_voted_round: 0, preferred_round: 0, one_chain_round: 0, last_vote: None }
    }
}

} // verus!
