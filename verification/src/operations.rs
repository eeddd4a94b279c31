use crate::consensus::BlockData;
use crate::consensus::MaybeSignedVoteProposal;
use crate::consensus::Timeout;
use crate::consensus::TwoChainTimeout;
use crate::consensus::TwoChainTimeoutCertificate;
use crate::consensus::Vote;
use crate::consensus_state::ConsensusState;
use crate::crypto::Signature;
use crate::error::outcome;
use crate::error::Error;
use crate::ledger::LedgerInfo;
use crate::ledger::LedgerInfoWithSignatures;
use crate::safety_rules::ProposalChecks;
use crate::safety_rules::SafetyRules;
use diem_types::epoch_change::EpochChangeProof;
use vstd::prelude::*;

verus! {

/// The operations that a validator offers to the consensus protocol. Each
/// gives the answer of the guarded operation of the same name, unchanged.
impl SafetyRules {
    /// Reports what the engine holds.
    pub fn consensus_state(&mut self) -> (r: Result<ConsensusState, Error>)
        ensures
            outcome(r) == old(self).spec_consensus_state(),
            *final(self) == *old(self),
    {
        self.guarded_consensus_state()
    }

    /// Brings the engine to the epoch that an epoch change proof leads to.
    pub fn initialize(&mut self, proof: &EpochChangeProof) -> (r: Result<(), Error>)
        ensures
            (outcome(r), *final(self)) == old(self).spec_initialize(proof),
    {
        self.guarded_initialize(proof)
    }

    /// Votes on a proposal by the classic rules.
    pub fn construct_and_sign_vote(
        &mut self,
        maybe_signed_vote_proposal: &MaybeSignedVoteProposal,
        checks: &ProposalChecks,
    ) -> (r: Result<Vote, Error>)
        ensures
            (outcome(r), *final(self)) == old(self).spec_construct_and_sign_vote(maybe_signed_vote_proposal, checks),
    {
        self.guarded_construct_and_sign_vote(maybe_signed_vote_proposal, checks)
    }

    /// Signs a block that this validator proposes.
    pub fn sign_proposal(
        &mut self,
        block_data: &BlockData,
        quorum_cert_check: &Result<(), String>,
        signing_message: &Vec<u8>,
    ) -> (r: Result<Signature, Error>)
        ensures
            outcome(r) == old(self).spec_sign_proposal(block_data, quorum_cert_check, signing_message@),
            *final(self) == *old(self),
    {
        self.guarded_sign_proposal(block_data, quorum_cert_check, signing_message)
    }

    /// Signs a timeout.
    pub fn sign_timeout(&mut self, timeout: &Timeout) -> (r: Result<Signature, Error>)
        ensures
            (outcome(r), *final(self)) == old(self).spec_sign_timeout(timeout),
    {
        self.guarded_sign_timeout(timeout)
    }

    /// Signs a timeout that carries a quorum certificate.
    pub fn sign_timeout_with_qc(
        &mut self,
        timeout: &TwoChainTimeout,
        timeout_cert: Option<&TwoChainTimeoutCertificate>,
        quorum_cert_check: &Result<(), String>,
        timeout_cert_check: &Result<(), String>,
    ) -> (r: Result<Signature, Error>)
        ensures
            (outcome(r), *final(self)) == old(self).spec_sign_timeout_with_qc(
                timeout,
                timeout_cert,
                quorum_cert_check,
                timeout_cert_check,
            ),
    {
        self.guarded_sign_timeout_with_qc(
            timeout,
            timeout_cert,
            quorum_cert_check,
            timeout_cert_check,
        )
    }

    /// Votes on a proposal by the two-chain rules.
    pub fn construct_and_sign_vote_two_chain(
        &mut self,
        maybe_signed_vote_proposal: &MaybeSignedVoteProposal,
        timeout_cert: Option<&TwoChainTimeoutCertificate>,
        checks: &ProposalChecks,
        timeout_cert_check: &Result<(), String>,
    ) -> (r: Result<Vote, Error>)
        ensures
            (outcome(r), *final(self)) == old(self).spec_construct_and_sign_vote_two_chain(
                maybe_signed_vote_proposal,
                timeout_cert,
                checks,
                timeout_cert_check,
            ),
    {
        self.guarded_construct_and_sign_vote_two_chain(
            maybe_signed_vote_proposal,
            timeout_cert,
            checks,
            timeout_cert_check,
        )
    }

    /// Signs the ledger info of an executed block.
    pub fn sign_commit_vote(
        &mut self,
        ledger_info: LedgerInfoWithSignatures,
        new_ledger_info: LedgerInfo,
    ) -> (r: Result<Signature, Error>)
        ensures
            outcome(r) == old(self).spec_sign_commit_vote(&ledger_info, &new_ledger_info),
            *final(self) == *old(self),
    {
        self.guarded_sign_commit_vote(ledger_info, new_ledger_info)
    }
}

} // verus!
