use crate::consensus::Block;
use crate::consensus::MaybeSignedVoteProposal;
use crate::consensus::SafetyData;
use crate::consensus::TwoChainTimeout;
use crate::consensus::TwoChainTimeoutCertificate;
use crate::consensus::Vote;
use crate::consensus::VoteData;
use crate::crypto::HashValue;
use crate::crypto::Signature;
use crate::error::outcome;
use crate::error::Error;
use crate::error::ErrorView;
use crate::ledger::BlockInfo;
use crate::ledger::LedgerInfo;
use crate::safety_rules::epoch_rule;
use crate::safety_rules::last_vote_round_rule;
use crate::safety_rules::next_round;
use crate::safety_rules::observed;
use crate::safety_rules::ProposalChecks;
use crate::safety_rules::SafetyRules;
use crate::storage::PersistentSafetyStorage;
use crate::vote::replayed_vote;
use vstd::prelude::*;

verus! {

/// The round of a timeout certificate, and 0 where there is none.
pub open spec fn certificate_round(timeout_cert: Option<&TwoChainTimeoutCertificate>) -> u64 {
    match timeout_cert {
        Some(certificate) => certificate.timeout.round,
        None => 0,
    }
}

/// The highest certified round that the timeouts of a certificate know, and
/// 0 where there is none.
pub open spec fn certificate_hqc_round(timeout_cert: Option<&TwoChainTimeoutCertificate>) -> u64 {
    match timeout_cert {
        Some(certificate) => certificate.timeout.spec_hqc_round(),
        None => 0,
    }
}

/// A block may be voted on where it follows the block that its quorum
/// certificate certifies, or where it follows the round of the timeout
/// certificate and its quorum certificate is not older than any that the
/// timeouts knew. The rule takes the round after the certified round and the
/// round after the timeout certificate's: where either of the two is the
/// last round there is, it is an error, as in the commit rule.
pub open spec fn safe_to_vote_rule(
    block: &Block,
    timeout_cert: Option<&TwoChainTimeoutCertificate>,
) -> Result<(), ErrorView> {
    let round = block.block_data.round;
    let qc_round = block.block_data.quorum_cert.spec_certified_block().round;
    let tc_round = certificate_round(timeout_cert);
    let hqc_round = certificate_hqc_round(timeout_cert);
    if qc_round == u64::MAX {
        Err(ErrorView::IncorrectRound(qc_round))
    } else if tc_round == u64::MAX {
        Err(ErrorView::IncorrectRound(tc_round))
    } else if round == qc_round + 1 || (round == tc_round + 1 && qc_round >= hqc_round) {
        Ok(())
    } else {
        Err(ErrorView::NotSafeToVote(round, qc_round, tc_round, hqc_round))
    }
}

/// A round may be timed out where it follows the round of the timeout's
/// quorum certificate or that of the timeout certificate, and the quorum
/// certificate is not older than the highest one seen. The rule takes the
/// round after each of the two certificates' rounds: where either is the
/// last round there is, it is an error, as in the commit rule.
pub open spec fn safe_to_timeout_rule(
    timeout: &TwoChainTimeout,
    timeout_cert: Option<&TwoChainTimeoutCertificate>,
    data: SafetyData,
) -> Result<(), ErrorView> {
    let round = timeout.round;
    let qc_round = timeout.spec_hqc_round();
    let tc_round = certificate_round(timeout_cert);
    if qc_round == u64::MAX {
        Err(ErrorView::IncorrectRound(qc_round))
    } else if tc_round == u64::MAX {
        Err(ErrorView::IncorrectRound(tc_round))
    } else if (round == qc_round + 1 || round == tc_round + 1) && qc_round >= data.one_chain_round {
        Ok(())
    } else {
        Err(ErrorView::NotSafeToTimeout(round, qc_round, tc_round, data.one_chain_round))
    }
}

/// The ledger info of a vote for a block by the rule of two blocks in a
/// row: where the block follows the block that its quorum certificate
/// certifies, the vote commits that block; else it commits nothing.
pub open spec fn two_chain_commit_rule(
    proposed_block: &Block,
    consensus_data_hash: HashValue,
) -> Result<LedgerInfo, ErrorView> {
    let block1 = proposed_block.block_data.round;
    let block0 = proposed_block.block_data.quorum_cert.spec_certified_block().round;
    if block0 == u64::MAX {
        Err(ErrorView::IncorrectRound(block0))
    } else if block0 + 1 == block1 {
        Ok(LedgerInfo { commit_info: proposed_block.block_data.quorum_cert.spec_certified_block(), consensus_data_hash })
    } else {
        Ok(LedgerInfo { commit_info: BlockInfo::spec_empty(), consensus_data_hash })
    }
}

impl SafetyRules {
    /// A timeout certificate, where there is one, needs an epoch to be
    /// checked in, and must have passed the check of its signatures.
    pub open spec fn spec_verify_timeout_cert(
        &self,
        timeout_cert: Option<&TwoChainTimeoutCertificate>,
        timeout_cert_check: &Result<(), String>,
    ) -> Result<(), ErrorView> {
        if timeout_cert.is_none() {
            Ok(())
        } else if self.epoch_state.is_none() {
            Err(ErrorView::NotInitialized("epoch_state"@))
        } else if timeout_cert_check.is_err() {
            Err(ErrorView::InvalidTimeoutCertificate(timeout_cert_check->Err_0@))
        } else {
            Ok(())
        }
    }

    /// The vote on a proposal by the two-chain rules, in a voting state
    /// that did not vote in the proposal's round yet, and the voting state
    /// after it.
    pub open spec fn spec_new_vote_two_chain(
        &self,
        proposal: &MaybeSignedVoteProposal,
        timeout_cert: Option<&TwoChainTimeoutCertificate>,
        vote_data: VoteData,
        data: SafetyData,
    ) -> Result<(Vote, SafetyData), ErrorView> {
        let block = proposal.vote_proposal.block;
        let voted = last_vote_round_rule(block.block_data.round, data);
        let safe = safe_to_vote_rule(&block, timeout_cert);
        let ledger_info = two_chain_commit_rule(&block, vote_data.spec_hash());
        let signature = self.spec_sign_ledger_info(ledger_info->Ok_0);
        if voted.is_err() {
            Err(voted->Err_0)
        } else if safe.is_err() {
            Err(safe->Err_0)
        } else if ledger_info.is_err() {
            Err(ledger_info->Err_0)
        } else if signature.is_err() {
            Err(signature->Err_0)
        } else {
            let vote = Vote {
                vote_data,
                author: self.validator_signer.unwrap().spec_author(),
                ledger_info: ledger_info->Ok_0,
                signature: signature->Ok_0,
            };
            Ok((vote, SafetyData { last_vote: Some(vote), ..observed(&block.block_data.quorum_cert, voted->Ok_0) }))
        }
    }

    /// The answer to a vote proposal by the two-chain rules, and the engine
    /// after it. As with the classic rules, a round that was voted on gets
    /// the same vote again, a new vote is stored before it is given out,
    /// and an error changes nothing.
    pub open spec fn spec_construct_and_sign_vote_two_chain(
        &self,
        proposal: &MaybeSignedVoteProposal,
        timeout_cert: Option<&TwoChainTimeoutCertificate>,
        checks: &ProposalChecks,
        timeout_cert_check: &Result<(), String>,
    ) -> (Result<Vote, ErrorView>, SafetyRules) {
        let verified = self.spec_verify_proposal(proposal, checks);
        let certified = self.spec_verify_timeout_cert(timeout_cert, timeout_cert_check);
        let data = self.persistent_storage.safety_data.unwrap();
        let replayed = replayed_vote(data, proposal.vote_proposal.block.block_data.round);
        let voted = self.spec_new_vote_two_chain(proposal, timeout_cert, verified->Ok_0, data);
        if self.validator_signer.is_none() {
            (Err(ErrorView::NotInitialized("validator_signer"@)), *self)
        } else if verified.is_err() {
            (Err(verified->Err_0), *self)
        } else if certified.is_err() {
            (Err(certified->Err_0), *self)
        } else if replayed.is_some() {
            (Ok(replayed.unwrap()), *self)
        } else if voted.is_err() {
            (Err(voted->Err_0), *self)
        } else {
            (
                Ok((voted->Ok_0).0),
                SafetyRules {
                    persistent_storage: PersistentSafetyStorage {
                        safety_data: Some((voted->Ok_0).1),
                        ..self.persistent_storage
                    },
                    ..*self
                },
            )
        }
    }

    /// The answer to a timeout that carries a quorum certificate, and the
    /// engine after it. Where the round is above the last voted round it
    /// becomes that round, and the storage holds it before anything is
    /// signed: it stays even if signing fails.
    pub open spec fn spec_sign_timeout_with_qc(
        &self,
        timeout: &TwoChainTimeout,
        timeout_cert: Option<&TwoChainTimeoutCertificate>,
        quorum_cert_check: &Result<(), String>,
        timeout_cert_check: &Result<(), String>,
    ) -> (Result<Signature, ErrorView>, SafetyRules) {
        let data = self.persistent_storage.spec_safety_data();
        let epoch = epoch_rule(timeout.epoch, data->Ok_0);
        let quorum_cert = self.spec_verify_qc(*quorum_cert_check);
        let certified = self.spec_verify_timeout_cert(timeout_cert, timeout_cert_check);
        let safe = safe_to_timeout_rule(timeout, timeout_cert, data->Ok_0);
        if self.validator_signer.is_none() {
            (Err(ErrorView::NotInitialized("validator_signer"@)), *self)
        } else if data.is_err() {
            (Err(data->Err_0), *self)
        } else if epoch.is_err() {
            (Err(epoch->Err_0), *self)
        } else if quorum_cert.is_err() {
            (Err(quorum_cert->Err_0), *self)
        } else if certified.is_err() {
            (Err(certified->Err_0), *self)
        } else if safe.is_err() {
            (Err(safe->Err_0), *self)
        } else if timeout.round < (data->Ok_0).last_voted_round {
            (Err(ErrorView::IncorrectLastVotedRound(timeout.round, (data->Ok_0).last_voted_round)), *self)
        } else if timeout.round > (data->Ok_0).last_voted_round {
            (
                self.spec_sign(timeout.spec_signing_message()),
                SafetyRules {
                    persistent_storage: PersistentSafetyStorage {
                        safety_data: Some(SafetyData { last_voted_round: timeout.round, ..data->Ok_0 }),
                        ..self.persistent_storage
                    },
                    ..*self
                },
            )
        } else {
            (self.spec_sign(timeout.spec_signing_message()), *self)
        }
    }

    /// A timeout certificate, where there is one, needs an epoch to be
    /// checked in, and must have passed the check of its signatures.
    pub fn verify_timeout_cert(
        &self,
        timeout_cert: Option<&TwoChainTimeoutCertificate>,
        timeout_cert_check: &Result<(), String>,
    ) -> (r: Result<(), Error>)
        ensures
            outcome(r) == self.spec_verify_timeout_cert(timeout_cert, timeout_cert_check),
    {
        if timeout_cert.is_some() {
            self.epoch_state()?;
            match timeout_cert_check {
                Ok(_) => {},
                Err(text) => {
                    return Err(Error::InvalidTimeoutCertificate(text.clone()));
                },
            }
        }
        Ok(())
    }

    /// The safety rule for timeouts of the two-chain protocol.
    pub fn safe_to_timeout(
        &self,
        timeout: &TwoChainTimeout,
        maybe_tc: Option<&TwoChainTimeoutCertificate>,
        safety_data: &SafetyData,
    ) -> (r: Result<(), Error>)
        ensures
            outcome(r) == safe_to_timeout_rule(timeout, maybe_tc, *safety_data),
    {
        let round = timeout.round;
        let qc_round = timeout.hqc_round();
        let tc_round = match maybe_tc {
            Some(certificate) => certificate.timeout.round,
            None => 0,
        };
        let after_qc = next_round(qc_round)?;
        let after_tc = next_round(tc_round)?;
        if (round == after_qc || round == after_tc) && qc_round >= safety_data.one_chain_round {
            Ok(())
        } else {
            Err(Error::NotSafeToTimeout(round, qc_round, tc_round, safety_data.one_chain_round))
        }
    }

    /// The safety rule for votes of the two-chain protocol.
    pub fn safe_to_vote(
        &self,
        block: &Block,
        maybe_tc: Option<&TwoChainTimeoutCertificate>,
    ) -> (r: Result<(), Error>)
        ensures
            outcome(r) == safe_to_vote_rule(block, maybe_tc),
    {
        let round = block.block_data.round;
        let qc_round = block.block_data.quorum_cert.certified_block().round;
        let tc_round = match maybe_tc {
            Some(certificate) => certificate.timeout.round,
            None => 0,
        };
        let hqc_round = match maybe_tc {
            Some(certificate) => certificate.timeout.hqc_round(),
            None => 0,
        };
        let after_qc = next_round(qc_round)?;
        let after_tc = next_round(tc_round)?;
        if round == after_qc || (round == after_tc && qc_round >= hqc_round) {
            Ok(())
        } else {
            Err(Error::NotSafeToVote(round, qc_round, tc_round, hqc_round))
        }
    }

    /// The ledger info of a vote for a block, by the rule of two blocks in a row.
    pub fn construct_ledger_info_2chain(
        &self,
        proposed_block: &Block,
        consensus_data_hash: HashValue,
    ) -> (r: Result<LedgerInfo, Error>)
        ensures
            outcome(r) == two_chain_commit_rule(proposed_block, consensus_data_hash),
    {
        let block1 = proposed_block.block_data.round;
        let block0 = proposed_block.block_data.quorum_cert.certified_block().round;

        let commit = next_round(block0)? == block1;

        let commit_info = if commit {
            proposed_block.block_data.quorum_cert.certified_block().clone()
        } else {
            BlockInfo::empty()
        };
        Ok(LedgerInfo::new(commit_info, consensus_data_hash))
    }

    /// Signs a timeout that carries a quorum certificate.
    /// `quorum_cert_check` and `timeout_cert_check` say whether the
    /// signatures of the two certificates hold.
    pub fn guarded_sign_timeout_with_qc(
        &mut self,
        timeout: &TwoChainTimeout,
        timeout_cert: Option<&TwoChainTimeoutCertificate>,
        quorum_cert_check: &Result<(), String>,
        timeout_cert_check: &Result<(), String>,
    ) -> (r: Result<Signature, Error>)
        ensures
            (outcome(r), *final(self)) == old(self).spec_sign_timeout_with_qc(
                timeout,
                timeout_cert,
                quorum_cert_check,
                timeout_cert_check,
            ),
    {
        self.signer()?;
        let mut safety_data = self.persistent_storage.safety_data()?;
        self.verify_epoch(timeout.epoch, &safety_data)?;
        self.verify_qc(quorum_cert_check)?;
        self.verify_timeout_cert(timeout_cert, timeout_cert_check)?;

        self.safe_to_timeout(timeout, timeout_cert, &safety_data)?;
        if timeout.round < safety_data.last_voted_round {
            return Err(Error::IncorrectLastVotedRound(timeout.round, safety_data.last_voted_round));
        }
        if timeout.round > safety_data.last_voted_round {
            self.verify_and_update_last_vote_round(timeout.round, &mut safety_data)?;
            self.persistent_storage.set_safety_data(safety_data)?;
        }
        let signature = self.sign(&timeout.signing_message())?;
        Ok(signature)
    }

    /// Votes on a proposal by the two-chain rules.
    pub fn guarded_construct_and_sign_vote_two_chain(
        &mut self,
        maybe_signed_vote_proposal: &MaybeSignedVoteProposal,
        timeout_cert: Option<&TwoChainTimeoutCertificate>,
        checks: &ProposalChecks,
        timeout_cert_check: &Result<(), String>,
    ) -> (r: Result<Vote, Error>)
        ensures
            (outcome(r), *final(self)) == old(self).spec_construct_and_sign_vote_two_chain(
                maybe_signed_vote_proposal,
                timeout_cert,
                checks,
                timeout_cert_check,
            ),
    {
        // Exit early if we cannot sign
        self.signer()?;

        let vote_data = self.verify_proposal(maybe_signed_vote_proposal, checks)?;
        self.verify_timeout_cert(timeout_cert, timeout_cert_check)?;
        let proposed_block = &maybe_signed_vote_proposal.vote_proposal.block;
        let mut safety_data = self.persistent_storage.safety_data()?;

        // A round that was voted on gets the same vote again.
        if let Some(vote) = &safety_data.last_vote {
            if vote.vote_data.proposed.round == proposed_block.block_data.round {
                return Ok(vote.clone());
            }
        }

        // Two voting rules
        self.verify_and_update_last_vote_round(proposed_block.block_data.round, &mut safety_data)?;
        self.safe_to_vote(proposed_block, timeout_cert)?;

        // Record 1-chain data
        self.observe_qc(&proposed_block.block_data.quorum_cert, &mut safety_data);

        // Construct and sign vote
        let author = self.signer()?.author();
        let ledger_info = self.construct_ledger_info_2chain(proposed_block, vote_data.hash())?;
        let signature = self.sign_ledger_info(&ledger_info)?;
        let vote = Vote::new_with_signature(vote_data, author, ledger_info, signature);

        safety_data.last_vote = Some(vote.clone());
        self.persistent_storage.set_safety_data(safety_data)?;

        Ok(vote)
    }
}

} // verus!
