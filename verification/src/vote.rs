use crate::accumulator::accumulator_extension;
use crate::accumulator::verify_extension;
use crate::consensus::MaybeSignedVoteProposal;
use crate::consensus::SafetyData;
use crate::consensus::Vote;
use crate::consensus::VoteData;
use crate::consensus::VoteProposal;
use crate::crypto::ed25519_check;
use crate::crypto::verify_bytes;
use crate::crypto::HashValue;
use crate::crypto::PublicKey;
use crate::error::outcome;
use crate::error::Error;
use crate::error::ErrorView;
use crate::safety_rules::commit_rule;
use crate::safety_rules::epoch_rule;
use crate::safety_rules::last_vote_round_rule;
use crate::safety_rules::preferred_round_rule;
use crate::safety_rules::ProposalChecks;
use crate::safety_rules::SafetyRules;
use crate::storage::PersistentSafetyStorage;
use vstd::prelude::*;

verus! {

/// The vote data of a proposal whose execution extends the accumulator of
/// the certified block: the proof must hold against that block's state, and
/// the proposed block then has the root and the version of the grown
/// accumulator.
pub open spec fn extension_rule(vote_proposal: &VoteProposal) -> Result<VoteData, ErrorView> {
    let proof = vote_proposal.accumulator_extension_proof;
    let parent_state = vote_proposal.block.block_data.quorum_cert.spec_certified_block().executed_state_id;
    if !proof.fits() {
        Err(ErrorView::InvalidAccumulatorExtension("The accumulator cannot hold that many leaves"@))
    } else {
        match accumulator_extension(proof.frozen_subtree_roots@, proof.num_leaves, proof.leaves@, parent_state) {
            Ok(grown) => Ok(vote_proposal.spec_vote_data(grown.0, grown.1)),
            Err(text) => Err(ErrorView::InvalidAccumulatorExtension(text)),
        }
    }
}

/// The vote that was given last, where it was given for this round.
pub open spec fn replayed_vote(data: SafetyData, round: u64) -> Option<Vote> {
    match data.last_vote {
        Some(vote) => if vote.vote_data.proposed.round == round {
            Some(vote)
        } else {
            None
        },
        None => None,
    }
}

impl SafetyRules {
    /// The key under which proposals must be signed by the execution layer:
    /// the key held, unless execution is decoupled.
    pub open spec fn spec_execution_key(&self) -> Option<PublicKey> {
        if self.decoupled_execution {
            None
        } else {
            self.execution_public_key
        }
    }

    /// Whether a proposal may be voted on at all, and on what the vote is cast.
    pub open spec fn spec_verify_proposal(
        &self,
        proposal: &MaybeSignedVoteProposal,
        checks: &ProposalChecks,
    ) -> Result<VoteData, ErrorView> {
        let vote_proposal = proposal.vote_proposal;
        let block = vote_proposal.block;
        let signed = match (self.spec_execution_key(), proposal.signature) {
            (Some(key), Some(signature)) => ed25519_check(key.bytes, checks.signing_message@, signature.bytes),
            _ => Ok(()),
        };
        let data = self.persistent_storage.spec_safety_data();
        if self.spec_execution_key().is_some() && proposal.signature.is_none() {
            Err(ErrorView::VoteProposalSignatureNotFound)
        } else if signed.is_err() {
            Err(ErrorView::InternalError(signed->Err_0))
        } else if data.is_err() {
            Err(data->Err_0)
        } else if epoch_rule(block.block_data.epoch, data->Ok_0).is_err() {
            Err(epoch_rule(block.block_data.epoch, data->Ok_0)->Err_0)
        } else if self.spec_verify_qc(checks.quorum_cert).is_err() {
            Err(self.spec_verify_qc(checks.quorum_cert)->Err_0)
        } else if checks.block_signature.is_err() {
            Err(ErrorView::InvalidProposal(checks.block_signature->Err_0@))
        } else if checks.well_formed.is_err() {
            Err(ErrorView::InvalidProposal(checks.well_formed->Err_0@))
        } else if self.decoupled_execution {
            Ok(vote_proposal.spec_vote_data(HashValue::spec_placeholder(), 0))
        } else {
            extension_rule(&vote_proposal)
        }
    }

    /// The vote on a proposal in a voting state that did not vote in the
    /// proposal's round yet, and the voting state after it: both voting rules
    /// must hold, the ledger info follows the commit rule, and the signer
    /// signs it.
    pub open spec fn spec_new_vote(
        &self,
        proposal: &MaybeSignedVoteProposal,
        vote_data: VoteData,
        data: SafetyData,
    ) -> Result<(Vote, SafetyData), ErrorView> {
        let block = proposal.vote_proposal.block;
        let seen = preferred_round_rule(&block.block_data.quorum_cert, data);
        let voted = last_vote_round_rule(block.block_data.round, seen->Ok_0);
        let ledger_info = commit_rule(&block, vote_data.spec_hash());
        let signature = self.spec_sign_ledger_info(ledger_info->Ok_0);
        if seen.is_err() {
            Err(seen->Err_0)
        } else if voted.is_err() {
            Err(voted->Err_0)
        } else if ledger_info.is_err() {
            Err(ledger_info->Err_0)
        } else if signature.is_err() {
            Err(signature->Err_0)
        } else {
            let vote = Vote {
                vote_data,
                author: self.validator_signer.unwrap().spec_author(),
                ledger_info: ledger_info->Ok_0,
                signature: signature->Ok_0,
            };
            Ok((vote, SafetyData { last_vote: Some(vote), ..voted->Ok_0 }))
        }
    }

    /// The answer to a vote proposal, and the engine after it. Without a
    /// signer, or for a proposal that does not pass the checks, it is an
    /// error. For the round of the last vote it is that vote again. Else it
    /// is a new vote, which the storage holds before it is given out. An
    /// error changes nothing.
    pub open spec fn spec_construct_and_sign_vote(
        &self,
        proposal: &MaybeSignedVoteProposal,
        checks: &ProposalChecks,
    ) -> (Result<Vote, ErrorView>, SafetyRules) {
        let verified = self.spec_verify_proposal(proposal, checks);
        let data = self.persistent_storage.safety_data.unwrap();
        let replayed = replayed_vote(data, proposal.vote_proposal.block.block_data.round);
        let voted = self.spec_new_vote(proposal, verified->Ok_0, data);
        if self.validator_signer.is_none() {
            (Err(ErrorView::NotInitialized("validator_signer"@)), *self)
        } else if verified.is_err() {
            (Err(verified->Err_0), *self)
        } else if replayed.is_some() {
            (Ok(replayed.unwrap()), *self)
        } else if voted.is_err() {
            (Err(voted->Err_0), *self)
        } else {
            (
                Ok((voted->Ok_0).0),
                SafetyRules {
                    persistent_storage: PersistentSafetyStorage {
                        safety_data: Some((voted->Ok_0).1),
                        ..self.persistent_storage
                    },
                    ..*self
                },
            )
        }
    }

    /// Checks that the execution of the proposed block extends the state of
    /// the block that its quorum certificate certifies.
    pub fn extension_check(&self, vote_proposal: &VoteProposal) -> (r: Result<VoteData, Error>)
        ensures
            outcome(r) == extension_rule(vote_proposal),
    {
        let proof = &vote_proposal.accumulator_extension_proof;
        if !proof.check_fits() {
            return Err(
                Error::InvalidAccumulatorExtension("The accumulator cannot hold that many leaves".to_owned()),
            );
        }
        let parent_state = vote_proposal.block.block_data.quorum_cert.certified_block().executed_state_id;
        match verify_extension(proof, &parent_state) {
            Ok(grown) => Ok(vote_proposal.vote_data_with_extension_proof(grown.0, grown.1)),
            Err(text) => Err(Error::InvalidAccumulatorExtension(text)),
        }
    }

    /// Checks a vote proposal: the signature of the execution layer where
    /// the engine holds its key, the epoch, the quorum certificate, the
    /// block's signature and form, and, unless execution is decoupled, the
    /// accumulator extension. Gives the data that a vote is cast on.
    pub fn verify_proposal(
        &mut self,
        maybe_signed_vote_proposal: &MaybeSignedVoteProposal,
        checks: &ProposalChecks,
    ) -> (r: Result<VoteData, Error>)
        ensures
            outcome(r) == old(self).spec_verify_proposal(maybe_signed_vote_proposal, checks),
            *final(self) == *old(self),
    {
        let vote_proposal = &maybe_signed_vote_proposal.vote_proposal;

        if !self.decoupled_execution {
            if let Some(public_key) = &self.execution_public_key {
                let signature = match &maybe_signed_vote_proposal.signature {
                    Some(signature) => signature,
                    None => {
                        return Err(Error::VoteProposalSignatureNotFound);
                    },
                };
                match verify_bytes(signature, &checks.signing_message, public_key) {
                    Ok(_) => {},
                    Err(text) => {
                        return Err(Error::InternalError(text));
                    },
                }
            }
        }
        let proposed_block = &vote_proposal.block;
        let safety_data = self.persistent_storage.safety_data()?;

        self.verify_epoch(proposed_block.block_data.epoch, &safety_data)?;

        self.verify_qc(&checks.quorum_cert)?;
        match &checks.block_signature {
            Ok(_) => {},
            Err(text) => {
                return Err(Error::InvalidProposal(text.clone()));
            },
        }
        match &checks.well_formed {
            Ok(_) => {},
            Err(text) => {
                return Err(Error::InvalidProposal(text.clone()));
            },
        }

        if self.decoupled_execution {
            Ok(vote_proposal.vote_data_ordering_only())
        } else {
            self.extension_check(vote_proposal)
        }
    }

    /// Votes on a proposal.
    pub fn guarded_construct_and_sign_vote(
        &mut self,
        maybe_signed_vote_proposal: &MaybeSignedVoteProposal,
        checks: &ProposalChecks,
    ) -> (r: Result<Vote, Error>)
        ensures
            (outcome(r), *final(self)) == old(self).spec_construct_and_sign_vote(maybe_signed_vote_proposal, checks),
    {
        // Exit early if we cannot sign
        self.signer()?;

        let vote_data = self.verify_proposal(maybe_signed_vote_proposal, checks)?;
        let mut safety_data = self.persistent_storage.safety_data()?;

        let proposed_block = &maybe_signed_vote_proposal.vote_proposal.block;
        // A round that was voted on gets the same vote again. The epoch was
        // checked above, so the round alone tells.
        if let Some(vote) = &safety_data.last_vote {
            if vote.vote_data.proposed.round == proposed_block.block_data.round {
                return Ok(vote.clone());
            }
        }

        // Two voting rules
        self.verify_and_update_preferred_round(&proposed_block.block_data.quorum_cert, &mut safety_data)?;
        self.verify_and_update_last_vote_round(proposed_block.block_data.round, &mut safety_data)?;

        // Construct and sign vote
        let author = self.signer()?.author();
        let ledger_info = self.construct_ledger_info(proposed_block, vote_data.hash())?;
        let signature = self.sign_ledger_info(&ledger_info)?;
        let vote = Vote::new_with_signature(vote_data, author, ledger_info, signature);

        safety_data.last_vote = Some(vote.clone());
        self.persistent_storage.set_safety_data(safety_data)?;

        Ok(vote)
    }
}

} // verus!
