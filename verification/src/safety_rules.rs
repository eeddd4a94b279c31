use crate::consensus::Block;
use crate::consensus::QuorumCert;
use crate::consensus::SafetyData;
use crate::crypto::HashValue;
use crate::crypto::PublicKey;
use crate::crypto::Signature;
use crate::error::outcome;
use crate::error::Error;
use crate::error::ErrorView;
use crate::ledger::AccountAddress;
use crate::ledger::BlockInfo;
use crate::ledger::EpochState;
use crate::ledger::LedgerInfo;
use crate::signer::ConfigurableValidatorSigner;
use crate::storage::PersistentSafetyStorage;
use vstd::prelude::*;

verus! {

/// The round after `round`, or the error for a round that has none.
pub open spec fn spec_next_round(round: u64) -> Result<u64, ErrorView> {
    if round < u64::MAX {
        Ok((round + 1) as u64)
    } else {
        Err(ErrorView::IncorrectRound(round))
    }
}

/// The round after `round`, or the error for a round that has none.
pub fn next_round(round: u64) -> (r: Result<u64, Error>)
    ensures
        outcome(r) == spec_next_round(round),
{
    if round < u64::MAX {
        Ok(round + 1)
    } else {
        Err(Error::IncorrectRound(round))
    }
}

/// The voting state after a quorum certificate was seen: the round it
/// certifies raises the one-chain round, the round of that block's parent
/// raises the preferred round. Neither is ever lowered.
pub open spec fn observed(qc: &QuorumCert, data: SafetyData) -> SafetyData {
    let one_chain = qc.spec_certified_block().round;
    let two_chain = qc.spec_parent_block().round;
    SafetyData {
        one_chain_round: if one_chain > data.one_chain_round { one_chain } else { data.one_chain_round },
        preferred_round: if two_chain > data.preferred_round { two_chain } else { data.preferred_round },
        ..data
    }
}

/// The second voting rule: a quorum certificate counts only if the round it
/// certifies is not below the preferred round; it is then seen.
pub open spec fn preferred_round_rule(
    qc: &QuorumCert,
    data: SafetyData,
) -> Result<SafetyData, ErrorView> {
    let one_chain = qc.spec_certified_block().round;
    if one_chain < data.preferred_round {
        Err(ErrorView::IncorrectPreferredRound(one_chain, data.preferred_round))
    } else {
        Ok(observed(qc, data))
    }
}

/// The first voting rule: a round is signed for only if it is above the last
/// voted round, which it then becomes.
pub open spec fn last_vote_round_rule(
    round: u64,
    data: SafetyData,
) -> Result<SafetyData, ErrorView> {
    if round <= data.last_voted_round {
        Err(ErrorView::IncorrectLastVotedRound(round, data.last_voted_round))
    } else {
        Ok(SafetyData { last_voted_round: round, ..data })
    }
}

/// An input counts only in the epoch of the voting state.
pub open spec fn epoch_rule(epoch: u64, data: SafetyData) -> Result<(), ErrorView> {
    if epoch != data.epoch {
        Err(ErrorView::IncorrectEpoch(epoch, data.epoch))
    } else {
        Ok(())
    }
}

/// Three blocks in a row: each round is the one after the round before.
pub open spec fn three_chain(block0: u64, block1: u64, block2: u64) -> bool {
    block0 + 1 == block1 && block1 + 1 == block2
}

/// The ledger info of a vote for a block. The block's quorum certificate
/// certifies its parent and names its grandparent. Where the three rounds
/// follow each other, the vote commits the grandparent; else it commits
/// nothing. The rule takes the round after the grandparent's and the round
/// after the parent's: where either of the two is the last round there is, it
/// is an error, whatever the other rounds are.
pub open spec fn commit_rule(
    proposed_block: &Block,
    consensus_data_hash: HashValue,
) -> Result<LedgerInfo, ErrorView> {
    let block2 = proposed_block.block_data.round;
    let block1 = proposed_block.block_data.quorum_cert.spec_certified_block().round;
    let block0 = proposed_block.block_data.quorum_cert.spec_parent_block().round;
    if block0 == u64::MAX {
        Err(ErrorView::IncorrectRound(block0))
    } else if block1 == u64::MAX {
        Err(ErrorView::IncorrectRound(block1))
    } else if three_chain(block0, block1, block2) {
        Ok(LedgerInfo { commit_info: proposed_block.block_data.quorum_cert.spec_parent_block(), consensus_data_hash })
    } else {
        Ok(LedgerInfo { commit_info: BlockInfo::spec_empty(), consensus_data_hash })
    }
}

/// What the caller found out about a vote proposal from those who can check
/// signatures of a quorum and the form of a block.
#[derive(Debug, PartialEq, Eq)]
pub struct ProposalChecks {
    /// The bytes that a signature of the execution layer on the proposal covers.
    pub signing_message: Vec<u8>,
    /// Whether the quorum certificate of the block holds under the validator set.
    pub quorum_cert: Result<(), String>,
    /// Whether the proposer's signature on the block holds under the validator set.
    pub block_signature: Result<(), String>,
    /// Whether the block is well formed.
    pub well_formed: Result<(), String>,
}

/// The engine that decides what a validator signs.
#[derive(PartialEq, Eq)]
pub struct SafetyRules {
    pub persistent_storage: PersistentSafetyStorage,
    pub execution_public_key: Option<PublicKey>,
    pub export_consensus_key: bool,
    pub validator_signer: Option<ConfigurableValidatorSigner>,
    pub epoch_state: Option<EpochState>,
    pub decoupled_execution: bool,
}

impl SafetyRules {
    /// An engine on the given storage, with no signer and no epoch yet. The
    /// key of the execution layer is read from the storage where signatures
    /// on proposals are to be checked and execution is not decoupled; the
    /// storage must then hold it.
    pub fn new(
        persistent_storage: PersistentSafetyStorage,
        verify_vote_proposal_signature: bool,
        export_consensus_key: bool,
        decoupled_execution: bool,
    ) -> (rules: SafetyRules)
        requires
            verify_vote_proposal_signature && !decoupled_execution ==> persistent_storage.execution_public_key.is_some(),
        ensures
            rules == SafetyRules::spec_new(
                persistent_storage,
                verify_vote_proposal_signature,
                export_consensus_key,
                decoupled_execution,
            ),
    {
        let execution_public_key = if verify_vote_proposal_signature && !decoupled_execution {
            persistent_storage.execution_public_key
        } else {
            None
        };
        SafetyRules {
            persistent_storage,
            execution_public_key,
            export_consensus_key,
            validator_signer: None,
            epoch_state: None,
            decoupled_execution,
        }
    }

    /// The engine that `new` makes.
    pub open spec fn spec_new(
        persistent_storage: PersistentSafetyStorage,
        verify_vote_proposal_signature: bool,
        export_consensus_key: bool,
        decoupled_execution: bool,
    ) -> SafetyRules {
        SafetyRules {
            persistent_storage,
            execution_public_key: if verify_vote_proposal_signature && !decoupled_execution {
                persistent_storage.execution_public_key
            } else {
                None
            },
            export_consensus_key,
            validator_signer: None,
            epoch_state: None,
            decoupled_execution,
        }
    }

    /// The signer, or the error that names it as missing.
    pub open spec fn spec_signer(&self) -> Result<ConfigurableValidatorSigner, ErrorView> {
        match self.validator_signer {
            Some(signer) => Ok(signer),
            None => Err(ErrorView::NotInitialized("validator_signer"@)),
        }
    }

    /// The epoch with its validator set, or the error that names it as missing.
    pub open spec fn spec_epoch_state(&self) -> Result<EpochState, ErrorView> {
        match self.epoch_state {
            Some(state) => Ok(state),
            None => Err(ErrorView::NotInitialized("epoch_state"@)),
        }
    }

    /// The signer, which `initialize` sets up.
    pub fn signer(&self) -> (r: Result<&ConfigurableValidatorSigner, Error>)
        ensures
            match r {
                Ok(signer) => self.spec_signer() == Ok::<ConfigurableValidatorSigner, ErrorView>(*signer),
                Err(error) => self.spec_signer() == Err::<ConfigurableValidatorSigner, ErrorView>(error@),
            },
    {
        match &self.validator_signer {
            Some(signer) => Ok(signer),
            None => Err(Error::NotInitialized("validator_signer".to_owned())),
        }
    }

    /// The epoch with its validator set, which `initialize` sets up.
    pub fn epoch_state(&self) -> (r: Result<&EpochState, Error>)
        ensures
            match r {
                Ok(state) => self.spec_epoch_state() == Ok::<EpochState, ErrorView>(*state),
                Err(error) => self.spec_epoch_state() == Err::<EpochState, ErrorView>(error@),
            },
    {
        match &self.epoch_state {
            Some(state) => Ok(state),
            None => Err(Error::NotInitialized("epoch_state".to_owned())),
        }
    }

    /// Signs the bytes of a message with the validator's key.
    pub fn sign(&self, message: &Vec<u8>) -> (r: Result<Signature, Error>)
        ensures
            outcome(r) == self.spec_sign(message@),
    {
        let signer = self.signer()?;
        signer.sign(message, &self.persistent_storage)
    }

    /// The signature of the validator on the bytes of a message.
    pub open spec fn spec_sign(&self, message: Seq<u8>) -> Result<Signature, ErrorView> {
        match self.spec_signer() {
            Ok(signer) => signer.spec_sign(message, &self.persistent_storage),
            Err(error) => Err(error),
        }
    }

    /// Signs a ledger info with the validator's key.
    pub fn sign_ledger_info(&self, ledger_info: &LedgerInfo) -> (r: Result<Signature, Error>)
        ensures
            outcome(r) == self.spec_sign_ledger_info(*ledger_info),
    {
        let signer = self.signer()?;
        signer.sign_ledger_info(ledger_info, &self.persistent_storage)
    }

    /// The signature of the validator on a ledger info.
    pub open spec fn spec_sign_ledger_info(
        &self,
        ledger_info: LedgerInfo,
    ) -> Result<Signature, ErrorView> {
        match self.spec_signer() {
            Ok(signer) => signer.spec_sign_ledger_info(ledger_info, &self.persistent_storage),
            Err(error) => Err(error),
        }
    }

    /// Takes note of a quorum certificate. Says whether the voting state changed.
    pub fn observe_qc(&self, qc: &QuorumCert, safety_data: &mut SafetyData) -> (updated: bool)
        ensures
            *final(safety_data) == observed(qc, *old(safety_data)),
            updated == (*final(safety_data) != *old(safety_data)),
    {
        let mut updated = false;
        let one_chain = qc.certified_block().round;
        let two_chain = qc.parent_block().round;
        if one_chain > safety_data.one_chain_round {
            safety_data.one_chain_round = one_chain;
            updated = true;
        }
        if two_chain > safety_data.preferred_round {
            safety_data.preferred_round = two_chain;
            updated = true;
        }
        updated
    }

    /// The ledger info of a vote for a block, by the rule of three blocks in a row.
    pub fn construct_ledger_info(
        &self,
        proposed_block: &Block,
        consensus_data_hash: HashValue,
    ) -> (r: Result<LedgerInfo, Error>)
        ensures
            outcome(r) == commit_rule(proposed_block, consensus_data_hash),
    {
        let block2 = proposed_block.block_data.round;
        let block1 = proposed_block.block_data.quorum_cert.certified_block().round;
        let block0 = proposed_block.block_data.quorum_cert.parent_block().round;

        let after_block0 = next_round(block0)?;
        let after_block1 = next_round(block1)?;
        let commit = after_block0 == block1 && after_block1 == block2;

        let commit_info = if commit {
            proposed_block.block_data.quorum_cert.parent_block().clone()
        } else {
            BlockInfo::empty()
        };

        Ok(LedgerInfo::new(commit_info, consensus_data_hash))
    }

    /// The second voting rule.
    pub fn verify_and_update_preferred_round(
        &mut self,
        quorum_cert: &QuorumCert,
        safety_data: &mut SafetyData,
    ) -> (r: Result<bool, Error>)
        ensures
            *final(self) == *old(self),
            match r {
                Ok(updated) => preferred_round_rule(quorum_cert, *old(safety_data)) == Ok::<SafetyData, ErrorView>(*final(safety_data))
                    && updated == (*final(safety_data) != *old(safety_data)),
                Err(error) => preferred_round_rule(quorum_cert, *old(safety_data)) == Err::<SafetyData, ErrorView>(error@)
                    && *final(safety_data) == *old(safety_data),
            },
    {
        let preferred_round = safety_data.preferred_round;
        let one_chain_round = quorum_cert.certified_block().round;

        if one_chain_round < preferred_round {
            return Err(Error::IncorrectPreferredRound(one_chain_round, preferred_round));
        }
        Ok(self.observe_qc(quorum_cert, safety_data))
    }

    /// The proposer of a block must be the validator that signs.
    pub fn verify_author(&self, author: Option<AccountAddress>) -> (r: Result<(), Error>)
        ensures
            outcome(r) == self.spec_verify_author(author),
    {
        let validator_signer_author = self.signer()?.author();
        let author = match author {
            Some(author) => author,
            None => {
                return Err(Error::InvalidProposal("No author found in the proposal".to_owned()));
            },
        };
        if !validator_signer_author.same(&author) {
            return Err(Error::InvalidProposal("Proposal author is not validator signer!".to_owned()));
        }
        Ok(())
    }

    /// A block may be signed only by its author, who must be named.
    pub open spec fn spec_verify_author(
        &self,
        author: Option<AccountAddress>,
    ) -> Result<(), ErrorView> {
        if self.validator_signer.is_none() {
            Err(ErrorView::NotInitialized("validator_signer"@))
        } else if author.is_none() {
            Err(ErrorView::InvalidProposal("No author found in the proposal"@))
        } else if self.validator_signer.unwrap().spec_author() != author.unwrap() {
            Err(ErrorView::InvalidProposal("Proposal author is not validator signer!"@))
        } else {
            Ok(())
        }
    }

    /// The epoch of an input must be that of the voting state.
    pub fn verify_epoch(&self, epoch: u64, safety_data: &SafetyData) -> (r: Result<(), Error>)
        ensures
            outcome(r) == epoch_rule(epoch, *safety_data),
    {
        if epoch != safety_data.epoch {
            return Err(Error::IncorrectEpoch(epoch, safety_data.epoch));
        }
        Ok(())
    }

    /// The first voting rule.
    pub fn verify_and_update_last_vote_round(
        &self,
        round: u64,
        safety_data: &mut SafetyData,
    ) -> (r: Result<(), Error>)
        ensures
            match r {
                Ok(_) => last_vote_round_rule(round, *old(safety_data)) == Ok::<SafetyData, ErrorView>(*final(safety_data)),
                Err(error) => last_vote_round_rule(round, *old(safety_data)) == Err::<SafetyData, ErrorView>(error@)
                    && *final(safety_data) == *old(safety_data),
            },
    {
        if round <= safety_data.last_voted_round {
            return Err(Error::IncorrectLastVotedRound(round, safety_data.last_voted_round));
        }
        safety_data.last_voted_round = round;
        Ok(())
    }

    /// A quorum certificate needs an epoch to be checked in, and must have
    /// passed the check of its signatures.
    pub fn verify_qc(&self, quorum_cert_check: &Result<(), String>) -> (r: Result<(), Error>)
        ensures
            outcome(r) == self.spec_verify_qc(*quorum_cert_check),
    {
        self.epoch_state()?;
        match quorum_cert_check {
            Ok(_) => Ok(()),
            Err(text) => Err(Error::InvalidQuorumCertificate(text.clone())),
        }
    }

    /// A quorum certificate counts only in an epoch, and only if its
    /// signatures were found to hold.
    pub open spec fn spec_verify_qc(
        &self,
        quorum_cert_check: Result<(), String>,
    ) -> Result<(), ErrorView> {
        if self.epoch_state.is_none() {
            Err(ErrorView::NotInitialized("epoch_state"@))
        } else {
            match quorum_cert_check {
                Ok(_) => Ok(()),
                Err(text) => Err(ErrorView::InvalidQuorumCertificate(text@)),
            }
        }
    }
}

} // verus!
