use crate::consensus::BlockData;
use crate::consensus::SafetyData;
use crate::consensus::Timeout;
use crate::crypto::Signature;
use crate::error::outcome;
use crate::error::outcome_text;
use crate::error::Error;
use crate::error::ErrorView;
use crate::ledger::powers_fit;
use crate::ledger::signature_entries;
use crate::ledger::signatures_verdict;
use crate::ledger::verifier_members;
use crate::ledger::verifier_quorum;
use crate::ledger::verify_signatures;
use crate::ledger::LedgerInfo;
use crate::ledger::LedgerInfoWithSignatures;
use crate::safety_rules::epoch_rule;
use crate::safety_rules::preferred_round_rule;
use crate::safety_rules::SafetyRules;
use crate::storage::PersistentSafetyStorage;
use crate::text::round_not_higher;
use crate::text::round_not_higher_text;
use vstd::prelude::*;

verus! {

impl SafetyRules {
    /// The signature on a block that this validator proposes: the validator
    /// must be the block's author, the block must be of the current epoch and
    /// of a round above the last voted one, and its quorum certificate must
    /// hold and pass the second voting rule.
    pub open spec fn spec_sign_proposal(
        &self,
        block_data: &BlockData,
        quorum_cert_check: &Result<(), String>,
        signing_message: Seq<u8>,
    ) -> Result<Signature, ErrorView> {
        let author = self.spec_verify_author(block_data.author);
        let data = self.persistent_storage.spec_safety_data();
        let epoch = epoch_rule(block_data.epoch, data->Ok_0);
        let quorum_cert = self.spec_verify_qc(*quorum_cert_check);
        let seen = preferred_round_rule(&block_data.quorum_cert, data->Ok_0);
        if author.is_err() {
            Err(author->Err_0)
        } else if data.is_err() {
            Err(data->Err_0)
        } else if epoch.is_err() {
            Err(epoch->Err_0)
        } else if block_data.round <= (data->Ok_0).last_voted_round {
            Err(ErrorView::InvalidProposal(round_not_higher_text(block_data.round, (data->Ok_0).last_voted_round)))
        } else if quorum_cert.is_err() {
            Err(quorum_cert->Err_0)
        } else if seen.is_err() {
            Err(seen->Err_0)
        } else {
            self.spec_sign(signing_message)
        }
    }

    /// The answer to a timeout, and the engine after it. The round must be
    /// above the preferred round and not below the last voted round. Where
    /// it is above the last voted round it becomes that round, and the
    /// storage holds it before anything is signed: it stays even if signing
    /// fails.
    pub open spec fn spec_sign_timeout(&self, timeout: &Timeout) -> (Result<Signature, ErrorView>, SafetyRules) {
        let data = self.persistent_storage.spec_safety_data();
        let epoch = epoch_rule(timeout.epoch, data->Ok_0);
        if self.validator_signer.is_none() {
            (Err(ErrorView::NotInitialized("validator_signer"@)), *self)
        } else if data.is_err() {
            (Err(data->Err_0), *self)
        } else if epoch.is_err() {
            (Err(epoch->Err_0), *self)
        } else if timeout.round <= (data->Ok_0).preferred_round {
            (Err(ErrorView::IncorrectPreferredRound(timeout.round, (data->Ok_0).preferred_round)), *self)
        } else if timeout.round < (data->Ok_0).last_voted_round {
            (Err(ErrorView::IncorrectLastVotedRound(timeout.round, (data->Ok_0).last_voted_round)), *self)
        } else if timeout.round > (data->Ok_0).last_voted_round {
            (
                self.spec_sign(timeout.spec_signing_message()),
                SafetyRules {
                    persistent_storage: PersistentSafetyStorage {
                        safety_data: Some(SafetyData { last_voted_round: timeout.round, ..data->Ok_0 }),
                        ..self.persistent_storage
                    },
                    ..*self
                },
            )
        } else {
            (self.spec_sign(timeout.spec_signing_message()), *self)
        }
    }

    /// The signature on the ledger info of an executed block, given the
    /// ledger info that a quorum signed when the block was ordered and the
    /// outcome of the check of those signatures: the ordered one must be in
    /// ordered-only form, the new one must agree with it on all that
    /// execution leaves alone, and the signatures must hold.
    pub open spec fn spec_commit_vote_with(
        &self,
        ordered: &LedgerInfo,
        new_ledger_info: &LedgerInfo,
        signatures_check: Result<(), Seq<char>>,
    ) -> Result<Signature, ErrorView> {
        if self.validator_signer.is_none() {
            Err(ErrorView::NotInitialized("validator_signer"@))
        } else if !ordered.commit_info.spec_is_ordered_only() {
            Err(ErrorView::InvalidOrderedLedgerInfo)
        } else if !ordered.commit_info.spec_match_ordered_only(&new_ledger_info.commit_info) {
            Err(ErrorView::InconsistentExecutionResult)
        } else if self.epoch_state.is_none() {
            Err(ErrorView::NotInitialized("epoch_state"@))
        } else if signatures_check.is_err() {
            Err(ErrorView::InvalidQuorumCertificate(signatures_check->Err_0))
        } else {
            self.spec_sign_ledger_info(*new_ledger_info)
        }
    }

    /// The same, for the outcome of the check as it was handed over.
    pub open spec fn spec_commit_vote(
        &self,
        ordered: &LedgerInfo,
        new_ledger_info: &LedgerInfo,
        signatures_check: &Result<(), String>,
    ) -> Result<Signature, ErrorView> {
        self.spec_commit_vote_with(ordered, new_ledger_info, outcome_text(*signatures_check))
    }

    /// The signature on the ledger info of an executed block, given the
    /// ledger info that a quorum signed when the block was ordered, with
    /// those signatures: as `spec_commit_vote` says, for what the check of
    /// the signatures under the validator set of the epoch gives. A set
    /// whose voting powers do not add up within a `u64` checks nothing: no
    /// signatures hold under it.
    pub open spec fn spec_sign_commit_vote(
        &self,
        ledger_info: &LedgerInfoWithSignatures,
        new_ledger_info: &LedgerInfo,
    ) -> Result<Signature, ErrorView> {
        let verdict = match self.epoch_state {
            Some(state) => if powers_fit(state.verifier) {
                signatures_verdict(
                    ledger_info.ledger_info,
                    signature_entries(ledger_info.signatures),
                    verifier_members(state.verifier),
                    verifier_quorum(state.verifier),
                )
            } else {
                Err("The voting powers of the validator set do not add up"@)
            },
            None => Ok(()),
        };
        match verdict {
            Ok(_) => self.spec_commit_vote_with(&ledger_info.ledger_info, new_ledger_info, Ok(())),
            Err(text) => self.spec_commit_vote_with(&ledger_info.ledger_info, new_ledger_info, Err(text)),
        }
    }

    /// Signs a block that this validator proposes. `signing_message` holds
    /// the bytes that a signature on `block_data` covers. The voting state
    /// in the storage stays as it is: what the quorum certificate raises is
    /// stored with the next vote.
    pub fn guarded_sign_proposal(
        &mut self,
        block_data: &BlockData,
        quorum_cert_check: &Result<(), String>,
        signing_message: &Vec<u8>,
    ) -> (r: Result<Signature, Error>)
        ensures
            outcome(r) == old(self).spec_sign_proposal(block_data, quorum_cert_check, signing_message@),
            *final(self) == *old(self),
    {
        self.signer()?;
        self.verify_author(block_data.author)?;

        let mut safety_data = self.persistent_storage.safety_data()?;
        self.verify_epoch(block_data.epoch, &safety_data)?;

        if block_data.round <= safety_data.last_voted_round {
            return Err(Error::InvalidProposal(round_not_higher(block_data.round, safety_data.last_voted_round)));
        }
        self.verify_qc(quorum_cert_check)?;
        self.verify_and_update_preferred_round(&block_data.quorum_cert, &mut safety_data)?;

        let signature = self.sign(signing_message)?;
        Ok(signature)
    }

    /// Signs a timeout.
    pub fn guarded_sign_timeout(&mut self, timeout: &Timeout) -> (r: Result<Signature, Error>)
        ensures
            (outcome(r), *final(self)) == old(self).spec_sign_timeout(timeout),
    {
        self.signer()?;

        let mut safety_data = self.persistent_storage.safety_data()?;
        self.verify_epoch(timeout.epoch, &safety_data)?;

        if timeout.round <= safety_data.preferred_round {
            return Err(Error::IncorrectPreferredRound(timeout.round, safety_data.preferred_round));
        }
        if timeout.round < safety_data.last_voted_round {
            return Err(Error::IncorrectLastVotedRound(timeout.round, safety_data.last_voted_round));
        }
        if timeout.round > safety_data.last_voted_round {
            self.verify_and_update_last_vote_round(timeout.round, &mut safety_data)?;
            self.persistent_storage.set_safety_data(safety_data)?;
        }
        let signature = self.sign(&timeout.signing_message())?;
        Ok(signature)
    }

    /// Decides on a commit vote once the ordered ledger info was read and
    /// its signatures were checked.
    pub fn decide_commit_vote(
        &self,
        ordered: &LedgerInfo,
        new_ledger_info: &LedgerInfo,
        signatures_check: &Result<(), String>,
    ) -> (r: Result<Signature, Error>)
        ensures
            outcome(r) == self.spec_commit_vote(ordered, new_ledger_info, signatures_check),
    {
        self.signer()?;

        if !ordered.commit_info.is_ordered_only() {
            return Err(Error::InvalidOrderedLedgerInfo);
        }
        if !ordered.commit_info.match_ordered_only(&new_ledger_info.commit_info) {
            return Err(Error::InconsistentExecutionResult);
        }
        self.epoch_state()?;
        match signatures_check {
            Ok(_) => {},
            Err(text) => {
                return Err(Error::InvalidQuorumCertificate(text.clone()));
            },
        }
        let signature = self.sign_ledger_info(new_ledger_info)?;
        Ok(signature)
    }

    /// Signs the ledger info of an executed block, against the ledger info
    /// that a quorum signed when the block was ordered. The signatures are
    /// checked under the validator set of the epoch. The engine stays as it
    /// is.
    pub fn guarded_sign_commit_vote(
        &mut self,
        ledger_info: LedgerInfoWithSignatures,
        new_ledger_info: LedgerInfo,
    ) -> (r: Result<Signature, Error>)
        ensures
            outcome(r) == old(self).spec_sign_commit_vote(&ledger_info, &new_ledger_info),
            *final(self) == *old(self),
    {
        let ordered = &ledger_info.ledger_info;
        let cheap = self.validator_signer.is_some() && ordered.commit_info.is_ordered_only()
            && ordered.commit_info.match_ordered_only(&new_ledger_info.commit_info);
        let signatures_check = match &self.epoch_state {
            Some(state) => if !cheap {
                Ok(())
            } else if state.powers_fit() {
                verify_signatures(&ledger_info, &state.verifier)
            } else {
                Err("The voting powers of the validator set do not add up".to_owned())
            },
            None => Ok(()),
        };
        self.decide_commit_vote(ordered, &new_ledger_info, &signatures_check)
    }
}

} // verus!
