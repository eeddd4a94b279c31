use crate::consensus::SafetyData;
use crate::consensus::Timeout;
use crate::consensus_state::ConsensusState;
use crate::crypto::HashValue;
use crate::crypto::PublicKey;
use crate::error::outcome;
use crate::error::Error;
use crate::error::ErrorView;
use crate::ledger::epoch_boundary_waypoint;
use crate::ledger::check_proof_powers;
use crate::ledger::epoch_change_verdict;
use crate::ledger::powers_fit;
use crate::ledger::proof_powers_fit;
use crate::ledger::proof_ledger_infos;
use crate::ledger::verifier_members;
use crate::ledger::verifier_public_key;
use crate::ledger::verify_epoch_change;
use crate::ledger::waypoint_value;
use crate::ledger::AccountAddress;
use crate::ledger::LedgerInfo;
use crate::ledger::Waypoint;
use crate::safety_rules::SafetyRules;
use crate::signer::ConfigurableValidatorSigner;
use crate::storage::PersistentSafetyStorage;
use crate::text::stale_epoch;
use crate::text::stale_epoch_text;
use diem_types::epoch_change::EpochChangeProof;
use diem_types::validator_verifier::ValidatorVerifier;
use vstd::prelude::*;

verus! {

/// The waypoint at the end of the epoch that a ledger info closes.
pub open spec fn boundary_waypoint(ledger_info: &LedgerInfo) -> Waypoint {
    Waypoint {
        version: ledger_info.commit_info.version,
        value: HashValue { bytes: waypoint_value(*ledger_info) },
    }
}

/// The waypoint to trust once a ledger info was accepted: the newer of the
/// one held and the one at the ledger info.
pub open spec fn advanced_waypoint(held: Waypoint, ledger_info: &LedgerInfo) -> Waypoint {
    if ledger_info.commit_info.version > held.version {
        boundary_waypoint(ledger_info)
    } else {
        held
    }
}

/// The voting state on entering an epoch: a later epoch starts afresh, the
/// same epoch goes on, an earlier one is refused.
pub open spec fn epoch_transition(data: SafetyData, epoch: u64) -> Result<SafetyData, ErrorView> {
    if data.epoch > epoch {
        Err(ErrorView::NotInitialized(stale_epoch_text(epoch, data.epoch)))
    } else if data.epoch < epoch {
        Ok(SafetyData::fresh(epoch))
    } else {
        Ok(data)
    }
}

/// The signer for an epoch. The validator must be in the set. The signer
/// held stays where it has the key that the set expects. Else the storage
/// must hold the private key for the expected key, and the new signer takes
/// the key itself or leaves it there, as `export_consensus_key` says.
pub open spec fn reconciled_signer(
    held: Option<ConfigurableValidatorSigner>,
    export_consensus_key: bool,
    storage: &PersistentSafetyStorage,
    author: AccountAddress,
    verifier: ValidatorVerifier,
) -> Result<ConfigurableValidatorSigner, ErrorView> {
    let expected = PublicKey { bytes: verifier_members(verifier)[author.bytes].0 };
    let stored = storage.spec_consensus_key_for_version(expected);
    if !verifier_members(verifier).contains_key(author.bytes) {
        Err(ErrorView::ValidatorNotInSet)
    } else if held.is_some() && held.unwrap().spec_public_key() == expected {
        Ok(held.unwrap())
    } else if stored.is_err() {
        Err(ErrorView::ValidatorKeyNotFound)
    } else if export_consensus_key {
        Ok(ConfigurableValidatorSigner::Signer { author, private_key: stored->Ok_0 })
    } else {
        Ok(ConfigurableValidatorSigner::Handle { author, key_version: expected })
    }
}

impl SafetyRules {
    /// The answer to the last ledger info of an accepted epoch change
    /// proof, and the engine after it. The ledger info must name the
    /// validator set of the next epoch, with voting powers that add up
    /// within a `u64`. Each step stays done when a later
    /// one fails: first the waypoint advances, then the voting state
    /// enters the epoch, then the epoch is installed, and last the signer
    /// is reconciled, or removed where that fails.
    pub open spec fn spec_install_epoch(
        &self,
        ledger_info: &LedgerInfo,
    ) -> (Result<(), ErrorView>, SafetyRules) {
        let storage = self.persistent_storage;
        let waypoint = storage.spec_waypoint();
        let next = ledger_info.commit_info.next_epoch_state;
        let data = storage.spec_safety_data();
        let moved = epoch_transition(data->Ok_0, next.unwrap().epoch);
        let author = storage.spec_author();
        let signer = reconciled_signer(
            self.validator_signer,
            self.export_consensus_key,
            &storage,
            author->Ok_0,
            next.unwrap().verifier,
        );
        let anchored = PersistentSafetyStorage {
            waypoint: Some(advanced_waypoint(waypoint->Ok_0, ledger_info)),
            ..storage
        };
        let entered = PersistentSafetyStorage { safety_data: Some(moved->Ok_0), ..anchored };
        if waypoint.is_err() {
            (Err(waypoint->Err_0), *self)
        } else if next.is_none() || !powers_fit(next.unwrap().verifier) {
            (Err(ErrorView::InvalidLedgerInfo), *self)
        } else if data.is_err() {
            (Err(data->Err_0), SafetyRules { persistent_storage: anchored, ..*self })
        } else if moved.is_err() {
            (Err(moved->Err_0), SafetyRules { persistent_storage: anchored, ..*self })
        } else if author.is_err() {
            (Err(author->Err_0), SafetyRules { persistent_storage: entered, epoch_state: next, ..*self })
        } else if signer.is_err() {
            (
                Err(signer->Err_0),
                SafetyRules { persistent_storage: entered, epoch_state: next, validator_signer: None, ..*self },
            )
        } else {
            (
                Ok(()),
                SafetyRules {
                    persistent_storage: entered,
                    epoch_state: next,
                    validator_signer: Some(signer->Ok_0),
                    ..*self
                },
            )
        }
    }

    /// What the engine holds: the voting state and the waypoint of the
    /// storage, and whether there is a signer.
    pub open spec fn spec_consensus_state(&self) -> Result<ConsensusState, ErrorView> {
        let waypoint = self.persistent_storage.spec_waypoint();
        let data = self.persistent_storage.spec_safety_data();
        let author = self.persistent_storage.spec_author();
        if waypoint.is_err() {
            Err(waypoint->Err_0)
        } else if data.is_err() {
            Err(data->Err_0)
        } else if author.is_err() {
            Err(author->Err_0)
        } else {
            Ok(
                ConsensusState {
                    safety_data: data->Ok_0,
                    waypoint: waypoint->Ok_0,
                    in_validator_set: self.validator_signer.is_some(),
                },
            )
        }
    }

    /// Reports what the engine holds. Each part of the storage must be there.
    pub fn guarded_consensus_state(&mut self) -> (r: Result<ConsensusState, Error>)
        ensures
            outcome(r) == old(self).spec_consensus_state(),
            *final(self) == *old(self),
    {
        let waypoint = self.persistent_storage.waypoint()?;
        let safety_data = self.persistent_storage.safety_data()?;
        self.persistent_storage.author()?;
        Ok(ConsensusState::new(safety_data, waypoint, self.signer().is_ok()))
    }

    /// Enters the epoch that follows the given ledger info, which is the
    /// last one of an epoch change proof that was accepted.
    pub fn install_epoch(&mut self, ledger_info: &LedgerInfo) -> (r: Result<(), Error>)
        ensures
            (outcome(r), *final(self)) == old(self).spec_install_epoch(ledger_info),
    {
        let waypoint = self.persistent_storage.waypoint()?;
        let epoch_state = match &ledger_info.commit_info.next_epoch_state {
            Some(state) => state.clone(),
            None => {
                return Err(Error::InvalidLedgerInfo);
            },
        };
        // A validator set whose voting powers cannot be added up checks no signatures.
        if !epoch_state.powers_fit() {
            return Err(Error::InvalidLedgerInfo);
        }

        // The new waypoint may still be older than the current epoch.
        let new_waypoint = match epoch_boundary_waypoint(ledger_info) {
            Ok(new_waypoint) => new_waypoint,
            Err(text) => {
                return Err(Error::InternalError(text));
            },
        };
        if new_waypoint.version > waypoint.version {
            self.persistent_storage.set_waypoint(&new_waypoint)?;
        }

        let current_epoch = self.persistent_storage.safety_data()?.epoch;
        if current_epoch > epoch_state.epoch {
            return Err(Error::NotInitialized(stale_epoch(epoch_state.epoch, current_epoch)));
        } else if current_epoch < epoch_state.epoch {
            self.persistent_storage.set_safety_data(SafetyData::new(epoch_state.epoch, 0, 0, 0, None))?;
        }
        let verifier_epoch_state = epoch_state.clone();
        self.epoch_state = Some(epoch_state);

        let author = self.persistent_storage.author()?;
        let expected_key = verifier_public_key(&verifier_epoch_state.verifier, &author);
        let initialize_result = match expected_key {
            None => Err(Error::ValidatorNotInSet),
            Some(expected_key) => {
                let current_key = match &self.validator_signer {
                    Some(signer) => Some(signer.public_key()),
                    None => None,
                };
                let in_place = match current_key {
                    Some(key) => key.same(&expected_key),
                    None => false,
                };
                if in_place {
                    Ok(())
                } else if self.export_consensus_key {
                    // Take the consensus key out of the storage.
                    match self.persistent_storage.consensus_key_for_version(&expected_key) {
                        Ok(consensus_key) => {
                            self.validator_signer = Some(
                                ConfigurableValidatorSigner::new_signer(author, consensus_key),
                            );
                            Ok(())
                        },
                        Err(Error::SecureStorageMissingDataError(_)) => Err(Error::ValidatorKeyNotFound),
                        Err(error) => Err(error),
                    }
                } else {
                    // Sign a trial message, a timeout of epoch 0 and round 0, to
                    // see that the storage holds the expected key.
                    self.validator_signer = Some(ConfigurableValidatorSigner::new_handle(author, expected_key));
                    let trial = Timeout { epoch: 0, round: 0 }.signing_message();
                    match self.sign(&trial) {
                        Ok(_) => Ok(()),
                        Err(_) => Err(Error::ValidatorKeyNotFound),
                    }
                }
            },
        };
        match initialize_result {
            Ok(_) => Ok(()),
            Err(error) => {
                self.validator_signer = None;
                Err(error)
            },
        }
    }

    /// The answer to an epoch change proof, and the engine after it. The
    /// voting powers of each validator set that the proof names must add
    /// up within a `u64`, and the proof must hold against the waypoint of
    /// the storage; the engine then
    /// enters the epoch after the proof's last ledger info. Without a
    /// waypoint, or with a proof that does not hold, nothing changes.
    pub open spec fn spec_initialize(&self, proof: &EpochChangeProof) -> (Result<(), ErrorView>, SafetyRules) {
        let waypoint = self.persistent_storage.spec_waypoint();
        let ledger_infos = proof_ledger_infos(*proof);
        if waypoint.is_err() {
            (Err(waypoint->Err_0), *self)
        } else if !proof_powers_fit(*proof) || epoch_change_verdict(ledger_infos, waypoint->Ok_0).is_err()
            || ledger_infos.len() == 0 {
            (Err(ErrorView::InvalidEpochChangeProof), *self)
        } else {
            self.spec_install_epoch(&ledger_infos.last().0)
        }
    }

    /// Brings the engine to the epoch that an epoch change proof leads to.
    pub fn guarded_initialize(&mut self, proof: &EpochChangeProof) -> (r: Result<(), Error>)
        ensures
            (outcome(r), *final(self)) == old(self).spec_initialize(proof),
    {
        let waypoint = self.persistent_storage.waypoint()?;
        if !check_proof_powers(proof) {
            return Err(Error::InvalidEpochChangeProof);
        }
        let ledger_info = match verify_epoch_change(proof, &waypoint) {
            Ok(last) => last,
            Err(_) => {
                return Err(Error::InvalidEpochChangeProof);
            },
        };
        self.install_epoch(&ledger_info)
    }
}

} // verus!
