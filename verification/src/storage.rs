use crate::consensus::SafetyData;
use crate::crypto::derive_public_key;
use crate::crypto::ed25519_public_key;
use crate::crypto::ed25519_signature;
use crate::crypto::sign_bytes;
use crate::crypto::PrivateKey;
use crate::crypto::PublicKey;
use crate::crypto::Signature;
use crate::error::outcome;
use crate::error::Error;
use crate::error::ErrorView;
use crate::ledger::ledger_info_signature;
use crate::ledger::sign_ledger_info;
use crate::ledger::AccountAddress;
use crate::ledger::LedgerInfo;
use crate::ledger::Waypoint;
use vstd::prelude::*;

verus! {

/// What a validator keeps from one run to the next: who it is, the waypoint
/// it trusts, its voting state, the key of the execution layer, and its
/// consensus keys, newest first. A value that was never stored is `None`.
#[derive(PartialEq, Eq)]
pub struct PersistentSafetyStorage {
    pub author: Option<AccountAddress>,
    pub waypoint: Option<Waypoint>,
    pub safety_data: Option<SafetyData>,
    pub execution_public_key: Option<PublicKey>,
    pub consensus_keys: Vec<PrivateKey>,
}

impl Clone for PersistentSafetyStorage {
    /// A snapshot of the storage.
    fn clone(&self) -> (copy: PersistentSafetyStorage)
        ensures
            copy.author == self.author,
            copy.waypoint == self.waypoint,
            copy.safety_data == self.safety_data,
            copy.execution_public_key == self.execution_public_key,
            copy.consensus_keys@ == self.consensus_keys@,
    {
        let safety_data = match &self.safety_data {
            Some(data) => Some(data.clone()),
            None => None,
        };
        PersistentSafetyStorage {
            author: self.author,
            waypoint: self.waypoint,
            safety_data,
            execution_public_key: self.execution_public_key,
            consensus_keys: self.consensus_keys.clone(),
        }
    }
}

/// The error for a value that the storage does not hold.
pub open spec fn missing(name: Seq<char>) -> ErrorView {
    ErrorView::SecureStorageMissingDataError(name)
}

/// The first key at or after position `from` whose public key is `version`.
pub open spec fn key_from(
    keys: Seq<PrivateKey>,
    version: PublicKey,
    from: int,
) -> Option<PrivateKey>
    decreases keys.len() - from,
{
    if from < 0 || from >= keys.len() {
        None
    } else if ed25519_public_key(keys[from].bytes) == version.bytes {
        Some(keys[from])
    } else {
        key_from(keys, version, from + 1)
    }
}

/// A key that was found has the public key that was asked for.
pub proof fn lemma_key_found_matches(keys: Seq<PrivateKey>, version: PublicKey, from: int)
    requires
        key_from(keys, version, from).is_some(),
    ensures
        ed25519_public_key(key_from(keys, version, from).unwrap().bytes) == version.bytes,
    decreases keys.len() - from,
{
    if 0 <= from < keys.len() && ed25519_public_key(keys[from].bytes) != version.bytes {
        lemma_key_found_matches(keys, version, from + 1);
    }
}

impl PersistentSafetyStorage {
    /// The validator's address, or the error that names it as missing.
    pub open spec fn spec_author(&self) -> Result<AccountAddress, ErrorView> {
        match self.author {
            Some(author) => Ok(author),
            None => Err(missing("owner_account"@)),
        }
    }

    /// The waypoint, or the error that names it as missing.
    pub open spec fn spec_waypoint(&self) -> Result<Waypoint, ErrorView> {
        match self.waypoint {
            Some(waypoint) => Ok(waypoint),
            None => Err(missing("waypoint"@)),
        }
    }

    /// The voting state, or the error that names it as missing.
    pub open spec fn spec_safety_data(&self) -> Result<SafetyData, ErrorView> {
        match self.safety_data {
            Some(data) => Ok(data),
            None => Err(missing("safety_data"@)),
        }
    }

    /// The key of the execution layer, or the error that names it as missing.
    pub open spec fn spec_execution_public_key(&self) -> Result<PublicKey, ErrorView> {
        match self.execution_public_key {
            Some(key) => Ok(key),
            None => Err(missing("execution"@)),
        }
    }

    /// The stored private key whose public key is `version`: the newest such key.
    pub open spec fn spec_consensus_key_for_version(
        &self,
        version: PublicKey,
    ) -> Result<PrivateKey, ErrorView> {
        match key_from(self.consensus_keys@, version, 0) {
            Some(key) => Ok(key),
            None => Err(missing("consensus"@)),
        }
    }

    /// The signature on a message by the stored key whose public key is `version`.
    pub open spec fn spec_sign(
        &self,
        version: PublicKey,
        message: Seq<u8>,
    ) -> Result<Signature, ErrorView> {
        match self.spec_consensus_key_for_version(version) {
            Ok(key) => Ok(Signature { bytes: ed25519_signature(key.bytes, message) }),
            Err(error) => Err(error),
        }
    }

    /// The signature on a ledger info by the stored key whose public key is `version`.
    pub open spec fn spec_sign_ledger_info(
        &self,
        version: PublicKey,
        ledger_info: LedgerInfo,
    ) -> Result<Signature, ErrorView> {
        match self.spec_consensus_key_for_version(version) {
            Ok(key) => Ok(Signature { bytes: ledger_info_signature(key.bytes, ledger_info) }),
            Err(error) => Err(error),
        }
    }

    /// The validator's address.
    pub fn author(&self) -> (r: Result<AccountAddress, Error>)
        ensures
            outcome(r) == self.spec_author(),
    {
        match self.author {
            Some(author) => Ok(author),
            None => Err(Error::SecureStorageMissingDataError("owner_account".to_owned())),
        }
    }

    /// The waypoint that the validator trusts.
    pub fn waypoint(&self) -> (r: Result<Waypoint, Error>)
        ensures
            outcome(r) == self.spec_waypoint(),
    {
        match self.waypoint {
            Some(waypoint) => Ok(waypoint),
            None => Err(Error::SecureStorageMissingDataError("waypoint".to_owned())),
        }
    }

    /// A copy of the voting state.
    pub fn safety_data(&self) -> (r: Result<SafetyData, Error>)
        ensures
            outcome(r) == self.spec_safety_data(),
    {
        match &self.safety_data {
            Some(data) => Ok(data.clone()),
            None => Err(Error::SecureStorageMissingDataError("safety_data".to_owned())),
        }
    }

    /// The key of the execution layer.
    pub fn execution_public_key(&self) -> (r: Result<PublicKey, Error>)
        ensures
            outcome(r) == self.spec_execution_public_key(),
    {
        match self.execution_public_key {
            Some(key) => Ok(key),
            None => Err(Error::SecureStorageMissingDataError("execution".to_owned())),
        }
    }

    /// Stores a waypoint in place of the one held. Nothing else changes.
    pub fn set_waypoint(&mut self, waypoint: &Waypoint) -> (r: Result<(), Error>)
        ensures
            r.is_ok(),
            *final(self) == (PersistentSafetyStorage { waypoint: Some(*waypoint), ..*old(self) }),
    {
        self.waypoint = Some(*waypoint);
        Ok(())
    }

    /// Stores the voting state in place of the one held. Nothing else changes.
    pub fn set_safety_data(&mut self, data: SafetyData) -> (r: Result<(), Error>)
        ensures
            r.is_ok(),
            *final(self) == (PersistentSafetyStorage { safety_data: Some(data), ..*old(self) }),
    {
        self.safety_data = Some(data);
        Ok(())
    }

    /// The stored private key whose public key is `version`: the newest such key.
    pub fn consensus_key_for_version(&self, version: &PublicKey) -> (r: Result<PrivateKey, Error>)
        ensures
            outcome(r) == self.spec_consensus_key_for_version(*version),
    {
        let mut i: usize = 0;
        while i < self.consensus_keys.len()
            invariant
                0 <= i <= self.consensus_keys.len(),
                key_from(self.consensus_keys@, *version, 0) == key_from(self.consensus_keys@, *version, i as int),
            decreases self.consensus_keys.len() - i,
        {
            let key = self.consensus_keys[i];
            let public = derive_public_key(&key);
            if public.same(version) {
                return Ok(key);
            }
            i += 1;
        }
        Err(Error::SecureStorageMissingDataError("consensus".to_owned()))
    }

    /// Signs the bytes of a message with the stored key whose public key is `version`.
    pub fn sign(&self, version: &PublicKey, message: &Vec<u8>) -> (r: Result<Signature, Error>)
        ensures
            outcome(r) == self.spec_sign(*version, message@),
    {
        let key = self.consensus_key_for_version(version)?;
        Ok(sign_bytes(&key, message))
    }

    /// Signs a ledger info with the stored key whose public key is `version`.
    pub fn sign_ledger_info(
        &self,
        version: &PublicKey,
        ledger_info: &LedgerInfo,
    ) -> (r: Result<Signature, Error>)
        ensures
            outcome(r) == self.spec_sign_ledger_info(*version, *ledger_info),
    {
        let key = self.consensus_key_for_version(version)?;
        Ok(sign_ledger_info(&key, ledger_info))
    }
}

} // verus!
