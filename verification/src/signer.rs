use crate::crypto::derive_public_key;
use crate::crypto::ed25519_public_key;
use crate::crypto::ed25519_signature;
use crate::crypto::sign_bytes;
use crate::crypto::PrivateKey;
use crate::crypto::PublicKey;
use crate::crypto::Signature;
use crate::error::outcome;
use crate::error::Error;
use crate::error::ErrorView;
use crate::ledger::ledger_info_signature;
use crate::ledger::sign_ledger_info;
use crate::ledger::AccountAddress;
use crate::ledger::LedgerInfo;
use crate::storage::PersistentSafetyStorage;
use vstd::prelude::*;

verus! {

/// The means to sign for a validator: either the private key itself, or the
/// public key under which the storage holds the private key.
#[derive(Clone, Copy, PartialEq, Eq)]
pub enum ConfigurableValidatorSigner {
    Signer { author: AccountAddress, private_key: PrivateKey },
    Handle { author: AccountAddress, key_version: PublicKey },
}

impl ConfigurableValidatorSigner {
    /// The validator that the signer signs for.
    pub open spec fn spec_author(&self) -> AccountAddress {
        match self {
            ConfigurableValidatorSigner::Signer { author, .. } => *author,
            ConfigurableValidatorSigner::Handle { author, .. } => *author,
        }
    }

    /// The public key under which the signatures hold.
    pub open spec fn spec_public_key(&self) -> PublicKey {
        match self {
            ConfigurableValidatorSigner::Signer { private_key, .. } => PublicKey {
                bytes: ed25519_public_key(private_key.bytes),
            },
            ConfigurableValidatorSigner::Handle { key_version, .. } => *key_version,
        }
    }

    /// The signature on the bytes of a message: by the key held, or by the
    /// key that the storage holds under the public key.
    pub open spec fn spec_sign(
        &self,
        message: Seq<u8>,
        storage: &PersistentSafetyStorage,
    ) -> Result<Signature, ErrorView> {
        match self {
            ConfigurableValidatorSigner::Signer { private_key, .. } => Ok(
                Signature { bytes: ed25519_signature(private_key.bytes, message) },
            ),
            ConfigurableValidatorSigner::Handle { key_version, .. } => storage.spec_sign(*key_version, message),
        }
    }

    /// The signature on a ledger info, by the same key as `spec_sign`.
    pub open spec fn spec_sign_ledger_info(
        &self,
        ledger_info: LedgerInfo,
        storage: &PersistentSafetyStorage,
    ) -> Result<Signature, ErrorView> {
        match self {
            ConfigurableValidatorSigner::Signer { private_key, .. } => Ok(
                Signature { bytes: ledger_info_signature(private_key.bytes, ledger_info) },
            ),
            ConfigurableValidatorSigner::Handle { key_version, .. } => storage.spec_sign_ledger_info(
                *key_version,
                ledger_info,
            ),
        }
    }

    /// A signer that holds the private key.
    pub fn new_signer(
        author: AccountAddress,
        private_key: PrivateKey,
    ) -> (signer: ConfigurableValidatorSigner)
        ensures
            signer == (ConfigurableValidatorSigner::Signer { author, private_key }),
    {
        ConfigurableValidatorSigner::Signer { author, private_key }
    }

    /// A signer that leaves the private key in the storage.
    pub fn new_handle(
        author: AccountAddress,
        key_version: PublicKey,
    ) -> (signer: ConfigurableValidatorSigner)
        ensures
            signer == (ConfigurableValidatorSigner::Handle { author, key_version }),
    {
        ConfigurableValidatorSigner::Handle { author, key_version }
    }

    /// The validator that the signer signs for.
    pub fn author(&self) -> (author: AccountAddress)
        ensures
            author == self.spec_author(),
    {
        match self {
            ConfigurableValidatorSigner::Signer { author, .. } => *author,
            ConfigurableValidatorSigner::Handle { author, .. } => *author,
        }
    }

    /// The public key under which the signatures hold.
    pub fn public_key(&self) -> (key: PublicKey)
        ensures
            key == self.spec_public_key(),
    {
        match self {
            ConfigurableValidatorSigner::Signer { private_key, .. } => derive_public_key(private_key),
            ConfigurableValidatorSigner::Handle { key_version, .. } => *key_version,
        }
    }

    /// Signs the bytes of a message.
    pub fn sign(
        &self,
        message: &Vec<u8>,
        storage: &PersistentSafetyStorage,
    ) -> (r: Result<Signature, Error>)
        ensures
            outcome(r) == self.spec_sign(message@, storage),
    {
        match self {
            ConfigurableValidatorSigner::Signer { private_key, .. } => Ok(sign_bytes(private_key, message)),
            ConfigurableValidatorSigner::Handle { key_version, .. } => storage.sign(key_version, message),
        }
    }

    /// Signs a ledger info.
    pub fn sign_ledger_info(
        &self,
        ledger_info: &LedgerInfo,
        storage: &PersistentSafetyStorage,
    ) -> (r: Result<Signature, Error>)
        ensures
            outcome(r) == self.spec_sign_ledger_info(*ledger_info, storage),
    {
        match self {
            ConfigurableValidatorSigner::Signer { private_key, .. } => Ok(
                sign_ledger_info(private_key, ledger_info),
            ),
            ConfigurableValidatorSigner::Handle { key_version, .. } => storage.sign_ledger_info(
                key_version,
                ledger_info,
            ),
        }
    }
}

} // verus!
