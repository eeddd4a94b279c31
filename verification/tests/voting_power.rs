use diem_crypto::ed25519::Ed25519PrivateKey;
use diem_crypto::hash::HashValue as ChainHash;
use diem_crypto::hash::ACCUMULATOR_PLACEHOLDER_HASH;
use diem_crypto::PrivateKey as KeyPair;
use diem_crypto::SigningKey;
use diem_types::account_address::AccountAddress as ChainAddress;
use diem_types::block_info::BlockInfo as ChainBlockInfo;
use diem_types::epoch_change::EpochChangeProof;
use diem_types::epoch_state::EpochState as ChainEpochState;
use diem_types::ledger_info::LedgerInfo as ChainLedgerInfo;
use diem_types::ledger_info::LedgerInfoWithSignatures as ChainSignedLedgerInfo;
use diem_types::validator_verifier::ValidatorConsensusInfo;
use diem_types::validator_verifier::ValidatorVerifier;
use diem_types::waypoint::Waypoint as ChainWaypoint;
use safety_rules::consensus::SafetyData;
use safety_rules::crypto::HashValue;
use safety_rules::crypto::PrivateKey;
use safety_rules::error::Error;
use safety_rules::ledger::check_proof_powers;
use safety_rules::ledger::AccountAddress;
use safety_rules::ledger::BlockInfo;
use safety_rules::ledger::EpochState;
use safety_rules::ledger::LedgerInfo;
use safety_rules::ledger::LedgerInfoWithSignatures;
use safety_rules::ledger::Waypoint;
use safety_rules::safety_rules::SafetyRules;
use safety_rules::signer::ConfigurableValidatorSigner;
use safety_rules::storage::PersistentSafetyStorage;
use safety_rules::voting_power::sum_fits;
use std::collections::BTreeMap;

const HALF: u64 = 1 << 63;

fn first() -> AccountAddress {
    AccountAddress { bytes: [1u8; 16] }
}

fn second() -> AccountAddress {
    AccountAddress { bytes: [2u8; 16] }
}

fn first_key() -> PrivateKey {
    PrivateKey { bytes: [7u8; 32] }
}

fn second_key() -> PrivateKey {
    PrivateKey { bytes: [8u8; 32] }
}

fn chain_key(key: &PrivateKey) -> Ed25519PrivateKey {
    Ed25519PrivateKey::try_from(&key.bytes[..]).unwrap()
}

/// A validator set of two members with the given voting powers. It is read
/// from its binary form, as a set that came over the wire is: a map of two
/// entries, each an address, a key with its length before it and a power,
/// then the quorum and the total.
fn validators(first_power: u64, second_power: u64) -> ValidatorVerifier {
    let mut members = BTreeMap::new();
    members.insert(ChainAddress::new(first().bytes), ValidatorConsensusInfo::new(chain_key(&first_key()).public_key(), 1));
    members.insert(ChainAddress::new(second().bytes), ValidatorConsensusInfo::new(chain_key(&second_key()).public_key(), 1));
    let mut bytes = bcs::to_bytes(&ValidatorVerifier::new(members)).unwrap();
    assert_eq!(bytes.len(), 1 + 2 * (16 + 33 + 8) + 16);
    bytes[50..58].copy_from_slice(&first_power.to_le_bytes());
    bytes[107..115].copy_from_slice(&second_power.to_le_bytes());
    let read: ValidatorVerifier = bcs::from_bytes(&bytes).unwrap();
    assert_eq!(read.get_voting_power(&ChainAddress::new(first().bytes)), Some(first_power));
    assert_eq!(read.get_voting_power(&ChainAddress::new(second().bytes)), Some(second_power));
    read
}

fn epoch_end(epoch: u64, version: u64, next: ValidatorVerifier) -> ChainLedgerInfo {
    ChainLedgerInfo::new(
        ChainBlockInfo::new(
            epoch,
            0,
            ChainHash::zero(),
            ChainHash::zero(),
            version,
            0,
            Some(ChainEpochState { epoch: epoch + 1, verifier: next }),
        ),
        ChainHash::zero(),
    )
}

fn signed_by_both(ledger_info: &ChainLedgerInfo) -> BTreeMap<ChainAddress, diem_crypto::ed25519::Ed25519Signature> {
    let mut signatures = BTreeMap::new();
    signatures.insert(ChainAddress::new(first().bytes), chain_key(&first_key()).sign(ledger_info));
    signatures.insert(ChainAddress::new(second().bytes), chain_key(&second_key()).sign(ledger_info));
    signatures
}

fn waypoint_at(ledger_info: &ChainLedgerInfo) -> Waypoint {
    let made = ChainWaypoint::new_epoch_boundary(ledger_info).unwrap();
    Waypoint { version: made.version(), value: HashValue { bytes: *made.value().as_ref() } }
}

fn storage(waypoint: Waypoint) -> PersistentSafetyStorage {
    PersistentSafetyStorage {
        author: Some(first()),
        waypoint: Some(waypoint),
        safety_data: Some(SafetyData::new(1, 0, 0, 0, None)),
        execution_public_key: None,
        consensus_keys: vec![first_key()],
    }
}

fn ordered(round: u64) -> BlockInfo {
    BlockInfo {
        epoch: 1,
        round,
        id: HashValue { bytes: [round as u8; 32] },
        executed_state_id: HashValue { bytes: *ACCUMULATOR_PLACEHOLDER_HASH.as_ref() },
        version: 0,
        timestamp_usecs: 7,
        next_epoch_state: None,
    }
}

fn chain_ordered(round: u64) -> ChainLedgerInfo {
    ChainLedgerInfo::new(
        ChainBlockInfo::new(
            1,
            round,
            ChainHash::new([round as u8; 32]),
            *ACCUMULATOR_PLACEHOLDER_HASH,
            0,
            7,
            None,
        ),
        ChainHash::zero(),
    )
}

#[test]
fn powers_add_up_or_do_not() {
    assert!(sum_fits(&vec![]));
    assert!(sum_fits(&vec![0, 0, 0]));
    assert!(sum_fits(&vec![u64::MAX]));
    assert!(sum_fits(&vec![u64::MAX - 1, 1, 0]));
    assert!(sum_fits(&vec![HALF, HALF - 1]));
    assert!(!sum_fits(&vec![HALF, HALF]));
    assert!(!sum_fits(&vec![u64::MAX, 1]));
    assert!(!sum_fits(&vec![1, 2, u64::MAX - 2, 5]));
    assert!(!sum_fits(&vec![u64::MAX, u64::MAX, 2]));
}

#[test]
fn validator_set_tells_whether_its_powers_add_up() {
    assert!(EpochState { epoch: 1, verifier: validators(1, 1) }.powers_fit());
    assert!(EpochState { epoch: 1, verifier: validators(HALF, HALF - 1) }.powers_fit());
    assert!(!EpochState { epoch: 1, verifier: validators(HALF, HALF) }.powers_fit());
    assert!(!EpochState { epoch: 1, verifier: validators(1, u64::MAX) }.powers_fit());
}

#[test]
fn epoch_with_powers_that_do_not_add_up_is_not_entered() {
    let end = epoch_end(1, 100, validators(1, 1));
    let mut rules = SafetyRules::new(storage(waypoint_at(&end)), false, true, false);
    let heavy = LedgerInfo::new(
        BlockInfo {
            epoch: 1,
            round: 0,
            id: HashValue::zero(),
            executed_state_id: HashValue::zero(),
            version: 100,
            timestamp_usecs: 0,
            next_epoch_state: Some(EpochState { epoch: 2, verifier: validators(HALF, HALF) }),
        },
        HashValue::zero(),
    );
    assert_eq!(rules.install_epoch(&heavy), Err(Error::InvalidLedgerInfo));
    assert!(rules.persistent_storage == storage(waypoint_at(&end)));
    assert_eq!(rules.epoch_state, None);
    let mut light = heavy.clone();
    light.commit_info.next_epoch_state = Some(EpochState { epoch: 2, verifier: validators(HALF, HALF - 1) });
    assert_eq!(rules.install_epoch(&light), Ok(()));
    assert_eq!(rules.epoch_state.clone().unwrap().epoch, 2);
}

#[test]
fn proof_with_powers_that_do_not_add_up_is_refused() {
    let first_end = epoch_end(1, 100, validators(HALF, HALF));
    let second_end = epoch_end(2, 200, validators(1, 1));
    let proof = EpochChangeProof::new(
        vec![
            ChainSignedLedgerInfo::new(first_end.clone(), BTreeMap::new()),
            ChainSignedLedgerInfo::new(second_end.clone(), signed_by_both(&second_end)),
        ],
        false,
    );
    assert!(!check_proof_powers(&proof));
    let mut rules = SafetyRules::new(storage(waypoint_at(&first_end)), false, true, false);
    assert_eq!(rules.initialize(&proof), Err(Error::InvalidEpochChangeProof));
    assert!(rules.persistent_storage == storage(waypoint_at(&first_end)));
    assert_eq!(rules.epoch_state, None);
}

#[test]
fn proof_with_powers_that_add_up_is_checked() {
    let first_end = epoch_end(1, 100, validators(HALF, HALF - 1));
    let second_end = epoch_end(2, 200, validators(1, 1));
    let proof = EpochChangeProof::new(
        vec![
            ChainSignedLedgerInfo::new(first_end.clone(), BTreeMap::new()),
            ChainSignedLedgerInfo::new(second_end.clone(), signed_by_both(&second_end)),
        ],
        false,
    );
    assert!(check_proof_powers(&proof));
    assert!(check_proof_powers(&EpochChangeProof::new(vec![], false)));
    let mut rules = SafetyRules::new(storage(waypoint_at(&first_end)), false, true, false);
    assert_eq!(rules.initialize(&proof), Ok(()));
    assert_eq!(rules.persistent_storage.waypoint, Some(waypoint_at(&second_end)));
    assert_eq!(rules.epoch_state.clone().unwrap().epoch, 3);
}

#[test]
fn commit_vote_under_powers_that_do_not_add_up_is_refused() {
    let end = epoch_end(1, 100, validators(1, 1));
    let mut rules = SafetyRules::new(storage(waypoint_at(&end)), false, true, true);
    rules.validator_signer = Some(ConfigurableValidatorSigner::new_signer(first(), first_key()));
    rules.epoch_state = Some(EpochState { epoch: 1, verifier: validators(HALF, HALF) });
    let signed = LedgerInfoWithSignatures {
        ledger_info: LedgerInfo::new(ordered(6), HashValue::zero()),
        signatures: signed_by_both(&chain_ordered(6)),
    };
    assert_eq!(
        rules.sign_commit_vote(signed, LedgerInfo::new(ordered(6), HashValue::zero())),
        Err(Error::InvalidQuorumCertificate("The voting powers of the validator set do not add up".to_string()))
    );
    rules.epoch_state = Some(EpochState { epoch: 1, verifier: validators(HALF, HALF - 1) });
    let signed = LedgerInfoWithSignatures {
        ledger_info: LedgerInfo::new(ordered(6), HashValue::zero()),
        signatures: signed_by_both(&chain_ordered(6)),
    };
    assert!(rules.sign_commit_vote(signed, LedgerInfo::new(ordered(6), HashValue::zero())).is_ok());
}
