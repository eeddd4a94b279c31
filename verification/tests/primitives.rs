use diem_crypto::ed25519::Ed25519PrivateKey;
use diem_crypto::hash::ACCUMULATOR_PLACEHOLDER_HASH;
use diem_crypto::PrivateKey as KeyPair;
use diem_types::account_address::AccountAddress as ChainAddress;
use diem_types::validator_verifier::ValidatorVerifier;
use safety_rules::consensus::Block;
use safety_rules::consensus::BlockData;
use safety_rules::consensus::QuorumCert;
use safety_rules::consensus::SafetyData;
use safety_rules::consensus::TwoChainTimeout;
use safety_rules::consensus::Vote;
use safety_rules::consensus::VoteData;
use safety_rules::crypto::HashValue;
use safety_rules::crypto::PrivateKey;
use safety_rules::crypto::PublicKey;
use safety_rules::crypto::Signature;
use safety_rules::error::Error;
use safety_rules::ledger::AccountAddress;
use safety_rules::ledger::BlockInfo;
use safety_rules::ledger::EpochState;
use safety_rules::ledger::LedgerInfo;
use safety_rules::ledger::Waypoint;
use safety_rules::safety_rules::SafetyRules;
use safety_rules::signer::ConfigurableValidatorSigner;
use safety_rules::storage::PersistentSafetyStorage;
use safety_rules::text::append_decimal;
use safety_rules::text::round_not_higher;
use safety_rules::text::stale_epoch;

fn author() -> AccountAddress {
    AccountAddress { bytes: [1u8; 16] }
}

fn public_key(key: &PrivateKey) -> PublicKey {
    PublicKey { bytes: Ed25519PrivateKey::try_from(&key.bytes[..]).unwrap().public_key().to_bytes() }
}

fn storage(keys: Vec<PrivateKey>) -> PersistentSafetyStorage {
    PersistentSafetyStorage {
        author: Some(author()),
        waypoint: Some(Waypoint { version: 3, value: HashValue::zero() }),
        safety_data: Some(SafetyData::new(1, 0, 0, 0, None)),
        execution_public_key: None,
        consensus_keys: keys,
    }
}

fn placeholder() -> HashValue {
    HashValue { bytes: *ACCUMULATOR_PLACEHOLDER_HASH.as_ref() }
}

fn ordered(round: u64) -> BlockInfo {
    BlockInfo {
        epoch: 1,
        round,
        id: HashValue { bytes: [round as u8; 32] },
        executed_state_id: placeholder(),
        version: 0,
        timestamp_usecs: 7,
        next_epoch_state: None,
    }
}

fn quorum_cert(certified_round: u64, parent_round: u64) -> QuorumCert {
    QuorumCert { vote_data: VoteData { proposed: ordered(certified_round), parent: ordered(parent_round) } }
}

fn rules() -> SafetyRules {
    SafetyRules::new(storage(vec![]), false, true, true)
}

#[test]
fn digests_compare_by_their_bytes() {
    let zero = HashValue::zero();
    assert_eq!(zero.bytes, [0u8; 32]);
    assert!(zero.same(&HashValue { bytes: [0u8; 32] }));
    let mut other = [0u8; 32];
    other[31] = 1;
    assert!(!zero.same(&HashValue { bytes: other }));
    let a = AccountAddress { bytes: [1u8; 16] };
    let mut bytes = [1u8; 16];
    assert!(a.same(&AccountAddress { bytes }));
    bytes[0] = 2;
    assert!(!a.same(&AccountAddress { bytes }));
    let key = PublicKey { bytes: [4u8; 32] };
    assert!(key.same(&PublicKey { bytes: [4u8; 32] }));
    assert!(!key.same(&PublicKey { bytes: [5u8; 32] }));
}

#[test]
fn empty_block_info_is_all_zero() {
    let empty = BlockInfo::empty();
    assert_eq!(empty.epoch, 0);
    assert_eq!(empty.round, 0);
    assert_eq!(empty.id, HashValue::zero());
    assert_eq!(empty.executed_state_id, HashValue::zero());
    assert_eq!(empty.version, 0);
    assert_eq!(empty.timestamp_usecs, 0);
    assert_eq!(empty.next_epoch_state, None);
    assert!(empty.is_empty());
    assert!(!ordered(1).is_empty());
    let mut almost = BlockInfo::empty();
    almost.timestamp_usecs = 1;
    assert!(!almost.is_empty());
}

#[test]
fn ordered_only_block_info_has_placeholders() {
    assert!(ordered(3).is_ordered_only());
    assert!(!BlockInfo::empty().is_ordered_only());
    let mut executed = ordered(3);
    executed.version = 1;
    assert!(!executed.is_ordered_only());
    let mut with_state = ordered(3);
    with_state.executed_state_id = HashValue { bytes: [1u8; 32] };
    assert!(!with_state.is_ordered_only());
    let mut ending = ordered(3);
    let verifier = ValidatorVerifier::new_single(
        ChainAddress::new(author().bytes),
        Ed25519PrivateKey::try_from(&[7u8; 32][..]).unwrap().public_key(),
    );
    ending.next_epoch_state = Some(EpochState { epoch: 2, verifier });
    assert!(!ending.is_ordered_only());
}

#[test]
fn match_ordered_only_ignores_what_execution_sets() {
    let mut executed = ordered(3);
    executed.executed_state_id = HashValue { bytes: [1u8; 32] };
    executed.version = 99;
    assert!(ordered(3).match_ordered_only(&executed));
    let mut other = ordered(3);
    other.epoch = 2;
    assert!(!ordered(3).match_ordered_only(&other));
    assert!(!ordered(3).match_ordered_only(&ordered(4)));
    let mut later = ordered(3);
    later.timestamp_usecs = 8;
    assert!(!ordered(3).match_ordered_only(&later));
    let mut renamed = ordered(3);
    renamed.id = HashValue { bytes: [9u8; 32] };
    assert!(!ordered(3).match_ordered_only(&renamed));
}

#[test]
fn storage_gives_what_it_holds() {
    let held = storage(vec![]);
    assert_eq!(held.author(), Ok(author()));
    assert_eq!(held.waypoint(), Ok(Waypoint { version: 3, value: HashValue::zero() }));
    assert_eq!(held.safety_data(), Ok(SafetyData::new(1, 0, 0, 0, None)));
    assert_eq!(held.execution_public_key(), Err(Error::SecureStorageMissingDataError("execution".to_string())));
    let bare = PersistentSafetyStorage {
        author: None,
        waypoint: None,
        safety_data: None,
        execution_public_key: Some(PublicKey { bytes: [3u8; 32] }),
        consensus_keys: vec![],
    };
    assert_eq!(bare.author(), Err(Error::SecureStorageMissingDataError("owner_account".to_string())));
    assert_eq!(bare.waypoint(), Err(Error::SecureStorageMissingDataError("waypoint".to_string())));
    assert_eq!(bare.safety_data(), Err(Error::SecureStorageMissingDataError("safety_data".to_string())));
    assert_eq!(bare.execution_public_key(), Ok(PublicKey { bytes: [3u8; 32] }));
}

#[test]
fn storage_writes_replace_one_value() {
    let mut held = storage(vec![PrivateKey { bytes: [7u8; 32] }]);
    let waypoint = Waypoint { version: 9, value: HashValue { bytes: [9u8; 32] } };
    assert_eq!(held.set_waypoint(&waypoint), Ok(()));
    assert_eq!(held.set_safety_data(SafetyData::new(4, 3, 2, 1, None)), Ok(()));
    let mut expected = storage(vec![PrivateKey { bytes: [7u8; 32] }]);
    expected.waypoint = Some(waypoint);
    expected.safety_data = Some(SafetyData::new(4, 3, 2, 1, None));
    assert!(held == expected);
    assert!(held.clone() == expected);
}

#[test]
fn storage_finds_the_key_by_its_public_key() {
    let old = PrivateKey { bytes: [7u8; 32] };
    let new = PrivateKey { bytes: [8u8; 32] };
    let held = storage(vec![new, old]);
    assert!(held.consensus_key_for_version(&public_key(&old)) == Ok(old));
    assert!(held.consensus_key_for_version(&public_key(&new)) == Ok(new));
    assert!(held.consensus_key_for_version(&public_key(&PrivateKey { bytes: [9u8; 32] })) == Err(Error::SecureStorageMissingDataError("consensus".to_string())));
    assert!(held.consensus_key_for_version(&PublicKey { bytes: old.bytes }) == Err(Error::SecureStorageMissingDataError("consensus".to_string())));
    assert_eq!(
        held.sign(&public_key(&old), &vec![1, 2]),
        ConfigurableValidatorSigner::new_signer(author(), old).sign(&vec![1, 2], &held)
    );
    assert_ne!(held.sign(&public_key(&old), &vec![1, 2]), held.sign(&public_key(&new), &vec![1, 2]));
    assert_ne!(held.sign(&public_key(&old), &vec![1, 2]), held.sign(&public_key(&old), &vec![1, 3]));
}

#[test]
fn signer_names_its_author_and_key() {
    let key = PrivateKey { bytes: [7u8; 32] };
    let with_key = ConfigurableValidatorSigner::new_signer(author(), key);
    let with_handle = ConfigurableValidatorSigner::new_handle(author(), public_key(&key));
    assert_eq!(with_key.author(), author());
    assert_eq!(with_handle.author(), author());
    assert_eq!(with_key.public_key(), public_key(&key));
    assert_ne!(with_key.public_key(), PublicKey { bytes: key.bytes });
    assert_eq!(with_handle.public_key(), public_key(&key));
    let held = storage(vec![key]);
    let ledger_info = LedgerInfo::new(ordered(3), HashValue::zero());
    assert_eq!(with_key.sign_ledger_info(&ledger_info, &held), with_handle.sign_ledger_info(&ledger_info, &held));
    assert_eq!(
        with_handle.sign_ledger_info(&ledger_info, &storage(vec![])),
        Err(Error::SecureStorageMissingDataError("consensus".to_string()))
    );
    let other = LedgerInfo::new(ordered(4), HashValue::zero());
    assert_ne!(with_key.sign_ledger_info(&ledger_info, &held), with_key.sign_ledger_info(&other, &held));
}

#[test]
fn observing_a_certificate_only_raises_rounds() {
    let engine = rules();
    let mut data = SafetyData::new(1, 2, 5, 6, None);
    assert!(!engine.observe_qc(&quorum_cert(6, 5), &mut data));
    assert_eq!(data, SafetyData::new(1, 2, 5, 6, None));
    assert!(engine.observe_qc(&quorum_cert(7, 4), &mut data));
    assert_eq!(data, SafetyData::new(1, 2, 5, 7, None));
    assert!(engine.observe_qc(&quorum_cert(3, 6), &mut data));
    assert_eq!(data, SafetyData::new(1, 2, 6, 7, None));
    assert!(engine.observe_qc(&quorum_cert(9, 8), &mut data));
    assert_eq!(data, SafetyData::new(1, 2, 8, 9, None));
}

#[test]
fn voting_rules_update_or_refuse() {
    let mut engine = rules();
    let mut data = SafetyData::new(1, 5, 3, 4, None);
    assert_eq!(engine.verify_and_update_last_vote_round(5, &mut data), Err(Error::IncorrectLastVotedRound(5, 5)));
    assert_eq!(engine.verify_and_update_last_vote_round(2, &mut data), Err(Error::IncorrectLastVotedRound(2, 5)));
    assert_eq!(data, SafetyData::new(1, 5, 3, 4, None));
    assert_eq!(engine.verify_and_update_last_vote_round(6, &mut data), Ok(()));
    assert_eq!(data, SafetyData::new(1, 6, 3, 4, None));

    assert_eq!(
        engine.verify_and_update_preferred_round(&quorum_cert(2, 1), &mut data),
        Err(Error::IncorrectPreferredRound(2, 3))
    );
    assert_eq!(data, SafetyData::new(1, 6, 3, 4, None));
    assert_eq!(engine.verify_and_update_preferred_round(&quorum_cert(3, 2), &mut data), Ok(false));
    assert_eq!(engine.verify_and_update_preferred_round(&quorum_cert(8, 7), &mut data), Ok(true));
    assert_eq!(data, SafetyData::new(1, 6, 7, 8, None));

    assert_eq!(engine.verify_epoch(1, &data), Ok(()));
    assert_eq!(engine.verify_epoch(2, &data), Err(Error::IncorrectEpoch(2, 1)));
    assert_eq!(engine.verify_epoch(0, &data), Err(Error::IncorrectEpoch(0, 1)));
}

#[test]
fn checks_need_an_initialized_engine() {
    let mut engine = rules();
    assert_eq!(engine.verify_qc(&Ok(())), Err(Error::NotInitialized("epoch_state".to_string())));
    assert!(engine.verify_author(Some(author())) == Err(Error::NotInitialized("validator_signer".to_string())));
    assert!(engine.sign(&vec![1]) == Err(Error::NotInitialized("validator_signer".to_string())));
    assert!(engine.signer().is_err());
    assert!(engine.epoch_state().is_err());
    let key = PrivateKey { bytes: [7u8; 32] };
    let verifier =
        ValidatorVerifier::new_single(ChainAddress::new(author().bytes), Ed25519PrivateKey::try_from(&key.bytes[..]).unwrap().public_key());
    engine.epoch_state = Some(EpochState { epoch: 1, verifier });
    engine.validator_signer = Some(ConfigurableValidatorSigner::new_signer(author(), key));
    assert_eq!(engine.verify_qc(&Ok(())), Ok(()));
    assert_eq!(
        engine.verify_qc(&Err("no quorum".to_string())),
        Err(Error::InvalidQuorumCertificate("no quorum".to_string()))
    );
    assert_eq!(engine.verify_author(Some(author())), Ok(()));
    assert_eq!(engine.signer().map(|s| s.author()), Ok(author()));
    assert_eq!(engine.epoch_state().map(|s| s.epoch), Ok(1));
}

#[test]
fn block_info_of_a_block_takes_its_fields() {
    let block = Block {
        id: HashValue { bytes: [6u8; 32] },
        block_data: BlockData {
            epoch: 2,
            round: 11,
            timestamp_usecs: 1234,
            quorum_cert: quorum_cert(10, 9),
            author: Some(author()),
        },
        signature: None,
    };
    let info = block.gen_block_info(HashValue { bytes: [5u8; 32] }, 77, None);
    assert_eq!(
        info,
        BlockInfo {
            epoch: 2,
            round: 11,
            id: HashValue { bytes: [6u8; 32] },
            executed_state_id: HashValue { bytes: [5u8; 32] },
            version: 77,
            timestamp_usecs: 1234,
            next_epoch_state: None,
        }
    );
    assert_eq!(block.block_data.quorum_cert.certified_block().round, 10);
    assert_eq!(block.block_data.quorum_cert.parent_block().round, 9);
    let timeout = TwoChainTimeout { epoch: 2, round: 12, quorum_cert: quorum_cert(10, 9) };
    assert_eq!(timeout.hqc_round(), 10);
}

#[test]
fn vote_holds_what_it_was_made_of() {
    let data = VoteData { proposed: ordered(5), parent: ordered(4) };
    let ledger_info = LedgerInfo::new(ordered(3), HashValue { bytes: [2u8; 32] });
    let vote = Vote::new_with_signature(data.clone(), author(), ledger_info.clone(), Signature { bytes: [1u8; 64] });
    assert_eq!(vote.vote_data, data);
    assert_eq!(vote.author, author());
    assert_eq!(vote.ledger_info, ledger_info);
    assert_eq!(vote.signature, Signature { bytes: [1u8; 64] });
    assert_eq!(vote.clone(), vote);
    assert_eq!(ledger_info.commit_info, ordered(3));
    assert_eq!(ledger_info.consensus_data_hash, HashValue { bytes: [2u8; 32] });
}

#[test]
fn numbers_are_written_in_decimal_digits() {
    for n in [0u64, 7, 9, 10, 11, 99, 100, 101, 1234567890, u64::MAX - 1, u64::MAX] {
        let mut text = String::from("round ");
        append_decimal(&mut text, n);
        assert_eq!(text, format!("round {}", n));
    }
    assert_eq!(round_not_higher(4, 18446744073709551615), "Proposed round 4 is not higher than last voted round 18446744073709551615");
    assert_eq!(stale_epoch(0, 1), "Provided epoch 0 is older than current 1, likely waypoint is too old");
}
