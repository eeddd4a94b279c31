use crate::crypto::accumulator_placeholder;
use crate::crypto::HashValue;
use crate::crypto::PrivateKey;
use crate::crypto::PublicKey;
use crate::crypto::Signature;
use crate::error::outcome_text;
use crate::voting_power::sum_fits;
use crate::voting_power::total_power;
use diem_crypto::ed25519::Ed25519PrivateKey;
use diem_crypto::ed25519::Ed25519Signature;
use diem_crypto::hash::HashValue as ChainHash;
use diem_crypto::SigningKey;
use diem_types::account_address::AccountAddress as ChainAddress;
use diem_types::block_info::BlockInfo as ChainBlockInfo;
use diem_types::epoch_change::EpochChangeProof;
use diem_types::epoch_state::EpochState as ChainEpochState;
use diem_types::ledger_info::LedgerInfo as ChainLedgerInfo;
use diem_types::ledger_info::LedgerInfoWithSignatures as ChainSignedLedgerInfo;
use diem_types::validator_verifier::ValidatorVerifier;
use diem_types::waypoint::Waypoint as ChainWaypoint;
use std::collections::BTreeMap;
use std::str::FromStr;
use vstd::prelude::*;

verus! {

/// `ValidatorVerifier` of diem_types: a validator set, with the public key
/// and the voting power of each member and the voting power of a quorum.
#[verifier::external_type_specification]
#[verifier::external_body]
pub struct ExValidatorVerifier(diem_types::validator_verifier::ValidatorVerifier);

/// `EpochChangeProof` of diem_types: ledger infos with their signatures,
/// each of which ends one epoch and names the validator set of the next.
#[verifier::external_type_specification]
#[verifier::external_body]
pub struct ExEpochChangeProof(diem_types::epoch_change::EpochChangeProof);

/// `AccountAddress` as diem_types has it, by which a set of signatures
/// names each signer.
#[verifier::external_type_specification]
#[verifier::external_body]
pub struct ExChainAddress(ChainAddress);

/// `Ed25519Signature` of diem_crypto: a signature that was decoded, as a set
/// of signatures holds it.
#[verifier::external_type_specification]
#[verifier::external_body]
pub struct ExEd25519Signature(diem_crypto::ed25519::Ed25519Signature);

/// The address of an account: 16 bytes.
#[derive(Clone, Copy, Debug, PartialEq, Eq)]
pub struct AccountAddress {
    pub bytes: [u8; 16],
}

impl AccountAddress {
    /// Whether two addresses hold the same bytes.
    pub fn same(&self, other: &AccountAddress) -> (r: bool)
        ensures
            r == (*self == *other),
    {
        let mut i: usize = 0;
        while i < 16
            invariant
                0 <= i <= 16,
                forall|j: int| 0 <= j < i ==> self.bytes[j] == other.bytes[j],
            decreases 16 - i,
        {
            if self.bytes[i] != other.bytes[i] {
                return false;
            }
            i += 1;
        }
        assert(self.bytes =~= other.bytes);
        true
    }
}

/// The validator set of an epoch, with the epoch's number.
#[derive(Debug, PartialEq, Eq)]
pub struct EpochState {
    pub epoch: u64,
    pub verifier: ValidatorVerifier,
}

impl EpochState {
    /// Whether the voting powers of the validator set add up within a `u64`.
    pub fn powers_fit(&self) -> (r: bool)
        ensures
            r == powers_fit(self.verifier),
    {
        sum_fits(&voting_powers(&self.verifier))
    }
}

/// Whether each validator set that an epoch change proof names has voting
/// powers that add up within a `u64`.
pub fn check_proof_powers(proof: &EpochChangeProof) -> (r: bool)
    ensures
        r == proof_powers_fit(*proof),
{
    let all = proof_voting_powers(proof);
    let mut i: usize = 0;
    while i < all.len()
        invariant
            0 <= i <= all.len(),
            all@.len() == proof_ledger_infos(*proof).len(),
            forall|j: int| 0 <= j < all@.len() ==> (#[trigger] all@[j])@ == next_powers(proof_ledger_infos(*proof)[j].0),
            forall|j: int|
                0 <= j < i ==> total_power(#[trigger] next_powers(proof_ledger_infos(*proof)[j].0)) <= u64::MAX,
        decreases all.len() - i,
    {
        if !sum_fits(&all[i]) {
            assert(all@[i as int]@ == next_powers(proof_ledger_infos(*proof)[i as int].0));
            return false;
        }
        assert(all@[i as int]@ == next_powers(proof_ledger_infos(*proof)[i as int].0));
        i += 1;
    }
    true
}

impl Clone for EpochState {
    fn clone(&self) -> (copy: EpochState)
        ensures
            copy == *self,
    {
        EpochState { epoch: self.epoch, verifier: clone_verifier(&self.verifier) }
    }
}

/// What is known of a block without the block itself.
#[derive(Debug, PartialEq, Eq)]
pub struct BlockInfo {
    pub epoch: u64,
    pub round: u64,
    pub id: HashValue,
    pub executed_state_id: HashValue,
    pub version: u64,
    pub timestamp_usecs: u64,
    pub next_epoch_state: Option<EpochState>,
}

impl Clone for BlockInfo {
    fn clone(&self) -> (copy: BlockInfo)
        ensures
            copy == *self,
    {
        let next = match &self.next_epoch_state {
            Some(state) => Some(state.clone()),
            None => None,
        };
        BlockInfo {
            epoch: self.epoch,
            round: self.round,
            id: self.id,
            executed_state_id: self.executed_state_id,
            version: self.version,
            timestamp_usecs: self.timestamp_usecs,
            next_epoch_state: next,
        }
    }
}

impl BlockInfo {
    /// The block info that stands for "no block": every number is zero, both
    /// digests are zero, and no epoch follows.
    pub open spec fn spec_empty() -> BlockInfo {
        BlockInfo {
            epoch: 0,
            round: 0,
            id: HashValue::spec_zero(),
            executed_state_id: HashValue::spec_zero(),
            version: 0,
            timestamp_usecs: 0,
            next_epoch_state: None,
        }
    }

    /// The block was ordered and not yet executed: it is not empty, no epoch
    /// follows it, and state and version are the placeholders.
    pub open spec fn spec_is_ordered_only(&self) -> bool {
        &&& *self != BlockInfo::spec_empty()
        &&& self.next_epoch_state.is_none()
        &&& self.executed_state_id == HashValue::spec_placeholder()
        &&& self.version == 0
    }

    /// The two agree on what execution does not change.
    pub open spec fn spec_match_ordered_only(&self, other: &BlockInfo) -> bool {
        &&& self.epoch == other.epoch
        &&& self.round == other.round
        &&& self.id == other.id
        &&& self.timestamp_usecs == other.timestamp_usecs
    }

    /// The block info that stands for "no block".
    pub fn empty() -> (info: BlockInfo)
        ensures
            info == BlockInfo::spec_empty(),
    {
        BlockInfo {
            epoch: 0,
            round: 0,
            id: HashValue::zero(),
            executed_state_id: HashValue::zero(),
            version: 0,
            timestamp_usecs: 0,
            next_epoch_state: None,
        }
    }

    /// Whether this is the block info that stands for "no block".
    pub fn is_empty(&self) -> (r: bool)
        ensures
            r == (*self == BlockInfo::spec_empty()),
    {
        let zero = HashValue::zero();
        self.epoch == 0 && self.round == 0 && self.id.same(&zero)
            && self.executed_state_id.same(&zero) && self.version == 0
            && self.timestamp_usecs == 0 && self.next_epoch_state.is_none()
    }

    /// Whether the block was ordered and not yet executed.
    pub fn is_ordered_only(&self) -> (r: bool)
        ensures
            r == self.spec_is_ordered_only(),
    {
        let placeholder = accumulator_placeholder();
        !self.is_empty() && self.next_epoch_state.is_none()
            && self.executed_state_id.same(&placeholder) && self.version == 0
    }

    /// Whether the two agree on what execution does not change.
    pub fn match_ordered_only(&self, other: &BlockInfo) -> (r: bool)
        ensures
            r == self.spec_match_ordered_only(other),
    {
        self.epoch == other.epoch && self.round == other.round && self.id.same(&other.id)
            && self.timestamp_usecs == other.timestamp_usecs
    }
}

/// A commitment to the ledger: the block that is committed, and the digest of
/// what consensus voted on.
#[derive(Debug, PartialEq, Eq)]
pub struct LedgerInfo {
    pub commit_info: BlockInfo,
    pub consensus_data_hash: HashValue,
}

impl Clone for LedgerInfo {
    fn clone(&self) -> (copy: LedgerInfo)
        ensures
            copy == *self,
    {
        LedgerInfo {
            commit_info: self.commit_info.clone(),
            consensus_data_hash: self.consensus_data_hash,
        }
    }
}

impl LedgerInfo {
    /// A ledger info made of its two parts.
    pub fn new(commit_info: BlockInfo, consensus_data_hash: HashValue) -> (info: LedgerInfo)
        ensures
            info.commit_info == commit_info,
            info.consensus_data_hash == consensus_data_hash,
    {
        LedgerInfo { commit_info, consensus_data_hash }
    }
}

/// A ledger info with the signatures of validators on it, by their addresses.
#[derive(Debug, PartialEq, Eq)]
pub struct LedgerInfoWithSignatures {
    pub ledger_info: LedgerInfo,
    pub signatures: BTreeMap<ChainAddress, Ed25519Signature>,
}

/// A commitment to the ledger at an epoch's end: the version it was made at
/// and a digest of the ledger info.
#[derive(Clone, Copy, Debug, PartialEq, Eq)]
pub struct Waypoint {
    pub version: u64,
    pub value: HashValue,
}

/// What a validator set holds: the public key and the voting power of each
/// member, by its address.
pub uninterp spec fn verifier_members(verifier: ValidatorVerifier) -> Map<[u8; 16], ([u8; 32], u64)>;

/// The voting powers of the members of a validator set, in the order of
/// their addresses.
pub uninterp spec fn verifier_powers(verifier: ValidatorVerifier) -> Seq<u64>;

/// The voting powers of a validator set add up to a number that a `u64`
/// holds. Only such a set can check signatures: it adds up the powers of
/// the signers.
pub open spec fn powers_fit(verifier: ValidatorVerifier) -> bool {
    total_power(verifier_powers(verifier)) <= u64::MAX
}

/// The voting powers of the validator set that a ledger info names for the
/// next epoch; none where it names no next epoch.
pub open spec fn next_powers(ledger_info: LedgerInfo) -> Seq<u64> {
    match ledger_info.commit_info.next_epoch_state {
        Some(state) => verifier_powers(state.verifier),
        None => Seq::empty(),
    }
}

/// Each validator set that an epoch change proof names has voting powers
/// that add up to a number that a `u64` holds.
pub open spec fn proof_powers_fit(proof: EpochChangeProof) -> bool {
    forall|i: int|
        0 <= i < proof_ledger_infos(proof).len() ==> total_power(
            #[trigger] next_powers(proof_ledger_infos(proof)[i].0),
        ) <= u64::MAX
}

/// The voting power that makes a quorum of a validator set.
pub uninterp spec fn verifier_quorum(verifier: ValidatorVerifier) -> u64;

/// What a set of signatures holds: the signature of each signer, by its address.
pub uninterp spec fn signature_entries(signatures: BTreeMap<ChainAddress, Ed25519Signature>) -> Map<[u8; 16], [u8; 64]>;

/// What the check of the signatures on a ledger info under a validator set
/// gives: that they carry a quorum and all hold, or the text of the reason
/// why not.
pub uninterp spec fn signatures_verdict(
    ledger_info: LedgerInfo,
    signatures: Map<[u8; 16], [u8; 64]>,
    members: Map<[u8; 16], ([u8; 32], u64)>,
    quorum: u64,
) -> Result<(), Seq<char>>;

/// What an epoch change proof holds: its ledger infos, first to last, each
/// with the signatures on it.
pub uninterp spec fn proof_ledger_infos(proof: EpochChangeProof) -> Seq<(LedgerInfo, Map<[u8; 16], [u8; 64]>)>;

/// What the check of the ledger infos of an epoch change proof against a
/// waypoint gives: that each leads to the next, from the waypoint on, or the
/// text of the reason why not.
pub uninterp spec fn epoch_change_verdict(
    ledger_infos: Seq<(LedgerInfo, Map<[u8; 16], [u8; 64]>)>,
    waypoint: Waypoint,
) -> Result<(), Seq<char>>;

/// The signature that a private key gives on a ledger info.
pub uninterp spec fn ledger_info_signature(
    private_key: [u8; 32],
    ledger_info: LedgerInfo,
) -> [u8; 64];

/// The digest that a waypoint holds for a ledger info.
pub uninterp spec fn waypoint_value(ledger_info: LedgerInfo) -> [u8; 32];

/// `ValidatorVerifier::get_public_key`: the key that the set holds for the
/// address, and `None` for an address that is no member.
#[verifier::external_body]
pub(crate) fn verifier_public_key(
    verifier: &ValidatorVerifier,
    author: &AccountAddress,
) -> (key: Option<PublicKey>)
    ensures
        key.is_some() == verifier_members(*verifier).contains_key(author.bytes),
        key.is_some() ==> key.unwrap().bytes == verifier_members(*verifier)[author.bytes].0,
{
    verifier.get_public_key(&ChainAddress::new(author.bytes)).map(|k| PublicKey { bytes: k.to_bytes() })
}

/// `ValidatorVerifier::get_ordered_account_addresses_iter`, and for each
/// address `ValidatorVerifier::get_voting_power`: the voting powers of the
/// members, in the order of their addresses.
#[verifier::external_body]
pub(crate) fn voting_powers(verifier: &ValidatorVerifier) -> (powers: Vec<u64>)
    ensures
        powers@ == verifier_powers(*verifier),
{
    verifier.get_ordered_account_addresses_iter().flat_map(|a| verifier.get_voting_power(&a)).collect()
}

/// The same for each ledger info of an epoch change proof, first to last:
/// the voting powers of the validator set that it names for the next epoch,
/// and none where it names no next epoch. The ledger infos are read from
/// the field `ledger_info_with_sigs`.
#[verifier::external_body]
pub(crate) fn proof_voting_powers(proof: &EpochChangeProof) -> (powers: Vec<Vec<u64>>)
    ensures
        powers@.len() == proof_ledger_infos(*proof).len(),
        forall|i: int|
            0 <= i < powers@.len() ==> (#[trigger] powers@[i])@ == next_powers(proof_ledger_infos(*proof)[i].0),
{
    let of = |v: &ValidatorVerifier| v.get_ordered_account_addresses_iter().flat_map(|a| v.get_voting_power(&a)).collect();
    let next = |l: &ChainSignedLedgerInfo| l.ledger_info().next_epoch_state().map_or(Vec::new(), |s| of(&s.verifier));
    proof.ledger_info_with_sigs.iter().map(next).collect()
}

/// `ValidatorVerifier::clone`, which `derive` wrote: the copy is the same set.
#[verifier::external_body]
pub(crate) fn clone_verifier(verifier: &ValidatorVerifier) -> (copy: ValidatorVerifier)
    ensures
        copy == *verifier,
{
    verifier.clone()
}

/// `Ed25519PrivateKey::sign` on a diem_types `LedgerInfo` built from the same
/// fields. The claim is only that the signature is a function of the key and
/// of the ledger info.
#[verifier::external_body]
pub(crate) fn sign_ledger_info(
    private_key: &PrivateKey,
    ledger_info: &LedgerInfo,
) -> (signature: Signature)
    ensures
        signature.bytes == ledger_info_signature(private_key.bytes, *ledger_info),
{
    let c = &ledger_info.commit_info;
    let next = c.next_epoch_state.as_ref().map(|s| ChainEpochState { epoch: s.epoch, verifier: s.verifier.clone() });
    let id = ChainHash::new(c.id.bytes);
    let state = ChainHash::new(c.executed_state_id.bytes);
    let info = ChainBlockInfo::new(c.epoch, c.round, id, state, c.version, c.timestamp_usecs, next);
    let chain = ChainLedgerInfo::new(info, ChainHash::new(ledger_info.consensus_data_hash.bytes));
    let key = Ed25519PrivateKey::try_from(&private_key.bytes[..]).unwrap();
    Signature { bytes: key.sign(&chain).to_bytes() }
}

/// `Waypoint::new_epoch_boundary` on a diem_types `LedgerInfo` built from the
/// same fields. It fails exactly when the ledger info names no next epoch;
/// the waypoint has the ledger info's version, and its digest is a function
/// of the ledger info.
#[verifier::external_body]
pub(crate) fn epoch_boundary_waypoint(ledger_info: &LedgerInfo) -> (r: Result<Waypoint, String>)
    ensures
        r.is_ok() == ledger_info.commit_info.next_epoch_state.is_some(),
        r.is_ok() ==> r.unwrap().version == ledger_info.commit_info.version,
        r.is_ok() ==> r.unwrap().value.bytes == waypoint_value(*ledger_info),
{
    let c = &ledger_info.commit_info;
    let next = c.next_epoch_state.as_ref().map(|s| ChainEpochState { epoch: s.epoch, verifier: s.verifier.clone() });
    let id = ChainHash::new(c.id.bytes);
    let state = ChainHash::new(c.executed_state_id.bytes);
    let info = ChainBlockInfo::new(c.epoch, c.round, id, state, c.version, c.timestamp_usecs, next);
    let chain = ChainLedgerInfo::new(info, ChainHash::new(ledger_info.consensus_data_hash.bytes));
    let made = ChainWaypoint::new_epoch_boundary(&chain).map_err(|e| e.to_string())?;
    Ok(Waypoint { version: made.version(), value: HashValue { bytes: *made.value().as_ref() } })
}

/// `EpochChangeProof::verify` against a waypoint with the given version and
/// digest, which is built through the waypoint's text form: a version in
/// decimal digits, a colon and a digest in hexadecimal digits always make a
/// waypoint. Each validator set that the proof names checks the signatures
/// on the next ledger info and adds up voting powers for it, so the powers
/// of each must add up within a `u64`. Whether the
/// proof holds is a function of what it holds and of the waypoint. On
/// success the proof's last ledger info comes back, read field by field; on
/// failure the outside error's text.
#[verifier::external_body]
pub(crate) fn verify_epoch_change(
    proof: &EpochChangeProof,
    waypoint: &Waypoint,
) -> (r: Result<LedgerInfo, String>)
    requires
        proof_powers_fit(*proof),
    ensures
        match r {
            Ok(last) => epoch_change_verdict(proof_ledger_infos(*proof), *waypoint).is_ok()
                && proof_ledger_infos(*proof).len() > 0 && last == proof_ledger_infos(*proof).last().0,
            Err(text) => epoch_change_verdict(proof_ledger_infos(*proof), *waypoint) == Err::<(), Seq<char>>(text@),
        },
{
    let text = format!("{}:{}", waypoint.version, ChainHash::new(waypoint.value.bytes).to_hex());
    let last = proof.verify(&ChainWaypoint::from_str(&text).unwrap()).map_err(|e| e.to_string())?.ledger_info();
    let c = last.commit_info();
    let commit_info = BlockInfo {
        epoch: c.epoch(),
        round: c.round(),
        id: HashValue { bytes: *c.id() },
        executed_state_id: HashValue { bytes: *c.executed_state_id() },
        version: c.version(),
        timestamp_usecs: c.timestamp_usecs(),
        next_epoch_state: c.next_epoch_state().map(|s| EpochState { epoch: s.epoch, verifier: s.verifier.clone() }),
    };
    Ok(LedgerInfo { commit_info, consensus_data_hash: HashValue { bytes: *last.consensus_data_hash() } })
}

/// `LedgerInfoWithV0::verify_signatures` on a diem_types
/// `LedgerInfoWithSignatures` built from the same fields: whether the
/// signatures carry a quorum of the validator set and all hold. The error is
/// the outside error's text. The set adds up the voting powers of the
/// signers, so its powers must add up within a `u64`. The claim is only that
/// the outcome is a function of the ledger info, of the signatures, and of
/// the members and the quorum of the validator set.
#[verifier::external_body]
pub(crate) fn verify_signatures(
    signed: &LedgerInfoWithSignatures,
    verifier: &ValidatorVerifier,
) -> (r: Result<(), String>)
    requires
        powers_fit(*verifier),
    ensures
        outcome_text(r) == signatures_verdict(
            signed.ledger_info,
            signature_entries(signed.signatures),
            verifier_members(*verifier),
            verifier_quorum(*verifier),
        ),
{
    let c = &signed.ledger_info.commit_info;
    let next = c.next_epoch_state.as_ref().map(|s| ChainEpochState { epoch: s.epoch, verifier: s.verifier.clone() });
    let id = ChainHash::new(c.id.bytes);
    let state = ChainHash::new(c.executed_state_id.bytes);
    let info = ChainBlockInfo::new(c.epoch, c.round, id, state, c.version, c.timestamp_usecs, next);
    let chain = ChainLedgerInfo::new(info, ChainHash::new(signed.ledger_info.consensus_data_hash.bytes));
    let outside = ChainSignedLedgerInfo::new(chain, signed.signatures.clone());
    outside.verify_signatures(verifier).map_err(|e| e.to_string())
}

} // verus!
