use crate::consensus::Block;
use crate::consensus::BlockData;
use crate::consensus::MaybeSignedVoteProposal;
use crate::consensus::QuorumCert;
use crate::consensus::SafetyData;
use crate::consensus::Timeout;
use crate::consensus::TwoChainTimeout;
use crate::consensus::TwoChainTimeoutCertificate;
use crate::consensus::Vote;
use crate::consensus_state::ConsensusState;
use crate::crypto::HashValue;
use crate::crypto::PublicKey;
use crate::error::ErrorView;
use crate::ledger::proof_ledger_infos;
use crate::ledger::verifier_members;
use crate::ledger::BlockInfo;
use crate::ledger::LedgerInfo;
use crate::ledger::LedgerInfoWithSignatures;
use crate::safety_rules::commit_rule;
use crate::safety_rules::observed;
use crate::safety_rules::spec_next_round;
use crate::safety_rules::three_chain;
use crate::two_chain::certificate_round;
use crate::two_chain::safe_to_timeout_rule;
use crate::two_chain::safe_to_vote_rule;
use crate::two_chain::two_chain_commit_rule;
use crate::safety_rules::ProposalChecks;
use crate::safety_rules::SafetyRules;
use crate::storage::key_from;
use crate::storage::lemma_key_found_matches;
use crate::vote::replayed_vote;
use diem_types::epoch_change::EpochChangeProof;
use vstd::prelude::*;

verus! {

/// A request to sign, with all that the caller hands over with it.
#[allow(inconsistent_fields)]
pub enum Request {
    Vote { proposal: MaybeSignedVoteProposal, checks: ProposalChecks },
    VoteTwoChain {
        proposal: MaybeSignedVoteProposal,
        timeout_cert: Option<TwoChainTimeoutCertificate>,
        checks: ProposalChecks,
        timeout_cert_check: Result<(), String>,
    },
    Proposal { block_data: BlockData, quorum_cert_check: Result<(), String>, signing_message: Seq<u8> },
    Timeout { timeout: Timeout },
    TimeoutWithQc {
        timeout: TwoChainTimeout,
        timeout_cert: Option<TwoChainTimeoutCertificate>,
        quorum_cert_check: Result<(), String>,
        timeout_cert_check: Result<(), String>,
    },
    CommitVote { ledger_info: LedgerInfoWithSignatures, new_ledger_info: LedgerInfo },
}

/// A certificate that may be there, by reference.
pub open spec fn by_reference(
    timeout_cert: &Option<TwoChainTimeoutCertificate>,
) -> Option<&TwoChainTimeoutCertificate> {
    match timeout_cert {
        Some(certificate) => Some(certificate),
        None => None,
    }
}

/// The engine after a request to sign.
pub open spec fn step(rules: SafetyRules, request: Request) -> SafetyRules {
    match request {
        Request::Vote { proposal, checks } => rules.spec_construct_and_sign_vote(&proposal, &checks).1,
        Request::VoteTwoChain { proposal, timeout_cert, checks, timeout_cert_check } =>
            rules.spec_construct_and_sign_vote_two_chain(
            &proposal,
            by_reference(&timeout_cert),
            &checks,
            &timeout_cert_check,
        ).1,
        Request::Proposal { .. } => rules,
        Request::Timeout { timeout } => rules.spec_sign_timeout(&timeout).1,
        Request::TimeoutWithQc { timeout, timeout_cert, quorum_cert_check, timeout_cert_check } =>
            rules.spec_sign_timeout_with_qc(
            &timeout,
            by_reference(&timeout_cert),
            &quorum_cert_check,
            &timeout_cert_check,
        ).1,
        Request::CommitVote { .. } => rules,
    }
}

/// The vote that a request to sign is answered with, if it is answered with one.
pub open spec fn vote_given(rules: SafetyRules, request: Request) -> Option<Vote> {
    match request {
        Request::Vote { proposal, checks } => {
            match rules.spec_construct_and_sign_vote(&proposal, &checks).0 {
                Ok(vote) => Some(vote),
                Err(_) => None,
            }
        },
        Request::VoteTwoChain { proposal, timeout_cert, checks, timeout_cert_check } => {
            match rules.spec_construct_and_sign_vote_two_chain(
                &proposal,
                by_reference(&timeout_cert),
                &checks,
                &timeout_cert_check,
            ).0 {
                Ok(vote) => Some(vote),
                Err(_) => None,
            }
        },
        _ => None,
    }
}

/// The round of the block that a request asks a vote for.
pub open spec fn round_asked(request: Request) -> Option<u64> {
    match request {
        Request::Vote { proposal, .. } => Some(proposal.vote_proposal.block.block_data.round),
        Request::VoteTwoChain { proposal, .. } => Some(proposal.vote_proposal.block.block_data.round),
        _ => None,
    }
}

/// The engine after a sequence of requests to sign, first to last.
pub open spec fn run(rules: SafetyRules, requests: Seq<Request>) -> SafetyRules
    decreases requests.len(),
{
    if requests.len() == 0 {
        rules
    } else {
        step(run(rules, requests.drop_last()), requests.last())
    }
}

/// The voting state that the storage of an engine holds.
pub open spec fn voting_state(rules: SafetyRules) -> SafetyData {
    rules.persistent_storage.safety_data.unwrap()
}

/// No request to sign lowers the last voted round or leaves the epoch, nor
/// does it break the voting state's form.
pub proof fn lemma_step_keeps_last_voted_round(rules: SafetyRules, request: Request)
    requires
        rules.persistent_storage.safety_data.is_some(),
    ensures
        step(rules, request).persistent_storage.safety_data.is_some(),
        voting_state(step(rules, request)).last_voted_round >= voting_state(rules).last_voted_round,
        voting_state(step(rules, request)).epoch == voting_state(rules).epoch,
        voting_state(rules).well_formed() ==> voting_state(step(rules, request)).well_formed(),
{
}

/// Along any sequence of requests to sign, the last voted round never goes
/// down, and the epoch stays.
pub proof fn lemma_last_voted_round_monotone(rules: SafetyRules, requests: Seq<Request>)
    requires
        rules.persistent_storage.safety_data.is_some(),
    ensures
        run(rules, requests).persistent_storage.safety_data.is_some(),
        voting_state(run(rules, requests)).last_voted_round >= voting_state(rules).last_voted_round,
        voting_state(run(rules, requests)).epoch == voting_state(rules).epoch,
        voting_state(rules).well_formed() ==> voting_state(run(rules, requests)).well_formed(),
    decreases requests.len(),
{
    if requests.len() > 0 {
        lemma_last_voted_round_monotone(rules, requests.drop_last());
        lemma_step_keeps_last_voted_round(run(rules, requests.drop_last()), requests.last());
    }
}

/// A vote that was given is given again, and nothing changes, when a vote
/// is asked for the same round next.
pub proof fn lemma_vote_replayed(rules: SafetyRules, first: Request, again: Request)
    requires
        vote_given(rules, first).is_some(),
        vote_given(step(rules, first), again).is_some(),
        round_asked(first) == round_asked(again),
    ensures
        vote_given(step(rules, first), again) == vote_given(rules, first),
        step(step(rules, first), again) == step(rules, first),
{
}

/// What holds of an engine once a vote was given for a round: the last
/// voted round is not below that round, and a last vote for that round is
/// that vote.
pub open spec fn vote_stands(rules: SafetyRules, vote: Vote, round: u64) -> bool {
    &&& rules.persistent_storage.safety_data.is_some()
    &&& voting_state(rules).well_formed()
    &&& voting_state(rules).last_voted_round >= round
    &&& replayed_vote(voting_state(rules), round).is_some() ==> replayed_vote(voting_state(rules), round) == Some(
        vote,
    )
}

/// A request to sign leaves a given vote standing.
pub proof fn lemma_step_keeps_vote(rules: SafetyRules, vote: Vote, round: u64, request: Request)
    requires
        vote_stands(rules, vote, round),
    ensures
        vote_stands(step(rules, request), vote, round),
{
}

/// A sequence of requests to sign leaves a given vote standing.
pub proof fn lemma_run_keeps_vote(
    rules: SafetyRules,
    vote: Vote,
    round: u64,
    requests: Seq<Request>,
)
    requires
        vote_stands(rules, vote, round),
    ensures
        vote_stands(run(rules, requests), vote, round),
    decreases requests.len(),
{
    if requests.len() > 0 {
        lemma_run_keeps_vote(rules, vote, round, requests.drop_last());
        lemma_step_keeps_vote(run(rules, requests.drop_last()), vote, round, requests.last());
    }
}

/// Within an epoch no round gets two votes: once a vote was given for a
/// round, then after any requests to sign, a vote given for that round is
/// the same vote.
pub proof fn lemma_one_vote_per_round(
    rules: SafetyRules,
    first: Request,
    requests: Seq<Request>,
    again: Request,
)
    requires
        rules.persistent_storage.safety_data.is_some() ==> voting_state(rules).well_formed(),
        vote_given(rules, first).is_some(),
        vote_given(run(step(rules, first), requests), again).is_some(),
        round_asked(first) == round_asked(again),
    ensures
        vote_given(run(step(rules, first), requests), again) == vote_given(rules, first),
{
    let vote = vote_given(rules, first).unwrap();
    let round = round_asked(first).unwrap();
    lemma_run_keeps_vote(step(rules, first), vote, round, requests);
}

/// A proposal whose quorum certificate certifies a round below the
/// preferred round gets no new vote and no signature, and changes nothing.
/// Where the proposal passes the checks before the rule, the error names
/// the two rounds.
pub proof fn lemma_preferred_round_floor(
    rules: SafetyRules,
    proposal: MaybeSignedVoteProposal,
    checks: ProposalChecks,
)
    requires
        rules.persistent_storage.safety_data.is_some(),
        proposal.vote_proposal.block.block_data.quorum_cert.spec_certified_block().round < voting_state(
            rules,
        ).preferred_round,
        replayed_vote(voting_state(rules), proposal.vote_proposal.block.block_data.round).is_none(),
    ensures
        rules.spec_construct_and_sign_vote(&proposal, &checks).0.is_err(),
        rules.spec_construct_and_sign_vote(&proposal, &checks).1 == rules,
        rules.validator_signer.is_some() && rules.spec_verify_proposal(&proposal, &checks).is_ok()
            ==> rules.spec_construct_and_sign_vote(&proposal, &checks).0 == Err::<Vote, ErrorView>(
            ErrorView::IncorrectPreferredRound(
                proposal.vote_proposal.block.block_data.quorum_cert.spec_certified_block().round,
                voting_state(rules).preferred_round,
            ),
        ),
        rules.spec_sign_proposal(&proposal.vote_proposal.block.block_data, &checks.quorum_cert, checks.signing_message@).is_err(),
{
}

/// Where the preferred round is not above the one-chain round, it stays so
/// when a quorum certificate is seen whose parent block is of no later round
/// than the block it certifies.
pub proof fn lemma_observed_keeps_round_order(quorum_cert: QuorumCert, data: SafetyData)
    requires
        data.preferred_round <= data.one_chain_round,
        quorum_cert.spec_parent_block().round <= quorum_cert.spec_certified_block().round,
    ensures
        observed(&quorum_cert, data).preferred_round <= observed(&quorum_cert, data).one_chain_round,
        observed(&quorum_cert, data).preferred_round >= data.preferred_round,
        observed(&quorum_cert, data).one_chain_round >= data.one_chain_round,
{
}

/// Whenever entering an epoch takes the voting state to another epoch, the
/// voting state is afresh: all rounds are 0, and no vote is left that could
/// be given again. The engine then holds the validator set of that epoch.
pub proof fn lemma_epoch_isolation(rules: SafetyRules, ledger_info: LedgerInfo, round: u64)
    requires
        rules.persistent_storage.safety_data.is_some(),
        voting_state(rules.spec_install_epoch(&ledger_info).1).epoch != voting_state(rules).epoch,
    ensures
        ledger_info.commit_info.next_epoch_state.is_some(),
        voting_state(rules.spec_install_epoch(&ledger_info).1) == SafetyData::fresh(
            ledger_info.commit_info.next_epoch_state.unwrap().epoch,
        ),
        rules.spec_install_epoch(&ledger_info).1.epoch_state == ledger_info.commit_info.next_epoch_state,
        replayed_vote(voting_state(rules.spec_install_epoch(&ledger_info).1), round).is_none(),
{
}

/// Where the engine has no signer, or one that signs for the validator that
/// the storage names, entering an epoch with success leaves a signer that
/// signs for that validator, under the key that the validator set expects.
pub proof fn lemma_signer_is_the_author(rules: SafetyRules, ledger_info: LedgerInfo)
    requires
        rules.spec_install_epoch(&ledger_info).0.is_ok(),
        rules.validator_signer.is_some() ==> rules.persistent_storage.author == Some(
            rules.validator_signer.unwrap().spec_author(),
        ),
    ensures
        rules.spec_install_epoch(&ledger_info).1.validator_signer.is_some(),
        rules.persistent_storage.author == Some(
            rules.spec_install_epoch(&ledger_info).1.validator_signer.unwrap().spec_author(),
        ),
        ({
            let members = verifier_members(ledger_info.commit_info.next_epoch_state.unwrap().verifier);
            let signer = rules.spec_install_epoch(&ledger_info).1.validator_signer.unwrap();
            members.contains_key(signer.spec_author().bytes) && members[signer.spec_author().bytes].0
                == signer.spec_public_key().bytes
        }),
{
    let author = rules.persistent_storage.author.unwrap();
    let members = verifier_members(ledger_info.commit_info.next_epoch_state.unwrap().verifier);
    let expected = PublicKey { bytes: members[author.bytes].0 };
    if key_from(rules.persistent_storage.consensus_keys@, expected, 0).is_some() {
        lemma_key_found_matches(rules.persistent_storage.consensus_keys@, expected, 0);
    }
}

/// Whenever initializing takes the voting state to another epoch, the voting
/// state is fresh: all rounds are 0 and there is no last vote. The epoch is
/// then that of the validator set that the engine holds.
pub proof fn lemma_epoch_change_resets(rules: SafetyRules, proof: EpochChangeProof)
    requires
        rules.persistent_storage.safety_data.is_some(),
        voting_state(rules.spec_initialize(&proof).1).epoch != voting_state(rules).epoch,
    ensures
        rules.spec_initialize(&proof).1.persistent_storage.safety_data.is_some(),
        voting_state(rules.spec_initialize(&proof).1) == SafetyData::fresh(
            voting_state(rules.spec_initialize(&proof).1).epoch,
        ),
        rules.spec_initialize(&proof).1.epoch_state.is_some(),
        rules.spec_initialize(&proof).1.epoch_state.unwrap().epoch == voting_state(
            rules.spec_initialize(&proof).1,
        ).epoch,
{
}

/// A vote commits the grandparent of the proposed block exactly where the
/// three rounds follow each other, and nothing otherwise. Three rounds
/// that follow each other always give a ledger info.
pub proof fn lemma_commit_iff_three_chain(proposed_block: Block, consensus_data_hash: HashValue)
    ensures
        ({
            let quorum_cert = proposed_block.block_data.quorum_cert;
            let chained = three_chain(
                quorum_cert.spec_parent_block().round,
                quorum_cert.spec_certified_block().round,
                proposed_block.block_data.round,
            );
            let made = commit_rule(&proposed_block, consensus_data_hash);
            &&& chained ==> made == Ok::<LedgerInfo, ErrorView>(
                LedgerInfo { commit_info: quorum_cert.spec_parent_block(), consensus_data_hash },
            )
            &&& !chained && made.is_ok() ==> made == Ok::<LedgerInfo, ErrorView>(
                LedgerInfo { commit_info: BlockInfo::spec_empty(), consensus_data_hash },
            )
        }),
{
}

/// The round after a round is one more, never a round that wrapped around;
/// the last round has none. A vote whose parent or grandparent is of the
/// last round is refused with that round, whatever the other rounds are;
/// and so are a vote and a timeout by the two-chain rules where a round
/// that they take the successor of is the last round.
pub proof fn lemma_no_round_wraps(
    round: u64,
    proposed_block: Block,
    consensus_data_hash: HashValue,
    timeout: TwoChainTimeout,
    timeout_cert: Option<TwoChainTimeoutCertificate>,
    data: SafetyData,
)
    ensures
        round == u64::MAX ==> spec_next_round(round) == Err::<u64, ErrorView>(ErrorView::IncorrectRound(round)),
        round < u64::MAX ==> spec_next_round(round) == Ok::<u64, ErrorView>((round + 1) as u64)
            && round + 1 <= u64::MAX,
        ({
            let quorum_cert = proposed_block.block_data.quorum_cert;
            let block0 = quorum_cert.spec_parent_block().round;
            let block1 = quorum_cert.spec_certified_block().round;
            let tc_round = certificate_round(by_reference(&timeout_cert));
            let made = commit_rule(&proposed_block, consensus_data_hash);
            let made_two_chain = two_chain_commit_rule(&proposed_block, consensus_data_hash);
            let safe_to_vote = safe_to_vote_rule(&proposed_block, by_reference(&timeout_cert));
            let safe_to_timeout = safe_to_timeout_rule(&timeout, by_reference(&timeout_cert), data);
            let last = Err::<LedgerInfo, ErrorView>(ErrorView::IncorrectRound(u64::MAX));
            let refused = Err::<(), ErrorView>(ErrorView::IncorrectRound(u64::MAX));
            &&& block0 == u64::MAX || block1 == u64::MAX <==> made == last
            &&& block1 == u64::MAX <==> made_two_chain == last
            &&& block1 == u64::MAX || tc_round == u64::MAX <==> safe_to_vote == refused
            &&& timeout.spec_hqc_round() == u64::MAX || tc_round == u64::MAX <==> safe_to_timeout == refused
        }),
{
}

/// What was signed for is in the storage: a vote that was given is the
/// last vote there, and after a timeout that was signed the last voted
/// round there is the timeout's round or above.
pub proof fn lemma_signed_is_stored(rules: SafetyRules, request: Request)
    ensures
        vote_given(rules, request).is_some() ==> step(rules, request).persistent_storage.safety_data.is_some()
            && voting_state(step(rules, request)).last_vote == vote_given(rules, request),
        match request {
            Request::Timeout { timeout } => rules.spec_sign_timeout(&timeout).0.is_ok()
                ==> voting_state(step(rules, request)).last_voted_round >= timeout.round,
            Request::TimeoutWithQc { timeout, timeout_cert, quorum_cert_check, timeout_cert_check } =>
                rules.spec_sign_timeout_with_qc(
                &timeout,
                by_reference(&timeout_cert),
                &quorum_cert_check,
                &timeout_cert_check,
            ).0.is_ok() ==> voting_state(step(rules, request)).last_voted_round >= timeout.round,
            _ => true,
        },
{
}

/// An engine that starts anew on the storage of another reports the same
/// voting state and the same waypoint. It has no signer until it is
/// initialized.
pub proof fn lemma_restart_keeps_state(
    rules: SafetyRules,
    verify_vote_proposal_signature: bool,
    export_consensus_key: bool,
    decoupled_execution: bool,
)
    ensures
        ({
            let restarted = SafetyRules::spec_new(
                rules.persistent_storage,
                verify_vote_proposal_signature,
                export_consensus_key,
                decoupled_execution,
            );
            match rules.spec_consensus_state() {
                Ok(state) => restarted.spec_consensus_state() == Ok::<ConsensusState, ErrorView>(
                    ConsensusState { in_validator_set: false, ..state },
                ),
                Err(error) => restarted.spec_consensus_state() == Err::<ConsensusState, ErrorView>(error),
            }
        }),
{
}

/// Initializing a second time with the same proof leaves the storage, and
/// with it the voting state, as the first time left it.
pub proof fn lemma_initialize_twice(rules: SafetyRules, proof: EpochChangeProof)
    ensures
        rules.spec_initialize(&proof).1.spec_initialize(&proof).1.persistent_storage == rules.spec_initialize(
            &proof,
        ).1.persistent_storage,
{
    let once = rules.spec_initialize(&proof).1;
    if proof_ledger_infos(proof).len() > 0 {
        lemma_install_epoch_twice(rules, proof_ledger_infos(proof).last().0);
        lemma_install_epoch_twice(once, proof_ledger_infos(proof).last().0);
    }
}

/// Entering an epoch a second time, with the same ledger info, leaves the
/// storage as the first time left it. Entering the epoch that the voting
/// state is in leaves the voting state as it is.
pub proof fn lemma_install_epoch_twice(rules: SafetyRules, ledger_info: LedgerInfo)
    ensures
        rules.spec_install_epoch(&ledger_info).1.spec_install_epoch(&ledger_info).1.persistent_storage
            == rules.spec_install_epoch(&ledger_info).1.persistent_storage,
        rules.persistent_storage.safety_data.is_some() && ledger_info.commit_info.next_epoch_state.is_some()
            && voting_state(rules).epoch == ledger_info.commit_info.next_epoch_state.unwrap().epoch
            ==> rules.spec_install_epoch(&ledger_info).1.persistent_storage.safety_data
            == rules.persistent_storage.safety_data,
{
}

} // verus!
