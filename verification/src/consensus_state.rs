use crate::consensus::SafetyData;
use crate::ledger::Waypoint;
use vstd::prelude::*;

verus! {

/// What a validator holds at one moment: its voting state, the waypoint it
/// trusts, and whether it has a key to sign with.
#[derive(Debug, PartialEq, Eq)]
pub struct ConsensusState {
    pub safety_data: SafetyData,
    pub waypoint: Waypoint,
    pub in_validator_set: bool,
}

impl ConsensusState {
    /// A state made of its three parts.
    pub fn new(
        safety_data: SafetyData,
        waypoint: Waypoint,
        in_validator_set: bool,
    ) -> (state: ConsensusState)
        ensures
            state == (ConsensusState { safety_data, waypoint, in_validator_set }),
    {
        ConsensusState { safety_data, waypoint, in_validator_set }
    }
}

} // verus!
