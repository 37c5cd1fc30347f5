//! The persisted records: the singleton `State`, the parent-forwarding
//! configuration present only when a parent is set, and the contract
//! name/version metadata the migration chain reads.

use vstd::prelude::*;
use crate::types::{Addr, Coin, Decimal};

verus! {

/// The singleton record of one contract instance.
#[derive(Clone, Debug, PartialEq, Eq)]
pub struct State {
    /// Count of threshold-satisfying donations plus manual increments.
    pub counter: u64,
    /// A payment must reach this denomination and amount to count; a zero
    /// amount disables the threshold.
    pub minimal_donation: Coin,
    /// The sole identity allowed to reset the counter and withdraw funds.
    pub owner: Addr,
    /// Remaining threshold-events until the next forward to the parent;
    /// absent when no parent is configured.
    pub donating_parent: Option<u64>,
}

impl State {
    pub fn new(
        counter: u64,
        minimal_donation: Coin,
        owner: Addr,
        donating_parent: Option<u64>,
    ) -> (r: State)
        ensures
            r == (State { counter, minimal_donation, owner, donating_parent }),
    {
        State { counter, minimal_donation, owner, donating_parent }
    }
}

/// Where, how often and how much of the held balance is forwarded.
#[derive(Clone, Debug, PartialEq, Eq)]
pub struct ParentDonation {
    /// The parent contract instance.
    pub address: Addr,
    /// Threshold-events between two forwards; the remaining-period counter is
    /// reset to this value each time the cascade fires.
    pub donating_parent_period: u64,
    /// The proportion of the held balance sent on each forward.
    pub part: Decimal,
}

impl ParentDonation {
    pub fn new(address: Addr, donating_parent_period: u64, part: Decimal) -> (r: ParentDonation)
        ensures
            r == (ParentDonation { address, donating_parent_period, part }),
    {
        ParentDonation { address, donating_parent_period, part }
    }

    /// A usable configuration: at least one period between forwards, and a
    /// forwarded part that is a proportion of the whole.
    pub open spec fn wf(self) -> bool {
        1 <= self.donating_parent_period && self.part.is_fraction()
    }
}

/// The two records fit together: the remaining-period counter exists exactly
/// when a configuration does, and it stays between one and the period.
pub open spec fn store_wf(state: State, config: Option<ParentDonation>) -> bool {
    match state.donating_parent {
        Some(remaining) => {
            &&& config is Some
            &&& config.unwrap().wf()
            &&& 1 <= remaining <= config.unwrap().donating_parent_period
        },
        None => config is None,
    }
}

/// The declared name and schema version of the code that last wrote the
/// records, as the host's metadata store holds them.
#[derive(Clone, Debug, PartialEq, Eq)]
pub struct ContractInfo {
    pub contract: String,
    pub version: String,
}

impl ContractInfo {
    pub fn new(contract: String, version: String) -> (r: ContractInfo)
        ensures
            r == (ContractInfo { contract, version }),
    {
        ContractInfo { contract, version }
    }
}

} // verus!
