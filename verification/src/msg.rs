//! The logical operations' inputs and outputs. The wire encoding of these
//! values is the host envelope's concern and lives outside this crate.

use vstd::prelude::*;
use crate::types::{Addr, Coin, Decimal};

verus! {

/// Parent-forwarding parameters supplied at instantiation or migration time.
#[derive(Clone, Debug, PartialEq, Eq)]
pub struct Parent {
    /// The parent contract instance, as given by the caller; the host
    /// validates it before the records are built.
    pub addr: String,
    /// Threshold-events between two forwards.
    pub donating_period: u64,
    /// The proportion of the held balance sent on each forward.
    pub part: Decimal,
}

impl Parent {
    /// A usable parameter set: at least one period between forwards, and a
    /// forwarded part that is a proportion of the whole.
    pub open spec fn wf(self) -> bool {
        1 <= self.donating_period && self.part.is_fraction()
    }
}

#[derive(Clone, Debug, PartialEq, Eq)]
pub struct InstantiateMsg {
    pub counter: u64,
    pub minimal_donation: Coin,
    pub parent: Option<Parent>,
}

impl InstantiateMsg {
    pub fn new(counter: u64, minimal_donation: Coin, parent: Option<Parent>) -> (r: InstantiateMsg)
        ensures
            r == (InstantiateMsg { counter, minimal_donation, parent }),
    {
        InstantiateMsg { counter, minimal_donation, parent }
    }
}

#[derive(Clone, Debug, PartialEq, Eq)]
pub struct InstantiateResp {
    pub value: u64,
    pub minimal_donation: Coin,
    pub owner: Addr,
}

impl InstantiateResp {
    pub fn new(value: u64, minimal_donation: Coin, owner: Addr) -> (r: InstantiateResp)
        ensures
            r == (InstantiateResp { value, minimal_donation, owner }),
    {
        InstantiateResp { value, minimal_donation, owner }
    }
}

#[derive(Clone, Debug, PartialEq, Eq)]
pub struct MigrateMsg {
    pub parent: Option<Parent>,
}

#[derive(Clone, Debug, PartialEq, Eq)]
pub enum ExecMsg {
    Increment { value: u64 },
    Reset { value: u64 },
    Donate {},
    Withdraw {},
    WithdrawTo { receiver: String, funds: Vec<Coin> },
}

#[derive(Clone, Debug, PartialEq, Eq)]
pub struct IncrementResp {
    pub value: u64,
}

impl IncrementResp {
    pub fn new(value: u64) -> (r: IncrementResp)
        ensures
            r == (IncrementResp { value }),
    {
        IncrementResp { value }
    }
}

#[derive(Clone, Debug, PartialEq, Eq)]
pub struct DonateResp {
    pub value: u64,
}

impl DonateResp {
    pub fn new(value: u64) -> (r: DonateResp)
        ensures
            r == (DonateResp { value }),
    {
        DonateResp { value }
    }
}

#[derive(Clone, Debug, PartialEq, Eq)]
pub enum QueryMsg {
    Value {},
}

#[derive(Clone, Debug, PartialEq, Eq)]
pub struct ValueResp {
    pub value: u64,
}

} // verus!
