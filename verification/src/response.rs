//! What a call hands back to the host besides its new records: outbound
//! instructions to execute after the state is committed, an observability
//! record, and the caller-visible data payload.

use vstd::prelude::*;
use crate::msg::IncrementResp;
use crate::types::Coin;

verus! {

/// An outbound instruction. The host executes it after this call's writes
/// are durably committed; whether it succeeds is outside this engine's
/// control, and nothing here assumes it does.
#[derive(Clone, Debug, PartialEq, Eq)]
pub enum OutMsg {
    /// Transfer funds from this contract's account to an address.
    BankSend { to_address: String, amount: Vec<Coin> },
    /// Call `donate` on the parent instance, attaching the given funds.
    ForwardDonation { contract_addr: String, funds: Vec<Coin> },
}

/// The record of an action, for observability: the action's name, the counter
/// value it left behind where the action reports one, and the acting identity.
#[derive(Clone, Debug, PartialEq, Eq)]
pub struct ActionLog {
    pub action: String,
    pub counter: Option<u64>,
    pub sender: String,
}

#[derive(Clone, Debug, PartialEq, Eq)]
pub struct Response {
    pub messages: Vec<OutMsg>,
    pub log: Option<ActionLog>,
    /// Set when a forward was emitted: the parent it was addressed to.
    pub donation_to_parent: Option<String>,
    pub data: Option<IncrementResp>,
}

impl Response {
    pub fn new() -> (r: Response)
        ensures
            r.messages@ =~= Seq::<OutMsg>::empty(),
            r.log is None,
            r.donation_to_parent is None,
            r.data is None,
    {
        Response { messages: Vec::new(), log: None, donation_to_parent: None, data: None }
    }
}

} // verus!
