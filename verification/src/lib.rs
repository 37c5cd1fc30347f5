//! A single-account ledger state machine: a counter gated behind a
//! minimum-donation threshold, periodic forwarding of a fraction of held
//! funds to a parent instance, owner-only withdrawals, and a version-gated
//! migration chain over earlier persisted layouts.
//!
//! Every operation is a pure function from the current records and the call's
//! inputs to the new records, a response, and outbound instructions. Reading
//! and writing the records, querying balances, validating addresses and
//! delivering the instructions are the host's work and stay outside.

pub mod contract;
pub mod error;
pub mod math;
pub mod msg;
pub mod response;
pub mod state;
pub mod types;

use vstd::prelude::*;
use crate::contract::exec::{
    donate_post, increment_post, reset_post, spec_threshold_met, withdraw_post, withdraw_to_post,
};
use crate::contract::{migrate_post, records_post, LegacyState, MigrateOutcome};
use crate::error::ContractError;
use crate::msg::{ExecMsg, InstantiateMsg, MigrateMsg, QueryMsg, ValueResp};
use crate::response::Response;
use crate::state::{store_wf, ContractInfo, ParentDonation, State};
use crate::types::{Addr, Coin, MessageInfo};

verus! {

/// What `execute` asks of its caller: records that fit together, and counter
/// headroom for the operations that raise it (the host turns the panic the
/// overflow would be into an error before the call).
pub open spec fn execute_requires(
    s: State,
    config: Option<ParentDonation>,
    info: MessageInfo,
    msg: ExecMsg,
) -> bool {
    &&& store_wf(s, config)
    &&& (msg matches ExecMsg::Increment { value } ==> s.counter + value <= u64::MAX)
    &&& (msg is Donate ==> (spec_threshold_met(s.minimal_donation, info.funds@) ==> s.counter
        < u64::MAX))
}

/// Creates the records of a fresh instance; the instantiating sender becomes
/// the immutable owner. `parent_addr` is the parent's identity as the host
/// validator returned it, present exactly when the message configures a
/// parent.
pub fn instantiate(msg: InstantiateMsg, info: MessageInfo, parent_addr: Option<Addr>) -> (r: (
    State,
    Option<ParentDonation>,
))
    requires
        msg.parent is Some <==> parent_addr is Some,
        msg.parent matches Some(p) ==> p.wf(),
    ensures
        records_post(msg.counter, msg.minimal_donation, info.sender, msg.parent, parent_addr, r),
        store_wf(r.0, r.1),
{
    contract::instantiate(msg, info, parent_addr)
}

/// Runs the migration chain on the stored metadata and the legacy record the
/// host read back for the declared version.
pub fn migrate(
    info: &ContractInfo,
    legacy: Option<LegacyState>,
    msg: MigrateMsg,
    parent_addr: Option<Addr>,
) -> (r: Result<MigrateOutcome, ContractError>)
    requires
        msg.parent is Some <==> parent_addr is Some,
        msg.parent matches Some(p) ==> p.wf(),
    ensures
        migrate_post(*info, legacy, msg.parent, parent_addr, r),
{
    contract::migrate(info, legacy, msg.parent, parent_addr)
}

/// Dispatches one execute operation over the current records. The held
/// `balance` and the `receiver_valid` verdict are host facts for the
/// operations that need them; the others ignore them.
pub fn execute(
    state: &mut State,
    config: &Option<ParentDonation>,
    balance: Vec<Coin>,
    info: &MessageInfo,
    msg: ExecMsg,
    receiver_valid: bool,
) -> (r: Result<Response, ContractError>)
    requires
        execute_requires(*old(state), *config, *info, msg),
    ensures
        store_wf(*final(state), *config),
        match msg {
            ExecMsg::Increment { value } => r matches Ok(resp) && increment_post(
                *old(state),
                *final(state),
                value,
                *info,
                resp,
            ),
            ExecMsg::Reset { value } => reset_post(*old(state), *final(state), value, *info, r),
            ExecMsg::Donate {  } => r matches Ok(resp) && donate_post(
                *old(state),
                *final(state),
                *config,
                balance@,
                *info,
                resp,
            ),
            ExecMsg::Withdraw {  } => *final(state) == *old(state) && withdraw_post(
                *old(state),
                *info,
                balance@,
                r,
            ),
            ExecMsg::WithdrawTo { receiver, funds } => *final(state) == *old(state)
                && withdraw_to_post(
                *old(state),
                *info,
                receiver@,
                funds@,
                receiver_valid,
                balance@,
                r,
            ),
        },
{
    match msg {
        ExecMsg::Increment { value } => Ok(contract::exec::increment(state, value, info)),
        ExecMsg::Reset { value } => contract::exec::reset(state, value, info),
        ExecMsg::Donate {  } => Ok(contract::exec::donate(state, config, &balance, info)),
        ExecMsg::Withdraw {  } => contract::exec::withdraw(state, info, balance),
        ExecMsg::WithdrawTo { receiver, funds } => contract::exec::withdraw_to(
            state,
            info,
            receiver,
            funds,
            receiver_valid,
            balance,
        ),
    }
}

/// Answers one query over the current records.
pub fn query(state: &State, msg: QueryMsg) -> (r: ValueResp)
    ensures
        msg is Value ==> r == (ValueResp { value: state.counter }),
{
    match msg {
        QueryMsg::Value {  } => contract::query::value(state),
    }
}

} // verus!
