//! The state-transition and migration engine: instantiation, the version-gated
//! migration chain, the execute operations and the one query.

pub mod exec;
pub mod query;

use vstd::prelude::*;
use vstd::string::StringExecFns;
use crate::error::ContractError;
use crate::msg::{InstantiateMsg, Parent};
use crate::state::{store_wf, ContractInfo, ParentDonation, State};
use crate::types::{Addr, Coin, MessageInfo};

verus! {

/// The contract identity the migration chain accepts metadata from.
pub open spec fn spec_contract_name() -> Seq<char> {
    "counting-contract"@
}

/// The schema version this engine writes.
pub open spec fn spec_contract_version() -> Seq<char> {
    "0.3.0"@
}

pub fn contract_name() -> (r: String)
    ensures
        r@ == spec_contract_name(),
{
    String::from_str("counting-contract")
}

pub fn contract_version() -> (r: String)
    ensures
        r@ == spec_contract_version(),
{
    String::from_str("0.3.0")
}

/// The remaining-period counter a fresh or migrated state starts with: the
/// configured period, when a parent is being configured.
pub open spec fn spec_parent_period(parent: Option<Parent>) -> Option<u64> {
    match parent {
        Some(p) => Some(p.donating_period),
        None => None,
    }
}

/// The configuration record the given parent parameters produce, with the
/// host-validated address.
pub open spec fn spec_parent_config(parent: Option<Parent>, parent_addr: Option<Addr>) -> Option<
    ParentDonation,
> {
    match parent {
        Some(p) => Some(
            ParentDonation {
                address: parent_addr.unwrap(),
                donating_parent_period: p.donating_period,
                part: p.part,
            },
        ),
        None => None,
    }
}

/// The records every entry into the current schema writes, whether fresh
/// instantiation or a migration transform.
pub open spec fn records_post(
    counter: u64,
    minimal_donation: Coin,
    owner: Addr,
    parent: Option<Parent>,
    parent_addr: Option<Addr>,
    r: (State, Option<ParentDonation>),
) -> bool {
    &&& r.0 == (State {
        counter,
        minimal_donation,
        owner,
        donating_parent: spec_parent_period(parent),
    })
    &&& r.1 == spec_parent_config(parent, parent_addr)
}

/// Builds the current-schema records from their plain parts. `parent_addr`
/// is the parent's identity as the host validator returned it.
fn make_records(
    counter: u64,
    minimal_donation: Coin,
    owner: Addr,
    parent: Option<Parent>,
    parent_addr: Option<Addr>,
) -> (r: (State, Option<ParentDonation>))
    requires
        parent is Some <==> parent_addr is Some,
        parent matches Some(p) ==> p.wf(),
    ensures
        records_post(counter, minimal_donation, owner, parent, parent_addr, r),
        store_wf(r.0, r.1),
{
    match (parent, parent_addr) {
        (Some(p), Some(addr)) => {
            let state = State {
                counter,
                minimal_donation,
                owner,
                donating_parent: Some(p.donating_period),
            };
            let config = ParentDonation {
                address: addr,
                donating_parent_period: p.donating_period,
                part: p.part,
            };
            (state, Some(config))
        },
        _ => {
            let state = State { counter, minimal_donation, owner, donating_parent: None };
            (state, None)
        },
    }
}

/// Creates the records of a fresh instance: the given starting counter and
/// threshold, the instantiating sender as immutable owner, and the parent
/// configuration when parent parameters are supplied.
pub fn instantiate(msg: InstantiateMsg, info: MessageInfo, parent_addr: Option<Addr>) -> (r: (
    State,
    Option<ParentDonation>,
))
    requires
        msg.parent is Some <==> parent_addr is Some,
        msg.parent matches Some(p) ==> p.wf(),
    ensures
        records_post(msg.counter, msg.minimal_donation, info.sender, msg.parent, parent_addr, r),
        store_wf(r.0, r.1),
{
    make_records(msg.counter, msg.minimal_donation, info.sender, msg.parent, parent_addr)
}

/// A record laid down by an earlier schema version, exactly as that version
/// shaped it. The historical shapes are never unified with the current
/// `State`: each is its own variant, so a field a legacy shape lacks is
/// visibly absent rather than silently unset.
#[derive(Clone, Debug, PartialEq, Eq)]
pub enum LegacyState {
    /// The first shipped layout: three separate records, no parent.
    V0_1_0 { counter: u64, donation: Coin, owner: Addr },
    /// The second shipped layout: one record, still no parent.
    V0_2_0 { counter: u64, minimal_donation: Coin, owner: Addr },
}

/// What a migration asks the host to do: nothing, for an instance already at
/// the current version, or replace the records and advance the metadata.
#[derive(Clone, Debug, PartialEq, Eq)]
pub enum MigrateOutcome {
    NoOp,
    Updated { state: State, parent_donation: Option<ParentDonation> },
}

/// The transform from the first shipped layout straight to the current one:
/// counter, threshold and owner carry over; a parent exists only if supplied
/// now.
pub fn migrate_0_1_0(
    counter: u64,
    donation: Coin,
    owner: Addr,
    parent: Option<Parent>,
    parent_addr: Option<Addr>,
) -> (r: (State, Option<ParentDonation>))
    requires
        parent is Some <==> parent_addr is Some,
        parent matches Some(p) ==> p.wf(),
    ensures
        records_post(counter, donation, owner, parent, parent_addr, r),
        store_wf(r.0, r.1),
{
    make_records(counter, donation, owner, parent, parent_addr)
}

/// The transform from the second shipped layout straight to the current one.
pub fn migrate_0_2_0(
    counter: u64,
    minimal_donation: Coin,
    owner: Addr,
    parent: Option<Parent>,
    parent_addr: Option<Addr>,
) -> (r: (State, Option<ParentDonation>))
    requires
        parent is Some <==> parent_addr is Some,
        parent matches Some(p) ==> p.wf(),
    ensures
        records_post(counter, minimal_donation, owner, parent, parent_addr, r),
        store_wf(r.0, r.1),
{
    make_records(counter, minimal_donation, owner, parent, parent_addr)
}

/// Whether the stored legacy record is the shape the declared version lays
/// down.
pub open spec fn legacy_matches_version(version: Seq<char>, legacy: Option<LegacyState>) -> bool {
    ||| (version == "0.1.0"@ && legacy matches Some(LegacyState::V0_1_0 { .. }))
    ||| (version == "0.2.0"@ && legacy matches Some(LegacyState::V0_2_0 { .. }))
}

/// What `migrate` decides, given the stored metadata `info`, the legacy
/// record the host read back for the declared version, and the optional new
/// parent parameters.
pub open spec fn migrate_post(
    info: ContractInfo,
    legacy: Option<LegacyState>,
    parent: Option<Parent>,
    parent_addr: Option<Addr>,
    r: Result<MigrateOutcome, ContractError>,
) -> bool {
    match r {
        Ok(MigrateOutcome::NoOp) => {
            &&& info.contract@ == spec_contract_name()
            &&& info.version@ == spec_contract_version()
        },
        Ok(MigrateOutcome::Updated { state, parent_donation }) => {
            &&& info.contract@ == spec_contract_name()
            &&& legacy_matches_version(info.version@, legacy)
            &&& store_wf(state, parent_donation)
            &&& match legacy.unwrap() {
                LegacyState::V0_1_0 { counter, donation, owner } => records_post(
                    counter,
                    donation,
                    owner,
                    parent,
                    parent_addr,
                    (state, parent_donation),
                ),
                LegacyState::V0_2_0 { counter, minimal_donation, owner } => records_post(
                    counter,
                    minimal_donation,
                    owner,
                    parent,
                    parent_addr,
                    (state, parent_donation),
                ),
            }
        },
        Err(ContractError::InvalidName { contract }) => {
            &&& info.contract@ != spec_contract_name()
            &&& contract@ == spec_contract_name()
        },
        Err(ContractError::InvalidVersion { version }) => {
            &&& info.contract@ == spec_contract_name()
            &&& version@ == info.version@
            &&& info.version@ != "0.1.0"@
            &&& info.version@ != "0.2.0"@
            &&& info.version@ != spec_contract_version()
        },
        Err(ContractError::StdErr { .. }) => {
            &&& info.contract@ == spec_contract_name()
            &&& (info.version@ == "0.1.0"@ || info.version@ == "0.2.0"@)
            &&& !legacy_matches_version(info.version@, legacy)
        },
        Err(_) => false,
    }
}

/// The migration chain runner: checks the stored metadata, applies the one
/// direct transform the declared version calls for, and reports what to
/// write. Each historical version is migrated straight to the current
/// schema; transforms are never composed across hops.
///
/// `legacy` is the record the host read back under the declared version's
/// layout, `None` where that version lays down none or the read failed.
pub fn migrate(
    info: &ContractInfo,
    legacy: Option<LegacyState>,
    parent: Option<Parent>,
    parent_addr: Option<Addr>,
) -> (r: Result<MigrateOutcome, ContractError>)
    requires
        parent is Some <==> parent_addr is Some,
        parent matches Some(p) ==> p.wf(),
    ensures
        migrate_post(*info, legacy, parent, parent_addr, r),
        info.contract@ != spec_contract_name() ==> (r matches Err(
            ContractError::InvalidName { contract },
        ) && contract@ == spec_contract_name()),
        info.contract@ == spec_contract_name() && info.version@ == spec_contract_version() ==> r
            == Ok::<MigrateOutcome, ContractError>(MigrateOutcome::NoOp),
        info.contract@ == spec_contract_name() && legacy_matches_version(info.version@, legacy)
            ==> r matches Ok(MigrateOutcome::Updated { .. }),
{
    proof {
        reveal_strlit("counting-contract");
        reveal_strlit("0.1.0");
        reveal_strlit("0.2.0");
        reveal_strlit("0.3.0");
        assert("0.1.0"@[2] == '1' && "0.2.0"@[2] == '2' && "0.3.0"@[2] == '3');
        assert("0.1.0"@ != "0.2.0"@ && "0.1.0"@ != "0.3.0"@ && "0.2.0"@ != "0.3.0"@);
    }
    let name = contract_name();
    if !(info.contract == name) {
        return Err(ContractError::InvalidName { contract: name });
    }
    if info.version == String::from_str("0.1.0") {
        match legacy {
            Some(LegacyState::V0_1_0 { counter, donation, owner }) => {
                let (state, parent_donation) = migrate_0_1_0(
                    counter,
                    donation,
                    owner,
                    parent,
                    parent_addr,
                );
                return Ok(MigrateOutcome::Updated { state, parent_donation });
            },
            _ => {
                return Err(
                    ContractError::StdErr {
                        msg: String::from_str("stored record does not match the declared version"),
                    },
                );
            },
        }
    }
    if info.version == String::from_str("0.2.0") {
        match legacy {
            Some(LegacyState::V0_2_0 { counter, minimal_donation, owner }) => {
                let (state, parent_donation) = migrate_0_2_0(
                    counter,
                    minimal_donation,
                    owner,
                    parent,
                    parent_addr,
                );
                return Ok(MigrateOutcome::Updated { state, parent_donation });
            },
            _ => {
                return Err(
                    ContractError::StdErr {
                        msg: String::from_str("stored record does not match the declared version"),
                    },
                );
            },
        }
    }
    if info.version == contract_version() {
        return Ok(MigrateOutcome::NoOp);
    }
    Err(ContractError::InvalidVersion { version: info.version.clone() })
}

} // verus!
