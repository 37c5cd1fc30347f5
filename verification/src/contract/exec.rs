//! The execute operations: counter transitions, the threshold-gated donate
//! with its parent-forwarding cascade, and the fund-capping withdrawals.
//!
//! Each operation is a pure transition. The attached funds, the contract's
//! held balance and the receiver-validation verdict are host facts and come
//! in as arguments; outbound transfers leave as [`OutMsg`] values.

use vstd::prelude::*;
use vstd::string::StringExecFns;
use crate::error::ContractError;
use crate::msg::IncrementResp;
use crate::response::{ActionLog, OutMsg, Response};
use crate::state::{store_wf, ParentDonation, State};
use crate::types::{mul_floor, spec_mul_floor, Coin, Decimal, MessageInfo};

verus! {

/// Whether one attached payment satisfies the threshold: same denomination,
/// and at least the threshold amount.
pub open spec fn coin_meets(c: Coin, min: Coin) -> bool {
    c.denom@ == min.denom@ && c.amount >= min.amount
}

/// The threshold evaluator: a zero threshold amount disables the threshold
/// altogether, and otherwise some attached payment must meet it.
pub open spec fn spec_threshold_met(min: Coin, funds: Seq<Coin>) -> bool {
    min.amount == 0 || exists|i: int| 0 <= i < funds.len() && coin_meets(#[trigger] funds[i], min)
}

/// Decides whether the attached payments satisfy the configured threshold.
pub fn threshold_met(min: &Coin, funds: &Vec<Coin>) -> (r: bool)
    ensures
        r == spec_threshold_met(*min, funds@),
{
    if min.amount == 0 {
        return true;
    }
    let mut i: usize = 0;
    while i < funds.len()
        invariant
            i <= funds@.len(),
            forall|j: int| 0 <= j < i ==> !coin_meets(#[trigger] funds@[j], *min),
        decreases funds@.len() - i,
    {
        let c = &funds[i];
        if c.denom == min.denom && c.amount >= min.amount {
            assert(coin_meets(funds@[i as int], *min));
            return true;
        }
        i += 1;
    }
    false
}

/// The counter after an unconditional increment by `d`.
pub open spec fn spec_increment_state(s: State, d: u64) -> State {
    State { counter: (s.counter + d) as u64, ..s }
}

/// Incrementing twice adds the sum: the counter transition is additive.
pub proof fn lemma_increment_additive(s: State, d1: u64, d2: u64)
    requires
        s.counter + d1 + d2 <= u64::MAX,
    ensures
        spec_increment_state(spec_increment_state(s, d1), d2) == spec_increment_state(
            s,
            (d1 + d2) as u64,
        ),
{
}

/// What `increment` leaves behind and reports.
pub open spec fn increment_post(old_s: State, new_s: State, value: u64, info: MessageInfo, r: Response) -> bool {
    &&& new_s == spec_increment_state(old_s, value)
    &&& r.messages@.len() == 0
    &&& r.data == Some(IncrementResp { value: new_s.counter })
    &&& r.donation_to_parent is None
    &&& r.log matches Some(log) && log.action@ == "increment"@ && log.counter == Some(new_s.counter)
        && log.sender@ == info.sender.id@
}

/// Adds `value` to the counter. Open to any caller by design: the increment
/// operation is public-write, unlike `reset`.
pub fn increment(state: &mut State, value: u64, info: &MessageInfo) -> (r: Response)
    requires
        old(state).counter + value <= u64::MAX,
    ensures
        increment_post(*old(state), *final(state), value, *info, r),
{
    state.counter = state.counter + value;
    Response {
        messages: Vec::new(),
        log: Some(ActionLog {
            action: String::from_str("increment"),
            counter: Some(state.counter),
            sender: info.sender.id.clone(),
        }),
        donation_to_parent: None,
        data: Some(IncrementResp { value: state.counter }),
    }
}

/// What `reset` leaves behind and reports: the owner may set the counter to
/// any value; anyone else is turned away with the owner's identity and no
/// state change.
pub open spec fn reset_post(old_s: State, new_s: State, value: u64, info: MessageInfo, r: Result<Response, ContractError>) -> bool {
    match r {
        Ok(resp) => {
            &&& info.sender.id@ == old_s.owner.id@
            &&& new_s == (State { counter: value, ..old_s })
            &&& resp.messages@.len() == 0
            &&& resp.data == Some(IncrementResp { value })
            &&& resp.donation_to_parent is None
            &&& resp.log matches Some(log) && log.action@ == "reset"@ && log.counter == Some(value)
                && log.sender@ == info.sender.id@
        },
        Err(e) => {
            &&& info.sender.id@ != old_s.owner.id@
            &&& new_s == old_s
            &&& e matches ContractError::UnauthorizedErr { owner } && owner@ == old_s.owner.id@
        },
    }
}

/// Sets the counter to exactly `value`, discarding the prior count; only the
/// stored owner may do so.
pub fn reset(state: &mut State, value: u64, info: &MessageInfo) -> (r: Result<Response, ContractError>)
    ensures
        reset_post(*old(state), *final(state), value, *info, r),
{
    if !state.owner.same_as(&info.sender) {
        return Err(ContractError::UnauthorizedErr { owner: state.owner.id.clone() });
    }
    state.counter = value;
    Ok(Response {
        messages: Vec::new(),
        log: Some(ActionLog {
            action: String::from_str("reset"),
            counter: Some(value),
            sender: info.sender.id.clone(),
        }),
        donation_to_parent: None,
        data: Some(IncrementResp { value }),
    })
}

/// The funds a forward carries: each held amount scaled by the configured
/// part, rounded toward zero, denomination by denomination.
pub open spec fn forward_funds(balance: Seq<Coin>, part: Decimal) -> Seq<Coin> {
    balance.map(|i: int, c: Coin| Coin { denom: c.denom, amount: spec_mul_floor(c.amount, part) as u128 })
}

/// A forward never carries more of a denomination than the balance held in
/// it at the time of computation.
pub proof fn lemma_forward_funds_bounded(balance: Seq<Coin>, part: Decimal)
    requires
        part.is_fraction(),
    ensures
        forward_funds(balance, part).len() == balance.len(),
        forall|i: int| 0 <= i < balance.len() ==> (#[trigger] forward_funds(balance, part)[i]).amount
            <= balance[i].amount,
        forall|i: int| 0 <= i < balance.len() ==> (#[trigger] forward_funds(balance, part)[i]).denom
            == balance[i].denom,
{
    assert forall|i: int| 0 <= i < balance.len() implies (#[trigger] forward_funds(balance, part)[i]).amount
        <= balance[i].amount by {
        crate::math::lemma_muldiv_floor_le(
            balance[i].amount as int,
            part.atomics as int,
            crate::types::FRACTION_SCALE as int,
        );
    }
}

/// Scales each held amount by the configured part, keeping every
/// denomination, rounding each amount toward zero.
fn build_forward_funds(balance: &Vec<Coin>, part: Decimal) -> (r: Vec<Coin>)
    requires
        part.is_fraction(),
    ensures
        r@ == forward_funds(balance@, part),
{
    let mut out: Vec<Coin> = Vec::new();
    let mut i: usize = 0;
    while i < balance.len()
        invariant
            part.is_fraction(),
            i <= balance@.len(),
            out@.len() == i,
            forall|j: int| 0 <= j < i ==> out@[j] == forward_funds(balance@, part)[j],
        decreases balance@.len() - i,
    {
        let c = &balance[i];
        out.push(Coin { denom: c.denom.clone(), amount: mul_floor(c.amount, part) });
        i += 1;
    }
    assert(out@ =~= forward_funds(balance@, part));
    out
}

/// The state `donate` leaves behind: nothing on an unmet threshold; otherwise
/// the counter rises by one and, when a parent is configured, the remaining
/// periods tick down, wrapping back to the full period when they run out.
pub open spec fn spec_donate_state(s: State, config: Option<ParentDonation>, met: bool) -> State {
    if !met {
        s
    } else {
        let c = (s.counter + 1) as u64;
        match s.donating_parent {
            None => State { counter: c, ..s },
            Some(p) => if p == 1 {
                State {
                    counter: c,
                    donating_parent: Some(config.unwrap().donating_parent_period),
                    ..s
                }
            } else {
                State { counter: c, donating_parent: Some((p - 1) as u64), ..s }
            },
        }
    }
}

/// Whether this donation makes the cascade fire: the threshold is satisfied
/// and it is the last remaining period.
pub open spec fn spec_donate_fires(s: State, met: bool) -> bool {
    met && s.donating_parent == Some(1u64)
}

/// What `donate` leaves behind and reports.
pub open spec fn donate_post(
    old_s: State,
    new_s: State,
    config: Option<ParentDonation>,
    balance: Seq<Coin>,
    info: MessageInfo,
    r: Response,
) -> bool {
    let met = spec_threshold_met(old_s.minimal_donation, info.funds@);
    &&& new_s == spec_donate_state(old_s, config, met)
    &&& if spec_donate_fires(old_s, met) {
        &&& r.messages@.len() == 1
        &&& r.messages@[0] matches OutMsg::ForwardDonation { contract_addr, funds }
            && contract_addr@ == config.unwrap().address.id@
            && funds@ == forward_funds(balance, config.unwrap().part)
        &&& r.donation_to_parent matches Some(a) && a@ == config.unwrap().address.id@
    } else {
        r.messages@.len() == 0 && r.donation_to_parent is None
    }
    &&& r.data is None
    &&& r.log matches Some(log) && log.action@ == "donate"@ && log.counter == Some(new_s.counter)
        && log.sender@ == info.sender.id@
}

/// Counts a threshold-satisfying donation and runs the parent cascade.
///
/// When the threshold is disabled or met, the counter rises by one; with a
/// parent configured the remaining-period counter ticks down, and on its last
/// period the cascade fires: the periods wrap back to the configured value
/// and one forward instruction leaves, carrying the configured part of the
/// held balance. An unmet threshold changes nothing and still succeeds,
/// reporting the unchanged counter: a designed business outcome, not an
/// error.
pub fn donate(
    state: &mut State,
    config: &Option<ParentDonation>,
    balance: &Vec<Coin>,
    info: &MessageInfo,
) -> (r: Response)
    requires
        store_wf(*old(state), *config),
        spec_threshold_met(old(state).minimal_donation, info.funds@) ==> old(state).counter
            < u64::MAX,
    ensures
        donate_post(*old(state), *final(state), *config, balance@, *info, r),
        store_wf(*final(state), *config),
{
    let mut messages: Vec<OutMsg> = Vec::new();
    let mut donation_to_parent: Option<String> = None;

    if threshold_met(&state.minimal_donation, &info.funds) {
        state.counter = state.counter + 1;

        match state.donating_parent {
            Some(parent) => {
                if parent == 1 {
                    // store_wf: a remaining-period counter exists only
                    // alongside a configuration.
                    let parent_donation = match config {
                        Some(pd) => pd,
                        None => unreached(),
                    };
                    state.donating_parent = Some(parent_donation.donating_parent_period);
                    let funds = build_forward_funds(balance, parent_donation.part);
                    messages.push(OutMsg::ForwardDonation {
                        contract_addr: parent_donation.address.id.clone(),
                        funds,
                    });
                    donation_to_parent = Some(parent_donation.address.id.clone());
                } else {
                    state.donating_parent = Some(parent - 1);
                }
            },
            None => {},
        }
    }

    Response {
        messages,
        log: Some(ActionLog {
            action: String::from_str("donate"),
            counter: Some(state.counter),
            sender: info.sender.id.clone(),
        }),
        donation_to_parent,
        data: None,
    }
}

/// A zero threshold amount disables the threshold: with it, a donation
/// counts the event — the counter rises by exactly one — regardless of the
/// attached funds, even none at all.
pub proof fn lemma_zero_threshold_counts(s: State, config: Option<ParentDonation>, funds: Seq<Coin>)
    requires
        s.minimal_donation.amount == 0,
        s.counter < u64::MAX,
    ensures
        spec_threshold_met(s.minimal_donation, funds),
        spec_donate_state(s, config, spec_threshold_met(s.minimal_donation, funds)).counter == s.counter
            + 1,
{
}

/// With an active threshold and no attached payment meeting it, a donation
/// changes nothing — and in particular emits no forward.
pub proof fn lemma_unmet_threshold_no_change(
    s: State,
    config: Option<ParentDonation>,
    funds: Seq<Coin>,
)
    requires
        s.minimal_donation.amount > 0,
        forall|i: int| 0 <= i < funds.len() ==> !coin_meets(#[trigger] funds[i], s.minimal_donation),
    ensures
        !spec_threshold_met(s.minimal_donation, funds),
        spec_donate_state(s, config, spec_threshold_met(s.minimal_donation, funds)) == s,
        !spec_donate_fires(s, spec_threshold_met(s.minimal_donation, funds)),
{
}

/// The state after `k` further threshold-satisfying donations.
pub open spec fn iter_donate(s: State, config: Option<ParentDonation>, k: nat) -> State
    decreases k,
{
    if k == 0 {
        s
    } else {
        spec_donate_state(iter_donate(s, config, (k - 1) as nat), config, true)
    }
}

/// How a predecessor steps under the remainder: counting `x` down by one
/// steps its remainder down by one, wrapping to `n - 1` at zero.
proof fn lemma_pred_mod(x: int, n: int)
    requires
        n > 0,
    ensures
        (x - 1) % n == if x % n == 0 {
            n - 1
        } else {
            x % n - 1
        },
{
    vstd::arithmetic::div_mod::lemma_fundamental_div_mod(x, n);
    if x % n == 0 {
        assert(x - 1 == (x / n - 1) * n + (n - 1)) by (nonlinear_arith)
            requires
                x == n * (x / n) + x % n,
                x % n == 0,
        ;
        vstd::arithmetic::div_mod::lemma_fundamental_div_mod_converse_mod(
            x - 1,
            n,
            x / n - 1,
            n - 1,
        );
    } else {
        assert(x - 1 == (x / n) * n + (x % n - 1)) by (nonlinear_arith)
            requires
                x == n * (x / n) + x % n,
        ;
        vstd::arithmetic::div_mod::lemma_fundamental_div_mod_converse_mod(
            x - 1,
            n,
            x / n,
            x % n - 1,
        );
    }
}

/// With a parent configured at period `N`, threshold-satisfying donations
/// cycle the remaining-period counter `N, N-1, ..., 1, N, N-1, ...` — it
/// never leaves `1..=N`, in particular never reaches zero or below — and the
/// forward fires exactly when it stands at 1: on exactly every `N`th such
/// donation.
pub proof fn lemma_forward_cycle(s: State, config: Option<ParentDonation>, k: nat)
    requires
        store_wf(s, config),
        s.donating_parent is Some,
    ensures
        store_wf(iter_donate(s, config, k), config),
        ({
            let n = config.unwrap().donating_parent_period as int;
            let p0 = s.donating_parent.unwrap() as int;
            let sk = iter_donate(s, config, k);
            &&& sk.donating_parent == Some((((p0 - 1 - k) % n + 1)) as u64)
            &&& (spec_donate_fires(sk, true) <==> (p0 - 1 - k) % n == 0)
        }),
    decreases k,
{
    let n = config.unwrap().donating_parent_period as int;
    let p0 = s.donating_parent.unwrap() as int;
    if k == 0 {
        vstd::arithmetic::div_mod::lemma_small_mod((p0 - 1) as nat, n as nat);
    } else {
        lemma_forward_cycle(s, config, (k - 1) as nat);
        lemma_pred_mod(p0 - 1 - (k - 1), n);
        vstd::arithmetic::div_mod::lemma_mod_bound(p0 - 1 - k, n);
        vstd::arithmetic::div_mod::lemma_mod_bound(p0 - 1 - (k - 1), n);
    }
}

/// What `withdraw` reports: the owner gets the entire held balance in one
/// transfer; anyone else is turned away with the owner's identity.
pub open spec fn withdraw_post(
    s: State,
    info: MessageInfo,
    balance: Seq<Coin>,
    r: Result<Response, ContractError>,
) -> bool {
    match r {
        Ok(resp) => {
            &&& info.sender.id@ == s.owner.id@
            &&& resp.messages@.len() == 1
            &&& resp.messages@[0] matches OutMsg::BankSend { to_address, amount }
                && to_address@ == s.owner.id@ && amount@ == balance
            &&& resp.data is None
            &&& resp.donation_to_parent is None
            &&& resp.log matches Some(log) && log.action@ == "withdraw"@ && log.counter is None
                && log.sender@ == info.sender.id@
        },
        Err(e) => {
            &&& info.sender.id@ != s.owner.id@
            &&& e matches ContractError::UnauthorizedErr { owner } && owner@ == s.owner.id@
        },
    }
}

/// Emits a transfer of the contract's entire held balance to the owner; only
/// the stored owner may ask. No partial withdrawal.
pub fn withdraw(state: &State, info: &MessageInfo, balance: Vec<Coin>) -> (r: Result<
    Response,
    ContractError,
>)
    ensures
        withdraw_post(*state, *info, balance@, r),
{
    if !info.sender.same_as(&state.owner) {
        return Err(ContractError::UnauthorizedErr { owner: state.owner.id.clone() });
    }
    let mut messages: Vec<OutMsg> = Vec::new();
    messages.push(OutMsg::BankSend { to_address: state.owner.id.clone(), amount: balance });
    Ok(Response {
        messages,
        log: Some(ActionLog {
            action: String::from_str("withdraw"),
            counter: None,
            sender: info.sender.id.clone(),
        }),
        donation_to_parent: None,
        data: None,
    })
}

/// The cap the list grants a denomination: the amount of its first entry in
/// that denomination, and zero when none names it. The cap list is an
/// allow-list with an implicit zero default, not merely an upper bound.
pub open spec fn cap_for(denom: Seq<char>, caps: Seq<Coin>) -> u128
    decreases caps.len(),
{
    if caps.len() == 0 {
        0
    } else if caps[0].denom@ == denom {
        caps[0].amount
    } else {
        cap_for(denom, caps.drop_first())
    }
}

pub open spec fn min128(a: u128, b: u128) -> u128 {
    if a <= b {
        a
    } else {
        b
    }
}

/// What a withdrawal transfers: the full balance when no caps are given, and
/// otherwise each held amount clipped to the cap its denomination is granted.
pub open spec fn spec_capped(balance: Seq<Coin>, caps: Seq<Coin>) -> Seq<Coin> {
    if caps.len() == 0 {
        balance
    } else {
        balance.map(
            |i: int, c: Coin| Coin { denom: c.denom, amount: min128(c.amount, cap_for(c.denom@, caps)) },
        )
    }
}

/// With a non-empty cap list, no denomination leaves above its cap, above the
/// held balance, or at all when the list does not name it.
pub proof fn lemma_capped_funds_bounded(balance: Seq<Coin>, caps: Seq<Coin>)
    requires
        caps.len() > 0,
    ensures
        spec_capped(balance, caps).len() == balance.len(),
        forall|i: int| 0 <= i < balance.len() ==> (#[trigger] spec_capped(balance, caps)[i]).amount
            <= cap_for(balance[i].denom@, caps),
        forall|i: int| 0 <= i < balance.len() ==> (#[trigger] spec_capped(balance, caps)[i]).amount
            <= balance[i].amount,
        forall|i: int|
            0 <= i < balance.len() && (forall|j: int|
                0 <= j < caps.len() ==> (#[trigger] caps[j]).denom@ != balance[i].denom@)
                ==> (#[trigger] spec_capped(balance, caps)[i]).amount == 0,
{
    assert forall|i: int|
        0 <= i < balance.len() && (forall|j: int|
            0 <= j < caps.len() ==> (#[trigger] caps[j]).denom@ != balance[i].denom@)
        implies (#[trigger] spec_capped(balance, caps)[i]).amount == 0 by {
        lemma_cap_for_absent(balance[i].denom@, caps);
    }
}

/// A denomination no cap entry names is granted zero.
pub proof fn lemma_cap_for_absent(denom: Seq<char>, caps: Seq<Coin>)
    requires
        forall|j: int| 0 <= j < caps.len() ==> (#[trigger] caps[j]).denom@ != denom,
    ensures
        cap_for(denom, caps) == 0,
    decreases caps.len(),
{
    if caps.len() > 0 {
        lemma_cap_for_absent(denom, caps.drop_first());
    }
}

/// Looks up the cap granted to `denom` by the entries of `caps` from index
/// `i` on: the first matching entry's amount, or zero.
fn cap_lookup_from(denom: &String, caps: &Vec<Coin>, i: usize) -> (r: u128)
    requires
        i <= caps@.len(),
    ensures
        r == cap_for(denom@, caps@.skip(i as int)),
    decreases caps@.len() - i,
{
    if i == caps.len() {
        assert(caps@.skip(i as int) =~= Seq::<Coin>::empty());
        0
    } else {
        assert(caps@.skip(i as int)[0] == caps@[i as int]);
        if caps[i].denom == *denom {
            caps[i].amount
        } else {
            assert(caps@.skip(i as int).drop_first() =~= caps@.skip(i as int + 1));
            cap_lookup_from(denom, caps, i + 1)
        }
    }
}

/// Clips each held amount to the cap its denomination is granted; with no
/// caps at all, the balance passes through whole.
fn build_capped(balance: Vec<Coin>, caps: &Vec<Coin>) -> (r: Vec<Coin>)
    ensures
        r@ == spec_capped(balance@, caps@),
{
    if caps.len() == 0 {
        return balance;
    }
    let mut out: Vec<Coin> = Vec::new();
    let mut i: usize = 0;
    while i < balance.len()
        invariant
            caps@.len() > 0,
            i <= balance@.len(),
            out@.len() == i,
            forall|j: int| 0 <= j < i ==> out@[j] == spec_capped(balance@, caps@)[j],
        decreases balance@.len() - i,
    {
        let c = &balance[i];
        let limit = cap_lookup_from(&c.denom, caps, 0);
        assert(caps@.skip(0) =~= caps@);
        let amount = if c.amount <= limit {
            c.amount
        } else {
            limit
        };
        out.push(Coin { denom: c.denom.clone(), amount });
        i += 1;
    }
    assert(out@ =~= spec_capped(balance@, caps@));
    out
}

/// What `withdraw_to` reports. A malformed receiver is rejected first, with
/// the rejected string; then only the owner may act; on success one transfer
/// leaves for the receiver, carrying the capped balance.
pub open spec fn withdraw_to_post(
    s: State,
    info: MessageInfo,
    receiver: Seq<char>,
    caps: Seq<Coin>,
    receiver_valid: bool,
    balance: Seq<Coin>,
    r: Result<Response, ContractError>,
) -> bool {
    match r {
        Ok(resp) => {
            &&& receiver_valid
            &&& info.sender.id@ == s.owner.id@
            &&& resp.messages@.len() == 1
            &&& resp.messages@[0] matches OutMsg::BankSend { to_address, amount }
                && to_address@ == receiver && amount@ == spec_capped(balance, caps)
            &&& resp.data is None
            &&& resp.donation_to_parent is None
            &&& resp.log matches Some(log) && log.action@ == "withdraw"@ && log.counter is None
                && log.sender@ == info.sender.id@
        },
        Err(ContractError::InvalidAddressErr { address }) => !receiver_valid && address@
            == receiver,
        Err(ContractError::UnauthorizedErr { owner }) => {
            &&& receiver_valid
            &&& info.sender.id@ != s.owner.id@
            &&& owner@ == s.owner.id@
        },
        Err(_) => false,
    }
}

/// Emits a transfer of the held balance to `receiver`, clipped per
/// denomination by the cap list `funds` when it is non-empty; only the
/// stored owner may ask, and the receiver must be a well-formed identity.
/// `receiver_valid` is the host validator's verdict on `receiver`.
pub fn withdraw_to(
    state: &State,
    info: &MessageInfo,
    receiver: String,
    funds: Vec<Coin>,
    receiver_valid: bool,
    balance: Vec<Coin>,
) -> (r: Result<Response, ContractError>)
    ensures
        withdraw_to_post(*state, *info, receiver@, funds@, receiver_valid, balance@, r),
{
    if !receiver_valid {
        return Err(ContractError::InvalidAddressErr { address: receiver });
    }
    if !info.sender.same_as(&state.owner) {
        return Err(ContractError::UnauthorizedErr { owner: state.owner.id.clone() });
    }
    let amount = build_capped(balance, &funds);
    let mut messages: Vec<OutMsg> = Vec::new();
    messages.push(OutMsg::BankSend { to_address: receiver, amount });
    Ok(Response {
        messages,
        log: Some(ActionLog {
            action: String::from_str("withdraw"),
            counter: None,
            sender: info.sender.id.clone(),
        }),
        donation_to_parent: None,
        data: None,
    })
}

} // verus!
