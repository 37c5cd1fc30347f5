//! Plain value types the ledger's records and calls are made of: identities,
//! denominated amounts, and the fixed-point fraction used for forwarding.

use vstd::prelude::*;
use vstd::arithmetic::mul::lemma_mul_upper_bound;
use crate::math::{mul_div_floor, muldiv_floor};

verus! {

/// An opaque, comparable identity: an account or contract address. Whether a
/// string denotes a well-formed identity is the host validator's call; this
/// type only carries and compares the value.
#[derive(Clone, Debug, PartialEq, Eq)]
pub struct Addr {
    pub id: String,
}

impl Addr {
    pub fn new(id: String) -> (r: Addr)
        ensures
            r.id == id,
    {
        Addr { id }
    }

    /// Whether two identities denote the same account.
    pub fn same_as(&self, other: &Addr) -> (r: bool)
        ensures
            r == (self.id@ == other.id@),
    {
        self.id == other.id
    }

    pub fn dup(&self) -> (r: Addr)
        ensures
            r == *self,
    {
        Addr { id: self.id.clone() }
    }
}

/// An amount of one denomination, in the host's 128-bit atomic units.
#[derive(Clone, Debug, PartialEq, Eq)]
pub struct Coin {
    pub denom: String,
    pub amount: u128,
}

impl Coin {
    pub fn new(amount: u128, denom: String) -> (r: Coin)
        ensures
            r.amount == amount,
            r.denom == denom,
    {
        Coin { denom, amount }
    }

    pub fn dup(&self) -> (r: Coin)
        ensures
            r == *self,
    {
        Coin { denom: self.denom.clone(), amount: self.amount }
    }
}

/// The scale of the fixed-point fraction: 10^18 atomic units make one whole.
pub const FRACTION_SCALE: u128 = 1_000_000_000_000_000_000;

/// Atomic units in one hundredth of a whole.
pub const PERCENT_SCALE: u128 = 10_000_000_000_000_000;

/// A fixed-point non-negative number with eighteen fractional decimal digits,
/// stored as its count of atomic units.
#[derive(Clone, Copy, Debug, PartialEq, Eq)]
pub struct Decimal {
    pub atomics: u128,
}

impl Decimal {
    /// At most one: a proportion of a whole.
    pub open spec fn is_fraction(self) -> bool {
        self.atomics <= FRACTION_SCALE
    }

    pub fn new(atomics: u128) -> (r: Decimal)
        ensures
            r.atomics == atomics,
    {
        Decimal { atomics }
    }

    pub fn zero() -> (r: Decimal)
        ensures
            r.atomics == 0,
    {
        Decimal { atomics: 0 }
    }

    pub fn one() -> (r: Decimal)
        ensures
            r.atomics == FRACTION_SCALE,
    {
        Decimal { atomics: FRACTION_SCALE }
    }

    /// `p` hundredths of a whole.
    pub fn percent(p: u64) -> (r: Decimal)
        ensures
            r.atomics == p * PERCENT_SCALE,
    {
        proof {
            lemma_mul_upper_bound(p as int, 0xFFFF_FFFF_FFFF_FFFFu64 as int, PERCENT_SCALE as int, PERCENT_SCALE as int);
        }
        Decimal { atomics: (p as u128) * PERCENT_SCALE }
    }
}

/// The value of a fraction of `amount`, rounded toward zero.
pub open spec fn spec_mul_floor(amount: u128, part: Decimal) -> int {
    muldiv_floor(amount as int, part.atomics as int, FRACTION_SCALE as int)
}

/// A fraction of an amount, rounded toward zero: `amount * part`.
pub fn mul_floor(amount: u128, part: Decimal) -> (r: u128)
    requires
        part.is_fraction(),
    ensures
        r == spec_mul_floor(amount, part),
        r <= amount,
{
    mul_div_floor(amount, part.atomics, FRACTION_SCALE)
}

/// The acting identity of a call together with the funds it attached.
#[derive(Clone, Debug, PartialEq, Eq)]
pub struct MessageInfo {
    pub sender: Addr,
    pub funds: Vec<Coin>,
}

impl MessageInfo {
    pub fn new(sender: Addr, funds: Vec<Coin>) -> (r: MessageInfo)
        ensures
            r.sender == sender,
            r.funds == funds,
    {
        MessageInfo { sender, funds }
    }
}

} // verus!
