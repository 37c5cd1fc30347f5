//! The one query: the current counter value.

use vstd::prelude::*;
use crate::msg::ValueResp;
use crate::state::State;

verus! {

/// Reports the current counter.
pub fn value(state: &State) -> (r: ValueResp)
    ensures
        r == (ValueResp { value: state.counter }),
{
    ValueResp { value: state.counter }
}

} // verus!
