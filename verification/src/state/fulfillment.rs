use vstd::prelude::*;

use anchor_lang::prelude::Pubkey;

verus! {

/// How a perp order is to be filled: against the AMM (with an optional
/// stop price), or against a maker's order (maker, order id, price).
#[derive(Debug, PartialEq, Eq)]
pub enum PerpFulfillmentMethod {
    AMM(Option<u64>),
    Match(Pubkey, u16, u64),
}

} // verus!
