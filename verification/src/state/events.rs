use vstd::prelude::*;

use crate::state::user::Order;
use anchor_lang::prelude::Pubkey;

verus! {

/// A record that a user placed an order.
#[derive(Debug, PartialEq, Eq, Clone, Copy)]
pub struct OrderRecord {
    pub ts: i64,
    pub user: Pubkey,
    pub order: Order,
}

/// A record of an action taken on a taker's order.
#[derive(Debug, PartialEq, Eq, Clone, Copy)]
pub struct OrderActionRecord {
    pub ts: i64,
    pub action: OrderAction,
    pub action_explanation: OrderActionExplanation,
    pub market_index: u16,
    pub filler: Pubkey,
    pub base_asset_amount_filled: u64,
    pub quote_asset_amount_filled: u64,
    pub taker: Pubkey,
    pub taker_order: Order,
}

#[derive(PartialEq, Eq, Structural, Debug, Clone, Copy, Default, PartialOrd, Ord)]
pub enum OrderAction {
    #[default]
    Fill,
}

#[derive(PartialEq, Eq, Structural, Debug, Clone, Copy, Default, PartialOrd, Ord)]
pub enum OrderActionExplanation {
    #[default]
    OrderFilledWithAMM,
}

/// The receipt of a fill against the AMM.
pub open spec fn spec_order_action_record(
    ts: i64,
    market_index: u16,
    filler: Pubkey,
    base_asset_amount_filled: u64,
    quote_asset_amount_filled: u64,
    taker: Pubkey,
    taker_order: Order,
) -> OrderActionRecord {
    OrderActionRecord {
        ts,
        action: OrderAction::Fill,
        action_explanation: OrderActionExplanation::OrderFilledWithAMM,
        market_index,
        filler,
        base_asset_amount_filled,
        quote_asset_amount_filled,
        taker,
        taker_order,
    }
}

pub fn get_order_action_record(
    ts: i64,
    market_index: u16,
    filler: Pubkey,
    base_asset_amount_filled: u64,
    quote_asset_amount_filled: u64,
    taker: Pubkey,
    taker_order: Order,
) -> (r: OrderActionRecord)
    ensures
        r == spec_order_action_record(
            ts,
            market_index,
            filler,
            base_asset_amount_filled,
            quote_asset_amount_filled,
            taker,
            taker_order,
        ),
{
    OrderActionRecord {
        ts,
        action: OrderAction::Fill,
        action_explanation: OrderActionExplanation::OrderFilledWithAMM,
        market_index,
        filler,
        base_asset_amount_filled,
        quote_asset_amount_filled,
        taker,
        taker_order,
    }
}

} // verus!
