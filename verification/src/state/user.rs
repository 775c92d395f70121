use vstd::prelude::*;

use crate::error::{ErrorCode, MiniDriftResult};
use crate::state::order_params::OrderParams;
use anchor_lang::prelude::Pubkey;

verus! {

pub const MAX_PERP_POSITIONS: usize = 8;

pub const MAX_ORDERS: usize = 16;

pub const POSITION_FLAG_BEING_LIQUIDATED: u8 = 0b00000010;

pub const POSITION_FLAG_BANKRUPT: u8 = 0b00000100;

/// `i` is the least index of `s` whose element satisfies `p`.
pub open spec fn is_first_index<T>(s: Seq<T>, p: spec_fn(T) -> bool, i: int) -> bool {
    &&& 0 <= i < s.len()
    &&& p(s[i])
    &&& forall|j: int| 0 <= j < i ==> !p(#[trigger] s[j])
}

/// The least index of `s` whose element satisfies `p`, if there is one.
pub open spec fn first_index<T>(s: Seq<T>, p: spec_fn(T) -> bool) -> Option<int> {
    if exists|i: int| is_first_index(s, p, i) {
        Some(choose|i: int| is_first_index(s, p, i))
    } else {
        None
    }
}

/// The least index is unique, and it exists exactly when some element
/// satisfies `p`.
pub proof fn lemma_first_index<T>(s: Seq<T>, p: spec_fn(T) -> bool)
    ensures
        match first_index(s, p) {
            Some(i) => is_first_index(s, p, i),
            None => forall|j: int| 0 <= j < s.len() ==> !p(#[trigger] s[j]),
        },
        forall|i: int| #[trigger] is_first_index(s, p, i) ==> first_index(s, p) == Some(i),
{
    assert forall|i: int| #[trigger] is_first_index(s, p, i) implies first_index(s, p) == Some(i) by {
        let k = choose|k: int| is_first_index(s, p, k);
        assert(is_first_index(s, p, k));
        if k < i {
            assert(!p(s[k]));
        } else if i < k {
            assert(!p(s[i]));
        }
    }
    if first_index(s, p) is None {
        assert forall|j: int| 0 <= j < s.len() implies !p(#[trigger] s[j]) by {
            if p(s[j]) {
                lemma_least_witness(s, p, j);
            }
        }
    }
}

proof fn lemma_least_witness<T>(s: Seq<T>, p: spec_fn(T) -> bool, j: int)
    requires
        0 <= j < s.len(),
        p(s[j]),
    ensures
        exists|i: int| is_first_index(s, p, i),
    decreases j,
{
    if exists|k: int| 0 <= k < j && p(#[trigger] s[k]) {
        let k = choose|k: int| 0 <= k < j && p(#[trigger] s[k]);
        lemma_least_witness(s, p, k);
    } else {
        assert(is_first_index(s, p, j));
    }
}

/// An index found in a sequence, as a `usize`.
pub open spec fn as_usize(i: Option<int>) -> Option<usize> {
    match i {
        Some(i) => Some(i as usize),
        None => None,
    }
}

/// A user's exposure in one market.
#[derive(Default, Debug, PartialEq, Eq, Clone, Copy)]
pub struct PerpPosition {
    /// Market like SOL-PERP, BTC-PERP
    pub market_index: u16,
    /// Signed base amount: positive is long, negative is short.
    /// precision: BASE_PRECISION
    pub base_asset_amount: i64,
    /// precision: QUOTE_PRECISION
    pub quote_asset_amount: i64,
    /// Quote paid or received to open the current exposure.
    /// precision: QUOTE_PRECISION
    pub quote_entry_amount: i64,
    /// Entry amount including fees.
    /// precision: QUOTE_PRECISION
    pub quote_break_even_amount: i64,
    /// Number of open (unfilled) orders.
    pub open_orders: u8,
    pub open_bids: i64,
    pub open_asks: i64,
    pub position_flag: u8,
    pub isolated_position_scaled_balance: u64,
}

impl PerpPosition {
    pub open spec fn spec_is_open_position(&self) -> bool {
        self.base_asset_amount != 0
    }

    pub open spec fn spec_has_open_order(&self) -> bool {
        self.open_orders != 0 || self.open_bids != 0 || self.open_asks != 0
    }

    pub open spec fn spec_has_unsettled_pnl(&self) -> bool {
        self.base_asset_amount == 0 && self.quote_asset_amount != 0
    }

    pub open spec fn spec_is_being_liquidated(&self) -> bool {
        self.position_flag & POSITION_FLAG_BEING_LIQUIDATED != 0
            || self.position_flag & POSITION_FLAG_BANKRUPT != 0
    }

    /// A slot is free when it holds no exposure, no orders, no unsettled
    /// pnl, no liquidation and no isolated balance.
    pub open spec fn spec_is_available(&self) -> bool {
        &&& !self.spec_is_open_position()
        &&& !self.spec_has_open_order()
        &&& !self.spec_has_unsettled_pnl()
        &&& !self.spec_is_being_liquidated()
        &&& self.isolated_position_scaled_balance == 0
    }

    pub open spec fn spec_is_for(&self, market_index: u16) -> bool {
        self.market_index == market_index && !self.spec_is_available()
    }

    #[verifier::when_used_as_spec(spec_is_open_position)]
    pub fn is_open_position(&self) -> (r: bool)
        ensures
            r == self.spec_is_open_position(),
    {
        self.base_asset_amount != 0
    }

    #[verifier::when_used_as_spec(spec_has_open_order)]
    pub fn has_open_order(&self) -> (r: bool)
        ensures
            r == self.spec_has_open_order(),
    {
        self.open_orders != 0 || self.open_bids != 0 || self.open_asks != 0
    }

    #[verifier::when_used_as_spec(spec_has_unsettled_pnl)]
    pub fn has_unsettled_pnl(&self) -> (r: bool)
        ensures
            r == self.spec_has_unsettled_pnl(),
    {
        self.base_asset_amount == 0 && self.quote_asset_amount != 0
    }

    #[verifier::when_used_as_spec(spec_is_being_liquidated)]
    pub fn is_being_liquidated(&self) -> (r: bool)
        ensures
            r == self.spec_is_being_liquidated(),
    {
        self.position_flag & POSITION_FLAG_BEING_LIQUIDATED != 0
            || self.position_flag & POSITION_FLAG_BANKRUPT != 0
    }

    #[verifier::when_used_as_spec(spec_is_available)]
    pub fn is_available(&self) -> (r: bool)
        ensures
            r == self.spec_is_available(),
    {
        !self.is_open_position() && !self.has_open_order() && !self.has_unsettled_pnl()
            && !self.is_being_liquidated() && self.isolated_position_scaled_balance == 0
    }

    #[verifier::when_used_as_spec(spec_is_for)]
    pub fn is_for(&self, market_index: u16) -> (r: bool)
        ensures
            r == self.spec_is_for(market_index),
    {
        self.market_index == market_index && !self.is_available()
    }
}

#[derive(Clone, Copy, PartialEq, Eq, Structural, Debug, Default)]
pub enum PositionDirection {
    #[default]
    Long,
    Short,
}

#[derive(Clone, Copy, PartialEq, Eq, Structural, Debug, Default)]
pub enum OrderType {
    Market,
    #[default]
    Limit,
    TriggerMarket,
    TriggerLimit,
    Oracle,
}

#[derive(Clone, Copy, PartialEq, Eq, Structural, Debug, Default)]
pub enum OrderStatus {
    #[default]
    Init,
    Open,
    Filled,
    Canceled,
}

/// One order of a user.
#[derive(PartialEq, Debug, Eq, Default, Clone, Copy)]
pub struct Order {
    pub order_id: u32,
    pub market_index: u16,
    /// Slot in which the order was placed; its auction starts there.
    pub slot: u64,
    /// precision: PRICE_PRECISION
    pub price: u64,
    /// precision: BASE_PRECISION
    pub base_asset_amount: u64,
    /// precision: BASE_PRECISION
    pub base_asset_amount_filled: u64,
    pub direction: PositionDirection,
    pub order_type: OrderType,
    pub status: OrderStatus,
    pub max_ts: i64,
    pub reduce_only: bool,
    pub post_only: bool,
    pub immediate_or_cancel: bool,
    pub quote_asset_amount_filled: u64,
    pub existing_position_direction: PositionDirection,
    pub auction_duration: u8,
    pub auction_start_price: i64,
    pub auction_end_price: i64,
    pub bit_flags: u8,
}

/// The order that `params` describe, as stored when it is placed: open,
/// with the given id and direction of the existing position, nothing
/// filled, and every other field at its default.
pub open spec fn spec_new_order(
    params: OrderParams,
    order_id: u32,
    existing_position_direction: PositionDirection,
) -> Order {
    Order {
        order_id,
        market_index: params.market_index,
        slot: 0,
        price: params.price,
        base_asset_amount: params.base_asset_amount,
        base_asset_amount_filled: 0,
        direction: params.direction,
        order_type: params.order_type,
        status: OrderStatus::Open,
        max_ts: params.max_ts,
        reduce_only: params.reduce_only,
        post_only: params.post_only,
        immediate_or_cancel: params.immediate_or_cancel,
        quote_asset_amount_filled: 0,
        existing_position_direction,
        auction_duration: 0,
        auction_start_price: 0,
        auction_end_price: 0,
        bit_flags: 0,
    }
}

/// What remains to fill of `order`. With the size of an existing position
/// given, a reduce-only order that is not post-only is cut down to what
/// would reduce that position, and to nothing where it would grow it.
pub open spec fn spec_base_asset_amount_unfilled(
    order: Order,
    existing_position: Option<i64>,
) -> MiniDriftResult<u64> {
    if order.base_asset_amount < order.base_asset_amount_filled {
        Err(ErrorCode::MathError)
    } else {
        let unfilled = (order.base_asset_amount - order.base_asset_amount_filled) as u64;
        match existing_position {
            None => Ok(unfilled),
            Some(existing) => if !order.reduce_only || order.post_only {
                Ok(unfilled)
            } else if existing == 0 {
                Ok(0)
            } else if (order.direction == PositionDirection::Long && existing > 0) || (
            order.direction == PositionDirection::Short && existing < 0) {
                Ok(0)
            } else {
                let size: int = if existing < 0 { -existing } else { existing as int };
                Ok(if size < unfilled { size as u64 } else { unfilled })
            },
        }
    }
}

/// Whether the auction of `order` is over at `slot`.
pub open spec fn spec_is_auction_complete(order: Order, slot: u64) -> MiniDriftResult<bool> {
    if order.auction_duration == 0 {
        Ok(true)
    } else if slot < order.slot {
        Err(ErrorCode::MathError)
    } else {
        Ok(slot - order.slot > order.auction_duration)
    }
}

/// Whether `order` rests on the book at `slot`: a limit order that is
/// post-only or whose auction is over.
pub open spec fn spec_is_resting_limit_order(order: Order, slot: u64) -> MiniDriftResult<bool> {
    if !order.spec_is_limit_order() {
        Ok(false)
    } else if order.post_only {
        Ok(true)
    } else {
        spec_is_auction_complete(order, slot)
    }
}

impl Order {
    pub open spec fn spec_is_available(&self) -> bool {
        self.status != OrderStatus::Open
    }

    pub open spec fn spec_has_auction(&self) -> bool {
        self.auction_duration != 0
    }

    pub open spec fn spec_is_limit_order(&self) -> bool {
        self.order_type == OrderType::Limit || self.order_type == OrderType::TriggerLimit
    }

    pub open spec fn spec_update_open_bids_and_asks(&self) -> bool {
        !(self.order_type == OrderType::TriggerMarket || self.order_type == OrderType::TriggerLimit)
    }

    pub open spec fn spec_limit_price(&self) -> Option<u64> {
        if self.price == 0 { None } else { Some(self.price) }
    }

    /// An order slot is free unless it holds an open order.
    #[verifier::when_used_as_spec(spec_is_available)]
    pub fn is_available(&self) -> (r: bool)
        ensures
            r == self.spec_is_available(),
    {
        self.status != OrderStatus::Open
    }

    pub fn new_from_params(
        params: OrderParams,
        order_id: u32,
        existing_position_direction: PositionDirection,
    ) -> (order: Self)
        ensures
            order == spec_new_order(params, order_id, existing_position_direction),
    {
        Order {
            order_id,
            market_index: params.market_index,
            slot: 0,
            price: params.price,
            base_asset_amount: params.base_asset_amount,
            base_asset_amount_filled: 0,
            direction: params.direction,
            order_type: params.order_type,
            status: OrderStatus::Open,
            max_ts: params.max_ts,
            reduce_only: params.reduce_only,
            post_only: params.post_only,
            immediate_or_cancel: params.immediate_or_cancel,
            quote_asset_amount_filled: 0,
            existing_position_direction,
            auction_duration: 0,
            auction_start_price: 0,
            auction_end_price: 0,
            bit_flags: 0,
        }
    }

    /// An order has an auction when its auction lasts at least one slot.
    #[verifier::when_used_as_spec(spec_has_auction)]
    pub fn has_auction(&self) -> (r: bool)
        ensures
            r == self.spec_has_auction(),
    {
        self.auction_duration != 0
    }

    #[verifier::when_used_as_spec(spec_is_limit_order)]
    pub fn is_limit_order(&self) -> (r: bool)
        ensures
            r == self.spec_is_limit_order(),
    {
        self.order_type == OrderType::Limit || self.order_type == OrderType::TriggerLimit
    }

    /// Whether filling this order should release its open bids or asks;
    /// trigger orders never added to them.
    #[verifier::when_used_as_spec(spec_update_open_bids_and_asks)]
    pub fn update_open_bids_and_asks(&self) -> (r: bool)
        ensures
            r == self.spec_update_open_bids_and_asks(),
    {
        !(self.order_type == OrderType::TriggerMarket || self.order_type
            == OrderType::TriggerLimit)
    }

    /// The order's limit price; a zero price means none.
    pub fn get_limit_price(&self) -> (r: MiniDriftResult<Option<u64>>)
        ensures
            r == Ok::<Option<u64>, ErrorCode>(self.spec_limit_price()),
    {
        if self.price == 0 {
            Ok(None)
        } else {
            Ok(Some(self.price))
        }
    }

    pub fn is_auction_complete(&self, slot: u64) -> (r: MiniDriftResult<bool>)
        ensures
            r == spec_is_auction_complete(*self, slot),
    {
        if self.auction_duration == 0 {
            return Ok(true);
        }
        let elapsed = slot.checked_sub(self.slot).ok_or(ErrorCode::MathError)?;
        Ok(elapsed > self.auction_duration as u64)
    }

    pub fn is_resting_limit_order(&self, slot: u64) -> (r: MiniDriftResult<bool>)
        ensures
            r == spec_is_resting_limit_order(*self, slot),
    {
        if !self.is_limit_order() {
            Ok(false)
        } else if self.post_only {
            Ok(true)
        } else {
            self.is_auction_complete(slot)
        }
    }

    pub fn get_base_asset_amount_unfilled(&self, existing_position: Option<i64>) -> (r:
        MiniDriftResult<u64>)
        ensures
            r == spec_base_asset_amount_unfilled(*self, existing_position),
    {
        let base_asset_amount_unfilled = self.base_asset_amount.checked_sub(
            self.base_asset_amount_filled,
        ).ok_or(ErrorCode::MathError)?;
        let existing_position = match existing_position {
            Some(existing_position) => existing_position,
            None => return Ok(base_asset_amount_unfilled),
        };
        if !self.reduce_only || self.post_only {
            return Ok(base_asset_amount_unfilled);
        }
        if existing_position == 0 {
            return Ok(0);
        }
        let grows = match self.direction {
            PositionDirection::Long => existing_position > 0,
            PositionDirection::Short => existing_position < 0,
        };
        if grows {
            return Ok(0);
        }
        let size: u64 = if existing_position < 0 {
            (-(existing_position as i128)) as u64
        } else {
            existing_position as u64
        };
        if size < base_asset_amount_unfilled {
            Ok(size)
        } else {
            Ok(base_asset_amount_unfilled)
        }
    }
}

/// A user account: its positions, its orders and its counters.
#[derive(PartialEq, Debug, Eq, Default)]
pub struct User {
    pub authority: Pubkey,
    pub perp_positions: [PerpPosition; MAX_PERP_POSITIONS],
    pub orders: [Order; MAX_ORDERS],
    pub next_order_id: u32,
    pub open_orders: u8,
}

/// The contents of a user account, with its arrays seen as sequences.
pub struct UserView {
    pub authority: Pubkey,
    pub perp_positions: Seq<PerpPosition>,
    pub orders: Seq<Order>,
    pub next_order_id: u32,
    pub open_orders: u8,
}

impl UserView {
    /// The view of an account: as many position and order slots as it has.
    pub open spec fn spec_is_account(self) -> bool {
        &&& self.perp_positions.len() == MAX_PERP_POSITIONS
        &&& self.orders.len() == MAX_ORDERS
    }
}

impl View for User {
    type V = UserView;

    open spec fn view(&self) -> UserView {
        UserView {
            authority: self.authority,
            perp_positions: self.perp_positions@,
            orders: self.orders@,
            next_order_id: self.next_order_id,
            open_orders: self.open_orders,
        }
    }
}

pub open spec fn position_is_for(market_index: u16) -> spec_fn(PerpPosition) -> bool {
    |p: PerpPosition| p.spec_is_for(market_index)
}

pub open spec fn position_is_available() -> spec_fn(PerpPosition) -> bool {
    |p: PerpPosition| p.spec_is_available()
}

pub open spec fn order_is_available() -> spec_fn(Order) -> bool {
    |o: Order| o.spec_is_available()
}

/// The user after claiming a position slot for `market_index`, and the
/// slot: the first slot that is for that market; else the first free slot,
/// relabelled for the market; else an error and no change.
pub open spec fn spec_force_perp_position_index(u: UserView, market_index: u16) -> (
    UserView,
    MiniDriftResult<usize>,
) {
    match first_index(u.perp_positions, position_is_for(market_index)) {
        Some(i) => (u, Ok(i as usize)),
        None => match first_index(u.perp_positions, position_is_available()) {
            Some(j) => (
                UserView {
                    perp_positions: u.perp_positions.update(
                        j,
                        PerpPosition { market_index, ..u.perp_positions[j] },
                    ),
                    ..u
                },
                Ok(j as usize),
            ),
            None => (u, Err(ErrorCode::NoPerpPositionSlotAvailable)),
        },
    }
}

impl User {
    pub fn get_perp_position_index(&self, market_index: u16) -> (r: Option<usize>)
        ensures
            r == as_usize(first_index(self.perp_positions@, position_is_for(market_index))),
    {
        let mut i: usize = 0;
        while i < MAX_PERP_POSITIONS
            invariant
                i <= MAX_PERP_POSITIONS,
                forall|j: int| 0 <= j < i ==> !self.perp_positions@[j].spec_is_for(market_index),
            decreases MAX_PERP_POSITIONS - i,
        {
            if self.perp_positions[i].is_for(market_index) {
                proof {
                    lemma_first_index(self.perp_positions@, position_is_for(market_index));
                    assert(is_first_index(
                        self.perp_positions@,
                        position_is_for(market_index),
                        i as int,
                    ));
                }
                return Some(i);
            }
            i = i + 1;
        }
        proof {
            lemma_first_index(self.perp_positions@, position_is_for(market_index));
        }
        None
    }

    pub fn get_available_perp_position_index(&self) -> (r: Option<usize>)
        ensures
            r == as_usize(first_index(self.perp_positions@, position_is_available())),
    {
        let mut i: usize = 0;
        while i < MAX_PERP_POSITIONS
            invariant
                i <= MAX_PERP_POSITIONS,
                forall|j: int| 0 <= j < i ==> !self.perp_positions@[j].spec_is_available(),
            decreases MAX_PERP_POSITIONS - i,
        {
            if self.perp_positions[i].is_available() {
                proof {
                    lemma_first_index(self.perp_positions@, position_is_available());
                    assert(is_first_index(
                        self.perp_positions@,
                        position_is_available(),
                        i as int,
                    ));
                }
                return Some(i);
            }
            i = i + 1;
        }
        proof {
            lemma_first_index(self.perp_positions@, position_is_available());
        }
        None
    }

    pub fn get_available_order_index(&self) -> (r: Option<usize>)
        ensures
            r == as_usize(first_index(self.orders@, order_is_available())),
    {
        let mut i: usize = 0;
        while i < MAX_ORDERS
            invariant
                i <= MAX_ORDERS,
                forall|j: int| 0 <= j < i ==> !self.orders@[j].spec_is_available(),
            decreases MAX_ORDERS - i,
        {
            if self.orders[i].is_available() {
                proof {
                    lemma_first_index(self.orders@, order_is_available());
                    assert(is_first_index(self.orders@, order_is_available(), i as int));
                }
                return Some(i);
            }
            i = i + 1;
        }
        proof {
            lemma_first_index(self.orders@, order_is_available());
        }
        None
    }

    pub fn force_get_perp_position_index(&mut self, market_index: u16) -> (r: MiniDriftResult<
        usize,
    >)
        ensures
            (final(self)@, r) == spec_force_perp_position_index(old(self)@, market_index),
    {
        let active_position_index = self.get_perp_position_index(market_index);
        if let Some(index) = active_position_index {
            return Ok(index);
        } else {
            let available_free_index = self.get_available_perp_position_index();
            if let Some(available_index) = available_free_index {
                let mut position = self.perp_positions[available_index];
                position.market_index = market_index;
                self.perp_positions[available_index] = position;
                proof {
                    assert(self.perp_positions@ =~= old(self).perp_positions@.update(
                        available_index as int,
                        position,
                    ));
                }
                Ok(available_index)
            } else {
                Err(ErrorCode::NoPerpPositionSlotAvailable)
            }
        }
    }

    pub fn force_get_available_order_index(&self) -> (r: MiniDriftResult<usize>)
        ensures
            r == (match first_index(self.orders@, order_is_available()) {
                Some(i) => Ok(i as usize),
                None => Err(ErrorCode::NoOrderSlotAvailable),
            }),
    {
        self.get_available_order_index().ok_or(ErrorCode::NoOrderSlotAvailable)
    }
}

/// A position slot is claimed for a market by taking the first slot that
/// is already for that market, and only when there is none, the first free
/// slot, which is then labelled with the market and otherwise kept; with
/// neither there is no slot and nothing changes.
pub proof fn lemma_position_slot_claim(u: UserView, market_index: u16)
    requires
        u.spec_is_account(),
    ensures
        ({
            let (after, r) = spec_force_perp_position_index(u, market_index);
            let s = u.perp_positions;
            match r {
                Ok(i) => {
                    &&& 0 <= i < s.len()
                    &&& after.perp_positions.len() == s.len()
                    &&& after.perp_positions[i as int].market_index == market_index
                    &&& after == (UserView { perp_positions: after.perp_positions, ..u })
                    &&& forall|j: int|
                        0 <= j < s.len() && j != i ==> #[trigger] after.perp_positions[j] == s[j]
                    &&& ({
                        ||| s[i as int].spec_is_for(market_index) && after == u && forall|j: int|
                            0 <= j < i ==> !(#[trigger] s[j]).spec_is_for(market_index)
                        ||| s[i as int].spec_is_available() && after.perp_positions[i as int]
                            == (PerpPosition { market_index, ..s[i as int] }) && forall|j: int|
                            0 <= j < s.len() ==> !(#[trigger] s[j]).spec_is_for(market_index)
                            && (j < i ==> !s[j].spec_is_available())
                    })
                },
                Err(e) => {
                    &&& e == ErrorCode::NoPerpPositionSlotAvailable
                    &&& after == u
                    &&& forall|j: int|
                        0 <= j < s.len() ==> !(#[trigger] s[j]).spec_is_for(market_index)
                            && !s[j].spec_is_available()
                },
            }
        }),
{
    lemma_first_index(u.perp_positions, position_is_for(market_index));
    lemma_first_index(u.perp_positions, position_is_available());
    let s = u.perp_positions;
    match first_index(s, position_is_for(market_index)) {
        Some(i) => {
            assert(position_is_for(market_index)(s[i]));
            assert forall|j: int| 0 <= j < i implies !(#[trigger] s[j]).spec_is_for(market_index) by {
                assert(!position_is_for(market_index)(s[j]));
            }
        },
        None => {
            assert forall|j: int| 0 <= j < s.len() implies !(#[trigger] s[j]).spec_is_for(
                market_index,
            ) by {
                assert(!position_is_for(market_index)(s[j]));
            }
            match first_index(s, position_is_available()) {
                Some(k) => {
                    assert(position_is_available()(s[k]));
                    assert forall|j: int| 0 <= j < k implies !(#[trigger] s[j]).spec_is_available() by {
                        assert(!position_is_available()(s[j]));
                    }
                },
                None => {
                    assert forall|j: int| 0 <= j < s.len() implies !(
                    #[trigger] s[j]).spec_is_available() by {
                        assert(!position_is_available()(s[j]));
                    }
                },
            }
        },
    }
}

/// What is left to fill of an order never exceeds its base amount less what
/// is filled; for a reduce-only order that is not post-only, measured
/// against a position, it never exceeds the position's size, and it is
/// nothing when there is no position or the order would grow it.
pub proof fn lemma_unfilled_respects_reduce_only(order: Order, existing_position: Option<i64>)
    requires
        spec_base_asset_amount_unfilled(order, existing_position) is Ok,
    ensures
        ({
            let unfilled = spec_base_asset_amount_unfilled(order, existing_position)->Ok_0;
            let plain = order.base_asset_amount - order.base_asset_amount_filled;
            &&& order.base_asset_amount >= order.base_asset_amount_filled
            &&& unfilled <= plain
            &&& (existing_position is None || !order.reduce_only || order.post_only) ==> unfilled
                == plain
            &&& existing_position matches Some(existing) ==> (order.reduce_only
                && !order.post_only ==> {
                &&& unfilled <= if existing < 0 { -existing } else { existing as int }
                &&& (existing == 0 || (order.direction == PositionDirection::Long && existing > 0)
                    || (order.direction == PositionDirection::Short && existing < 0)) ==> unfilled
                    == 0
                &&& !(existing == 0 || (order.direction == PositionDirection::Long && existing > 0)
                    || (order.direction == PositionDirection::Short && existing < 0)) ==> (unfilled
                    == plain || unfilled == (if existing < 0 { -existing } else { existing as int }))
            })
        }),
{
}

/// A limit order rests on the book when it is post-only, or once its
/// auction is over: it has none, or more slots than its duration have
/// passed since its own slot. Asking about a slot before the order's own,
/// for an auction that is not over by being absent, is an error; any other
/// order never rests.
pub proof fn lemma_resting_limit_order(order: Order, slot: u64)
    ensures
        ({
            let r = spec_is_resting_limit_order(order, slot);
            let limit = order.order_type == OrderType::Limit || order.order_type
                == OrderType::TriggerLimit;
            &&& !limit ==> r == Ok::<bool, ErrorCode>(false)
            &&& limit && order.post_only ==> r == Ok::<bool, ErrorCode>(true)
            &&& limit && !order.post_only && order.auction_duration == 0 ==> r == Ok::<
                bool,
                ErrorCode,
            >(true)
            &&& limit && !order.post_only && order.auction_duration != 0 && slot >= order.slot
                ==> r == Ok::<bool, ErrorCode>(slot - order.slot > order.auction_duration)
            &&& limit && !order.post_only && order.auction_duration != 0 && slot < order.slot
                ==> r == Err::<bool, ErrorCode>(ErrorCode::MathError)
        }),
{
}

} // verus!
