use vstd::prelude::*;

use crate::controller::orders::{place_perp_order, spec_place_perp_order};
use crate::error::{ErrorCode, MiniDriftResult};
use crate::state::events::OrderRecord;
use crate::state::order_params::OrderParams;
use crate::state::user::{first_index, order_is_available, User, UserView};
use anchor_lang::prelude::Pubkey;

verus! {

/// Sets up a new user account for `authority`; its order ids start at one.
pub fn initialize_user(user: &mut User, authority: Pubkey)
    ensures
        final(user)@ == (UserView { authority, next_order_id: 1, ..old(user)@ }),
{
    user.authority = authority;
    user.next_order_id = 1;
}

/// The record of a placement: for a placed order, the order as it was
/// stored in the first free order slot, stamped with the time and the
/// user's account.
pub open spec fn spec_place_perp_order_record(
    u: UserView,
    user_key: Pubkey,
    order_params: OrderParams,
    now: i64,
) -> MiniDriftResult<OrderRecord> {
    let (after, r) = spec_place_perp_order(u, order_params);
    match r {
        Err(e) => Err(e),
        Ok(_) => Ok(
            OrderRecord {
                ts: now,
                user: user_key,
                order: after.orders[first_index(u.orders, order_is_available())->Some_0],
            },
        ),
    }
}

/// Places an order for the user and returns the record to emit for it.
pub fn handle_place_perp_order(
    user: &mut User,
    user_key: Pubkey,
    order_params: OrderParams,
    now: i64,
) -> (r: MiniDriftResult<OrderRecord>)
    ensures
        final(user)@ == spec_place_perp_order(old(user)@, order_params).0,
        r == spec_place_perp_order_record(old(user)@, user_key, order_params, now),
{
    let slot = user.get_available_order_index();
    let placed = place_perp_order(user, order_params);
    match placed {
        Err(e) => Err(e),
        Ok(_) => {
            proof {
                vstd::array::array_len_matches_n(&user.orders);
            }
            match slot {
                Some(order_index) => Ok(
                    OrderRecord { ts: now, user: user_key, order: user.orders[order_index] },
                ),
                None => Err(ErrorCode::NoOrderSlotAvailable),
            }
        },
    }
}

} // verus!
