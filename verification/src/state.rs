use vstd::prelude::*;

pub mod events;
pub mod fill_mode;
pub mod fulfillment;
pub mod oracle;
pub mod order_params;
pub mod perp_market;
pub mod user;

verus! {

/// Account addresses are carried through the protocol logic unchanged;
/// nothing here looks inside one.
#[verifier::external_type_specification]
#[verifier::external_body]
pub struct ExPubkey(anchor_lang::prelude::Pubkey);

} // verus!
