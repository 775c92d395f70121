//! Core protocol logic of a perpetual-futures exchange: orders, positions,
//! a constant-product AMM, spreads, auctions and oracle guards.

pub mod controller;
pub mod error;
pub mod instructions;
pub mod math;
pub mod state;
