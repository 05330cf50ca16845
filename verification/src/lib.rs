//! Risk sizing for the forced take-over of a perpetual position: how many
//! base lots a liquidator may take from an account whose health has fallen
//! below zero, at what quote price, and which state both accounts are left in.
//!
//! - `i80f48`: the fixed-point numbers all amounts are held in.
//! - `pubkey`, `mango_group`: identities, and the group's table of
//!   instruments with their risk weights.
//! - `perp_market`, `perp_position`, `mango_account`: the records a
//!   liquidation reads and changes.
//! - `sizing`: the number of lots to transfer and the quote that goes with them.
//! - `perp_liq_base_position`: the liquidation itself, in steps around
//!   the computation of health, which is not part of this library.
//! - `error`: the errors, each naming the check that failed.

pub mod error;
pub mod i80f48;
pub mod mango_account;
pub mod mango_group;
pub mod perp_liq_base_position;
pub mod perp_market;
pub mod perp_position;
pub mod pubkey;
pub mod sizing;
