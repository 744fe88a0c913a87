//! Accounting engine of a tokenized strategy fund.
//!
//! The engine computes transfer fees ([`fee`]), the net asset value per
//! token ([`nav`]) and the cash that a redemption releases ([`redemption`]),
//! and it keeps the books of the fund: the token configuration ([`config`]),
//! the treasury ledger ([`treasury`]), the holdings bought from it
//! ([`holdings`]) and the rule that says what may be bought
//! ([`strategy_rule`]). All amounts are 64-bit integers; products go through
//! 128 bits ([`fixed_point`]) and quotients are rounded down.
//!
//! The engine holds no state of its own and does no input or output. Each
//! operation takes the records it works on, the time, and its arguments; it
//! checks every condition before it changes anything; and it returns the
//! record of what happened together with the requests to the token ledger
//! that belong to it ([`token`]). Fetching and storing records, reading the
//! clock, moving tokens and publishing records are the caller's part.

pub mod config;
pub mod errors;
pub mod fee;
pub mod fixed_point;
pub mod holdings;
pub mod ids;
pub mod nav;
pub mod redemption;
pub mod scale;
pub mod strategy_rule;
pub mod token;
pub mod treasury;
