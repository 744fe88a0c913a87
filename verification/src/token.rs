//! Requests to the token ledger, and the plan that an operation hands to
//! whoever drives the engine.
//!
//! The engine never moves tokens itself. An operation that needs tokens moved
//! or burned works on the caller's copy of the records and returns a
//! [`Plan`]. The caller has the token ledger carry out the requests of the
//! plan in their order, all or none, and hands its answer back as a
//! [`Settlement`]. The settlement decides which records are stored
//! ([`Settlement::keep`]) and whether the event is published
//! ([`Plan::close`]): after a failure nothing that the operation did remains.

use vstd::prelude::*;
use crate::ids::AccountId;

verus! {

/// Move `amount` from the token account `from` to the token account `to`,
/// signed by `authority`.
#[derive(Clone, Copy, Debug, PartialEq, Eq)]
pub struct TokenTransfer {
    pub from: AccountId,
    pub to: AccountId,
    pub authority: AccountId,
    pub amount: u64,
}

/// Burn `amount` tokens of `mint` out of the token account `from`, signed by
/// `authority`.
#[derive(Clone, Copy, Debug, PartialEq, Eq)]
pub struct TokenBurn {
    pub mint: AccountId,
    pub from: AccountId,
    pub authority: AccountId,
    pub amount: u64,
}

/// What the engine can ask of the token ledger.
#[derive(Clone, Copy, Debug, PartialEq, Eq)]
pub enum TokenRequest {
    Transfer(TokenTransfer),
    Burn(TokenBurn),
}

/// What an accepted operation asks for: the requests to settle with the token
/// ledger, first to last, and the record to publish once they are settled.
#[derive(Clone, Debug, PartialEq, Eq)]
pub struct Plan<E> {
    pub requests: Vec<TokenRequest>,
    pub event: E,
}

/// What the token ledger answered to the requests of a plan.
#[derive(Clone, Copy, Debug, PartialEq, Eq, Structural)]
pub enum Settlement {
    /// Every request was carried out.
    Settled,
    /// A request failed, and none of them has had any effect.
    Failed,
}

impl Settlement {
    /// The records to store once the token ledger has answered: those that
    /// the operation left if every request was settled, else those from
    /// before the operation.
    pub fn keep<S>(self, before: S, after: S) -> (kept: S)
        ensures
            kept == (match self {
                Settlement::Settled => after,
                Settlement::Failed => before,
            }),
    {
        match self {
            Settlement::Settled => after,
            Settlement::Failed => before,
        }
    }
}

impl<E> Plan<E> {
    /// The record to publish once the token ledger has answered: the event of
    /// the operation if every request was settled, else none.
    pub fn close(self, settlement: Settlement) -> (published: Option<E>)
        ensures
            published == (match settlement {
                Settlement::Settled => Some(self.event),
                Settlement::Failed => None,
            }),
    {
        match settlement {
            Settlement::Settled => Some(self.event),
            Settlement::Failed => None,
        }
    }
}

} // verus!
