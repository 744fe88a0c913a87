//! The strategy rule: which exposure asset the treasury may buy.
//!
//! A treasury has one rule, and so one approved asset at a time. A set of
//! approved assets, each with its own allocation cap, would replace
//! [`StrategyRuleView::approves`] and nothing else.

use vstd::prelude::*;
use crate::ids::AccountId;

verus! {

/// An administrative allowlist entry. The engine reads it and never changes
/// it.
#[derive(Clone, Copy, Debug, PartialEq, Eq)]
pub struct StrategyRule {
    pub approved_asset: AccountId,
    pub max_allocation_percentage: u16,
    pub is_active: bool,
}

/// Model of a strategy rule.
pub struct StrategyRuleView {
    pub approved_asset: AccountId,
    pub max_allocation_percentage: nat,
    pub is_active: bool,
}

impl View for StrategyRule {
    type V = StrategyRuleView;

    open spec fn view(&self) -> StrategyRuleView {
        StrategyRuleView {
            approved_asset: self.approved_asset,
            max_allocation_percentage: self.max_allocation_percentage as nat,
            is_active: self.is_active,
        }
    }
}

impl StrategyRuleView {
    /// The rule approves `asset`: it is active, and `asset` is its asset.
    pub open spec fn approves(self, asset: AccountId) -> bool {
        self.is_active && self.approved_asset == asset
    }
}

impl StrategyRule {
    /// Whether the rule approves `asset`.
    pub fn is_approved(&self, asset: &AccountId) -> (approved: bool)
        ensures
            approved == self@.approves(*asset),
    {
        self.is_active && self.approved_asset == *asset
    }
}

} // verus!
