//! The closed set of charge methods an expense can carry.
use vstd::prelude::*;

verus! {

/// How the cost of an expense is attributed between the two parties.
#[derive(Clone, Copy, Debug, PartialEq, Eq, Structural)]
pub enum UserExpensesChargeMethod {
    /// Split 50/50.
    Even,
    /// Split by each party's share of the combined income.
    Proportional,
    /// Entirely the charged user's responsibility.
    Full,
}

} // verus!
