//! Strongly typed row identifiers. Each wraps the integer primary key of one
//! table, so an identifier of one entity cannot be passed where another is
//! expected; the raw integer is reached only through the field.
use vstd::prelude::*;

verus! {

/// Primary key of a user.
#[derive(Clone, Copy, Debug, PartialEq, Eq, Structural)]
pub struct UserId(pub i32);

/// Primary key of a revenue row.
#[derive(Clone, Copy, Debug, PartialEq, Eq, Structural)]
pub struct UserRevenueId(pub i32);

/// Primary key of a payment row.
#[derive(Clone, Copy, Debug, PartialEq, Eq, Structural)]
pub struct UserPaymentId(pub i32);

/// Primary key of an expense row.
#[derive(Clone, Copy, Debug, PartialEq, Eq, Structural)]
pub struct UserExpenseId(pub i32);

/// Primary key of an installment row.
#[derive(Clone, Copy, Debug, PartialEq, Eq, Structural)]
pub struct UserExpenseInstallmentId(pub i32);

} // verus!
