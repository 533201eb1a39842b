//! The user-facing write operations: each turns its external parameters into
//! the rows to insert, failing before any storage access when a timestamp is
//! not a representable instant.
use vstd::prelude::*;
use crate::enums::UserExpensesChargeMethod;
use crate::ids::UserExpenseId;
use crate::installments::{ScheduledInstallment, is_schedule, schedule_fits, schedule_installments};
use crate::instant::{Timestamp, valid_unix_seconds};

verus! {

/// Failures of the user-facing write operations.
#[derive(Clone, Copy, Debug, PartialEq, Eq, Structural)]
pub enum UserError {
    /// A timestamp is not a representable instant.
    Time,
    /// The storage layer failed or aborted the transaction.
    Database,
    /// An expense was asked for with zero installments.
    InvalidInstallments,
}

/// The category under which an error reaches the remote caller.
#[derive(Clone, Copy, Debug, PartialEq, Eq, Structural)]
pub enum StatusCategory {
    OutOfRange,
    InvalidArgument,
    Internal,
}

impl UserError {
    /// Time errors are out-of-range arguments, a bad installment count an
    /// invalid argument, storage failures internal errors.
    pub fn status_category(&self) -> (r: StatusCategory)
        ensures
            r == match *self {
                UserError::Time => StatusCategory::OutOfRange,
                UserError::InvalidInstallments => StatusCategory::InvalidArgument,
                UserError::Database => StatusCategory::Internal,
            },
    {
        match self {
            UserError::Time => StatusCategory::OutOfRange,
            UserError::InvalidInstallments => StatusCategory::InvalidArgument,
            UserError::Database => StatusCategory::Internal,
        }
    }
}

pub struct CreateRevenueParams {
    pub user_id: i32,
    pub amount_cents: i64,
    pub description: Option<String>,
    /// Unix seconds.
    pub incoming_at: i64,
}

pub struct CreatePaymentParams {
    pub created_by: i32,
    pub amount_cents: i64,
    pub payee_user_id: i32,
    pub payer_user_id: i32,
    /// Unix seconds.
    pub payed_at: i64,
}

pub struct CreateExpenseParams {
    pub amount_cents: i64,
    /// Unix seconds.
    pub begin_charging_at: i64,
    pub created_by: i32,
    pub charged_user_id: i32,
    pub chargee_user_id: i32,
    pub charge_method: UserExpensesChargeMethod,
    pub description: Option<String>,
    pub installments: u32,
}

pub enum CreateExpenseOutcome {
    Created(UserExpenseId),
}

/// A revenue row to insert. Amounts are not checked here: storage rejects
/// non-positive ones.
pub struct NewRevenue {
    pub user_id: i32,
    pub amount_cents: i64,
    pub description: Option<String>,
    pub incoming_at: Timestamp,
}

/// A payment row to insert. Storage rejects a non-positive amount and a payer
/// equal to the payee.
pub struct NewPayment {
    pub created_by: i32,
    pub amount_cents: i64,
    pub payer_user_id: i32,
    pub payee_user_id: i32,
    pub payed_at: Timestamp,
}

/// An expense row to insert. Storage rejects a non-positive amount and a
/// chargee equal to the charged user.
pub struct NewExpense {
    pub created_by: i32,
    pub amount_cents: i64,
    pub description: Option<String>,
    pub chargee_user_id: i32,
    pub charged_user_id: i32,
    pub begin_charging_at: Timestamp,
    pub charge_method: UserExpensesChargeMethod,
}

/// An expense together with the installments to insert with it.
pub struct ExpensePlan {
    pub expense: NewExpense,
    pub schedule: Vec<ScheduledInstallment>,
}

/// The revenue row for `p`; `Time` when `incoming_at` is not representable.
pub fn prepare_revenue(p: CreateRevenueParams) -> (r: Result<NewRevenue, UserError>)
    ensures
        r is Ok <==> valid_unix_seconds(p.incoming_at as int),
        r matches Ok(row) ==> row.user_id == p.user_id && row.amount_cents == p.amount_cents
            && row.description == p.description && row.incoming_at@ == p.incoming_at as int,
        r matches Err(e) ==> e == UserError::Time,
{
    match Timestamp::from_unix_timestamp(p.incoming_at) {
        Some(incoming_at) => Ok(
            NewRevenue {
                user_id: p.user_id,
                amount_cents: p.amount_cents,
                description: p.description,
                incoming_at,
            },
        ),
        None => Err(UserError::Time),
    }
}

/// The payment row for `p`; `Time` when `payed_at` is not representable.
pub fn prepare_payment(p: CreatePaymentParams) -> (r: Result<NewPayment, UserError>)
    ensures
        r is Ok <==> valid_unix_seconds(p.payed_at as int),
        r matches Ok(row) ==> row.created_by == p.created_by && row.amount_cents == p.amount_cents
            && row.payer_user_id == p.payer_user_id && row.payee_user_id == p.payee_user_id
            && row.payed_at@ == p.payed_at as int,
        r matches Err(e) ==> e == UserError::Time,
{
    match Timestamp::from_unix_timestamp(p.payed_at) {
        Some(payed_at) => Ok(
            NewPayment {
                created_by: p.created_by,
                amount_cents: p.amount_cents,
                payer_user_id: p.payer_user_id,
                payee_user_id: p.payee_user_id,
                payed_at,
            },
        ),
        None => Err(UserError::Time),
    }
}

/// The expense row for `p` and its installment schedule. Fails with `Time`
/// when `begin_charging_at` or the last installment is not representable,
/// and with `InvalidInstallments` when no installment is asked for.
pub fn prepare_expense(p: CreateExpenseParams) -> (r: Result<ExpensePlan, UserError>)
    ensures
        !valid_unix_seconds(p.begin_charging_at as int) ==> r == Err::<ExpensePlan, UserError>(
            UserError::Time,
        ),
        valid_unix_seconds(p.begin_charging_at as int) && p.installments == 0 ==> r == Err::<
            ExpensePlan,
            UserError,
        >(UserError::InvalidInstallments),
        valid_unix_seconds(p.begin_charging_at as int) && p.installments >= 1 ==> (r is Ok
            <==> schedule_fits(p.begin_charging_at as int, p.installments as int)),
        r matches Err(e) ==> e == UserError::Time || e == UserError::InvalidInstallments,
        r matches Ok(plan) ==> {
            &&& plan.expense.created_by == p.created_by
            &&& plan.expense.amount_cents == p.amount_cents
            &&& plan.expense.description == p.description
            &&& plan.expense.chargee_user_id == p.chargee_user_id
            &&& plan.expense.charged_user_id == p.charged_user_id
            &&& plan.expense.begin_charging_at@ == p.begin_charging_at as int
            &&& plan.expense.charge_method == p.charge_method
            &&& is_schedule(
                plan.schedule@,
                p.amount_cents as int,
                p.installments as int,
                p.begin_charging_at as int,
            )
        },
{
    let begin = match Timestamp::from_unix_timestamp(p.begin_charging_at) {
        Some(t) => t,
        None => return Err(UserError::Time),
    };
    if p.installments == 0 {
        return Err(UserError::InvalidInstallments);
    }
    let schedule = match schedule_installments(p.amount_cents, p.installments, begin) {
        Some(s) => s,
        None => return Err(UserError::Time),
    };
    let expense = NewExpense {
        created_by: p.created_by,
        amount_cents: p.amount_cents,
        description: p.description,
        chargee_user_id: p.chargee_user_id,
        charged_user_id: p.charged_user_id,
        begin_charging_at: begin,
        charge_method: p.charge_method,
    };
    Ok(ExpensePlan { expense, schedule })
}

} // verus!
