//! The settlement calculator: from the income and proportional-expense totals
//! of two users over a window, how much the payer still owes the payee.
//!
//! All arithmetic is exact integer arithmetic: the income share is the
//! rational `payer_income / total_income`, money amounts are truncated toward
//! zero, and the share is printed as a percentage rounded to two decimals.
use vstd::prelude::*;
use crate::instant::{Timestamp, valid_unix_seconds};

verus! {

/// A nullable `SUM` aggregate as read from storage, already narrowed to `i64`.
#[derive(Clone, Copy, Debug, PartialEq, Eq, Structural)]
pub enum Aggregate {
    /// No row matched: the sum is null.
    Empty,
    /// The sum, in cents.
    Cents(i64),
    /// The sum does not fit in an `i64`.
    OutOfRange,
}

/// Failures of a statement computation.
#[derive(Clone, Copy, Debug, PartialEq, Eq, Structural)]
pub enum StatementError {
    /// The storage layer failed or aborted the transaction.
    Database,
    /// A window bound is not a representable instant.
    Time,
    /// A monetary value does not fit in an `i64`.
    BigDecimalToI64,
    /// The combined income of the window is zero, so no share is defined.
    UndefinedShare,
}

/// The settlement of a payer towards a payee over one window.
#[derive(Debug)]
pub struct Statement {
    /// The payer's income in the window, in cents.
    pub income: i64,
    /// What the payer is responsible for: their income share of the combined
    /// proportional expenses.
    pub pays: i64,
    /// What the payer already paid in proportional expenses.
    pub paid: i64,
    /// `pays - paid`: what the payer still owes.
    pub owes: i64,
    /// The payer's income share as a percentage with two decimals.
    pub share: String,
}

/// The window of a statement, as two representable instants.
#[derive(Clone, Copy, Debug, PartialEq, Eq, Structural)]
pub struct StatementPeriod {
    pub from: Timestamp,
    pub until: Timestamp,
}

/// The value of an aggregate in cents: null counts as zero, and `None`
/// stands for a sum that does not fit in an `i64`.
pub open spec fn aggregate_value(a: Aggregate) -> Option<int> {
    match a {
        Aggregate::Empty => Some(0),
        Aggregate::Cents(v) => Some(v as int),
        Aggregate::OutOfRange => None,
    }
}

pub open spec fn fits_i64(v: int) -> bool {
    i64::MIN <= v <= i64::MAX
}

pub open spec fn abs(v: int) -> int {
    if v < 0 { -v } else { v }
}

/// Division truncated toward zero, as integer division in Rust does.
pub open spec fn trunc_div(n: int, d: int) -> int {
    if (n >= 0) == (d > 0) { abs(n) / abs(d) } else { -(abs(n) / abs(d)) }
}

/// `n / d` for `n, d >= 0`, rounded to the nearest integer, ties to even.
pub open spec fn round_half_even(n: nat, d: nat) -> nat {
    let q = n / d;
    let r = n % d;
    if 2 * r > d || (2 * r == d && q % 2 == 1) { q + 1 } else { q }
}

/// `100 * part / whole` in hundredths of a percent, rounded half to even, as a
/// magnitude.
pub open spec fn share_hundredths(part: int, whole: int) -> nat {
    round_half_even(abs(10000 * part) as nat, abs(whole) as nat)
}

pub open spec fn digit_char(d: nat) -> char {
    if d == 0 { '0' }
    else if d == 1 { '1' }
    else if d == 2 { '2' }
    else if d == 3 { '3' }
    else if d == 4 { '4' }
    else if d == 5 { '5' }
    else if d == 6 { '6' }
    else if d == 7 { '7' }
    else if d == 8 { '8' }
    else { '9' }
}

/// The decimal digits of `n`, without leading zeros.
pub open spec fn decimal(n: nat) -> Seq<char>
    decreases n,
{
    if n < 10 {
        seq![digit_char(n)]
    } else {
        decimal(n / 10).push(digit_char(n % 10))
    }
}

/// `100 * part / whole` printed with two decimals, `-` in front when the
/// rounded value is negative.
pub open spec fn percent_text(part: int, whole: int) -> Seq<char> {
    let h = share_hundredths(part, whole);
    let sign = if h > 0 && (part < 0) != (whole < 0) { seq!['-'] } else { Seq::empty() };
    sign + decimal(h / 100) + seq!['.', digit_char((h / 10) % 10), digit_char(h % 10)]
}

/// The statement for the given totals, as `(income, pays, paid, owes, share)`,
/// or the error that stops its computation.
pub open spec fn statement_outcome(
    payer_income: Aggregate,
    payee_income: Aggregate,
    paid_by_payer: Aggregate,
    paid_by_payee: Aggregate,
) -> Result<(int, int, int, int, Seq<char>), StatementError> {
    match (aggregate_value(payer_income), aggregate_value(payee_income)) {
        (Some(a), Some(b)) => {
            let total_income = a + b;
            if !fits_i64(total_income) {
                Err(StatementError::BigDecimalToI64)
            } else {
                match (aggregate_value(paid_by_payer), aggregate_value(paid_by_payee)) {
                    (Some(paid), Some(other)) => {
                        let total_expense = paid + other;
                        let pays = trunc_div(total_expense * a, total_income);
                        if !fits_i64(total_expense) {
                            Err(StatementError::BigDecimalToI64)
                        } else if total_income == 0 {
                            Err(StatementError::UndefinedShare)
                        } else if !fits_i64(pays) || !fits_i64(pays - paid) {
                            Err(StatementError::BigDecimalToI64)
                        } else {
                            Ok((a, pays, paid, pays - paid, percent_text(a, total_income)))
                        }
                    },
                    _ => Err(StatementError::BigDecimalToI64),
                }
            }
        },
        _ => Err(StatementError::BigDecimalToI64),
    }
}

/// The value of an aggregate in cents, zero for an empty one.
pub fn aggregate_cents(a: &Aggregate) -> (r: Result<i64, StatementError>)
    ensures
        match aggregate_value(*a) {
            Some(v) => r == Ok::<i64, StatementError>(v as i64),
            None => r == Err::<i64, StatementError>(StatementError::BigDecimalToI64),
        },
{
    match a {
        Aggregate::Empty => Ok(0),
        Aggregate::Cents(v) => Ok(*v),
        Aggregate::OutOfRange => Err(StatementError::BigDecimalToI64),
    }
}

fn digit_str(d: u128) -> (r: &'static str)
    requires
        d < 10,
    ensures
        r@ == seq![digit_char(d as nat)],
{
    proof {
        reveal_strlit("0");
        reveal_strlit("1");
        reveal_strlit("2");
        reveal_strlit("3");
        reveal_strlit("4");
        reveal_strlit("5");
        reveal_strlit("6");
        reveal_strlit("7");
        reveal_strlit("8");
        reveal_strlit("9");
    }
    if d == 0 { "0" }
    else if d == 1 { "1" }
    else if d == 2 { "2" }
    else if d == 3 { "3" }
    else if d == 4 { "4" }
    else if d == 5 { "5" }
    else if d == 6 { "6" }
    else if d == 7 { "7" }
    else if d == 8 { "8" }
    else { "9" }
}

fn append_decimal(s: &mut String, n: u128)
    ensures
        final(s)@ == old(s)@ + decimal(n as nat),
    decreases n,
{
    if n >= 10 {
        append_decimal(s, n / 10);
    }
    s.append(digit_str(n % 10));
    proof {
        assert(final(s)@ =~= old(s)@ + decimal(n as nat));
    }
}

/// `100 * part / whole` as a percentage with two decimals, rounded half to even.
pub fn percent_text_of(part: i64, whole: i64) -> (r: String)
    requires
        whole != 0,
    ensures
        r@ == percent_text(part as int, whole as int),
{
    let scaled: i128 = part as i128 * 10000;
    let n: u128 = if scaled < 0 { (-scaled) as u128 } else { scaled as u128 };
    let d: u128 = if whole < 0 { (-(whole as i128)) as u128 } else { whole as u128 };
    let q = n / d;
    let rem = n % d;
    let h: u128 = if 2 * rem > d || (2 * rem == d && q % 2 == 1) { q + 1 } else { q };
    proof {
        assert(n as int == abs(10000 * part));
        assert(h as nat == share_hundredths(part as int, whole as int));
    }
    let mut s = String::new();
    if h > 0 && (part < 0) != (whole < 0) {
        s.append("-");
    }
    append_decimal(&mut s, h / 100);
    s.append(".");
    s.append(digit_str((h / 10) % 10));
    s.append(digit_str(h % 10));
    proof {
        reveal_strlit("-");
        reveal_strlit(".");
        assert(s@ =~= percent_text(part as int, whole as int));
    }
    s
}

/// `n / d` truncated toward zero, for a product `n` of two `i64` values.
fn trunc_div_i128(n: i128, d: i64) -> (r: i128)
    requires
        d != 0,
        -0x4000_0000_0000_0000_0000_0000_0000_0000 <= n <= 0x4000_0000_0000_0000_0000_0000_0000_0000,
    ensures
        r as int == trunc_div(n as int, d as int),
{
    let magnitude: u128 = if n < 0 { (-n) as u128 } else { n as u128 };
    let divisor: u128 = if d < 0 { (-(d as i128)) as u128 } else { d as u128 };
    let q = magnitude / divisor;
    proof {
        assert(q <= magnitude) by (nonlinear_arith)
            requires
                q == magnitude / divisor,
                divisor >= 1,
        ;
    }
    if (n >= 0) == (d > 0) {
        q as i128
    } else {
        -(q as i128)
    }
}

/// Computes the statement of a payer towards a payee from the four totals of
/// the window: the incomes of both, the proportional expenses the payer was
/// charged (`paid_by_payer`), and those the payee was charged.
///
/// The payer's share is `payer_income / (payer_income + payee_income)`;
/// `pays` is that share of the combined expenses, truncated toward zero, and
/// `owes` is `pays - paid_by_payer`. A null total counts as zero. The result is
/// exactly `statement_outcome` of the four totals.
pub fn settle(
    payer_income: &Aggregate,
    payee_income: &Aggregate,
    paid_by_payer: &Aggregate,
    paid_by_payee: &Aggregate,
) -> (r: Result<Statement, StatementError>)
    ensures
        match r {
            Ok(st) => statement_outcome(*payer_income, *payee_income, *paid_by_payer, *paid_by_payee)
                == Ok::<(int, int, int, int, Seq<char>), StatementError>(
                (st.income as int, st.pays as int, st.paid as int, st.owes as int, st.share@)),
            Err(e) => statement_outcome(*payer_income, *payee_income, *paid_by_payer, *paid_by_payee)
                == Err::<(int, int, int, int, Seq<char>), StatementError>(e),
        },
{
    let income = match aggregate_cents(payer_income) {
        Ok(v) => v,
        Err(e) => return Err(e),
    };
    let other_income = match aggregate_cents(payee_income) {
        Ok(v) => v,
        Err(e) => return Err(e),
    };
    let total_income = match income.checked_add(other_income) {
        Some(v) => v,
        None => return Err(StatementError::BigDecimalToI64),
    };
    let paid = match aggregate_cents(paid_by_payer) {
        Ok(v) => v,
        Err(e) => return Err(e),
    };
    let other_paid = match aggregate_cents(paid_by_payee) {
        Ok(v) => v,
        Err(e) => return Err(e),
    };
    let total_expense = match paid.checked_add(other_paid) {
        Some(v) => v,
        None => return Err(StatementError::BigDecimalToI64),
    };
    if total_income == 0 {
        return Err(StatementError::UndefinedShare);
    }
    proof {
        let e = total_expense as int;
        let a = income as int;
        assert(-0x8000_0000_0000_0000 <= e <= 0x7fff_ffff_ffff_ffff);
        assert(-0x8000_0000_0000_0000 <= a <= 0x7fff_ffff_ffff_ffff);
        assert(-0x4000_0000_0000_0000_0000_0000_0000_0000 <= e * a
            <= 0x4000_0000_0000_0000_0000_0000_0000_0000) by (nonlinear_arith)
            requires
                -0x8000_0000_0000_0000 <= e <= 0x7fff_ffff_ffff_ffff,
                -0x8000_0000_0000_0000 <= a <= 0x7fff_ffff_ffff_ffff,
        ;
    }
    let product: i128 = total_expense as i128 * income as i128;
    let wide_pays = trunc_div_i128(product, total_income);
    if wide_pays < i64::MIN as i128 || wide_pays > i64::MAX as i128 {
        return Err(StatementError::BigDecimalToI64);
    }
    let pays = wide_pays as i64;
    let owes = match pays.checked_sub(paid) {
        Some(v) => v,
        None => return Err(StatementError::BigDecimalToI64),
    };
    let share = percent_text_of(income, total_income);
    Ok(Statement { income, pays, paid, owes, share })
}

/// Converts the external bounds of a statement window into instants.
/// Fails with `Time` when a bound exceeds `i64::MAX` or is not representable.
pub fn statement_period(from_timestamp: u64, to_timestamp: u64) -> (r: Result<
    StatementPeriod,
    StatementError,
>)
    ensures
        r is Ok <==> (valid_unix_seconds(from_timestamp as int) && valid_unix_seconds(
            to_timestamp as int,
        )),
        r matches Ok(p) ==> p.from@ == from_timestamp as int && p.until@ == to_timestamp as int,
        r matches Err(e) ==> e == StatementError::Time,
{
    if from_timestamp > i64::MAX as u64 || to_timestamp > i64::MAX as u64 {
        return Err(StatementError::Time);
    }
    let from = match Timestamp::from_unix_timestamp(from_timestamp as i64) {
        Some(t) => t,
        None => return Err(StatementError::Time),
    };
    let until = match Timestamp::from_unix_timestamp(to_timestamp as i64) {
        Some(t) => t,
        None => return Err(StatementError::Time),
    };
    Ok(StatementPeriod { from, until })
}

} // verus!
