//! The installment generator: one expense of `total` cents in `count` parts,
//! each of `total / count` cents, four weeks apart.
use vstd::prelude::*;
use crate::instant::{Timestamp, valid_unix_seconds};
use crate::statement::trunc_div;

verus! {

/// Four weeks, in seconds: the spacing between two installments.
pub const INSTALLMENT_SPACING_SECONDS: i64 = 2419200;

/// The instant of installment `i` of a schedule that begins at `begin`.
pub open spec fn installment_instant(begin: int, i: int) -> int {
    begin + INSTALLMENT_SPACING_SECONDS * i
}

/// The amount of every installment: the total divided by the count,
/// truncated toward zero. The remainder is not distributed.
pub open spec fn installment_amount(total: int, count: int) -> int {
    trunc_div(total, count)
}

/// Whether every installment of the schedule is a representable instant.
pub open spec fn schedule_fits(begin: int, count: int) -> bool {
    valid_unix_seconds(installment_instant(begin, count - 1))
}

/// One planned installment, before its parent expense has an identifier.
#[derive(Clone, Copy, Debug, PartialEq, Eq, Structural)]
pub struct ScheduledInstallment {
    pub charged_at: Timestamp,
    pub amount_cents: i64,
}

/// `s` is the schedule of `total` cents in `count` installments from `begin`.
pub open spec fn is_schedule(s: Seq<ScheduledInstallment>, total: int, count: int, begin: int) -> bool {
    &&& s.len() == count
    &&& forall|i: int|
        0 <= i < count ==> (#[trigger] s[i]).charged_at@ == installment_instant(begin, i)
            && s[i].amount_cents == installment_amount(total, count)
}

/// The sum of the amounts of a schedule.
pub open spec fn scheduled_total(s: Seq<ScheduledInstallment>) -> int
    decreases s.len(),
{
    if s.len() == 0 {
        0
    } else {
        scheduled_total(s.drop_last()) + s.last().amount_cents
    }
}

/// Expands `amount_cents` into `count` installments, the `i`-th charged at
/// `begin` plus `4 * i` weeks. `None` when the last installment would fall
/// outside the representable range of instants.
pub fn schedule_installments(amount_cents: i64, count: u32, begin: Timestamp) -> (r: Option<
    Vec<ScheduledInstallment>,
>)
    requires
        count >= 1,
    ensures
        r is Some <==> schedule_fits(begin@, count as int),
        r matches Some(v) ==> is_schedule(v@, amount_cents as int, count as int, begin@),
{
    let last_offset: i64 = INSTALLMENT_SPACING_SECONDS * (count - 1) as i64;
    if begin.checked_add_seconds(last_offset).is_none() {
        return None;
    }
    let start = begin.unix_timestamp();
    let amount = amount_cents / (count as i64);
    let mut schedule: Vec<ScheduledInstallment> = Vec::new();
    let mut i: u32 = 0;
    while i < count
        invariant
            i <= count,
            schedule_fits(begin@, count as int),
            valid_unix_seconds(begin@),
            amount as int == installment_amount(amount_cents as int, count as int),
            schedule@.len() == i,
            forall|j: int|
                0 <= j < i ==> (#[trigger] schedule@[j]).charged_at@ == installment_instant(begin@, j)
                    && schedule@[j].amount_cents == installment_amount(
                    amount_cents as int,
                    count as int,
                ),
        decreases count - i,
    {
        let offset: i64 = INSTALLMENT_SPACING_SECONDS * i as i64;
        proof {
            assert(0 <= INSTALLMENT_SPACING_SECONDS * i <= INSTALLMENT_SPACING_SECONDS * (count - 1))
                by (nonlinear_arith)
                requires
                    i < count,
            ;
        }
        let charged_at = begin.checked_add_seconds(offset).unwrap();
        schedule.push(ScheduledInstallment { charged_at, amount_cents: amount });
        i = i + 1;
    }
    Some(schedule)
}

/// The installments of a schedule of a non-negative total add up to the
/// total less its remainder modulo the count: the remainder is dropped,
/// never charged twice.
pub proof fn lemma_schedule_drops_remainder(
    s: Seq<ScheduledInstallment>,
    total: int,
    count: int,
    begin: int,
)
    requires
        count >= 1,
        total >= 0,
        is_schedule(s, total, count, begin),
    ensures
        scheduled_total(s) == total - total % count,
        0 <= total - scheduled_total(s) < count,
{
    assert forall|i: int| 0 <= i < s.len() implies #[trigger] s[i].amount_cents
        == installment_amount(total, count) by {
        assert(s[i].charged_at@ == installment_instant(begin, i));
    }
    lemma_total_of_equal_amounts(s, installment_amount(total, count));
    assert(installment_amount(total, count) == total / count);
    assert(count * (total / count) == total - total % count) by (nonlinear_arith)
        requires
            count >= 1,
    ;
}

proof fn lemma_total_of_equal_amounts(s: Seq<ScheduledInstallment>, amount: int)
    requires
        forall|i: int| 0 <= i < s.len() ==> #[trigger] s[i].amount_cents == amount,
    ensures
        scheduled_total(s) == s.len() * amount,
    decreases s.len(),
{
    if s.len() > 0 {
        let rest = s.drop_last();
        assert forall|i: int| 0 <= i < rest.len() implies #[trigger] rest[i].amount_cents == amount by {
            assert(rest[i] == s[i]);
        }
        lemma_total_of_equal_amounts(rest, amount);
        assert(s.len() * amount == rest.len() * amount + amount) by (nonlinear_arith)
            requires
                s.len() == rest.len() + 1,
        ;
    }
}

} // verus!
