use splitwiser::enums::UserExpensesChargeMethod;
use splitwiser::expense_write::{ExpenseWrite, WriteAction, WriteEvent, WriteState};
use splitwiser::ids::UserExpenseId;
use splitwiser::installments::{schedule_installments, INSTALLMENT_SPACING_SECONDS};
use splitwiser::instant::{Timestamp, MAX_UNIX_SECONDS, MIN_UNIX_SECONDS};
use splitwiser::user::{
    prepare_expense, prepare_payment, prepare_revenue, CreateExpenseParams, CreatePaymentParams,
    CreateRevenueParams, StatusCategory, UserError,
};

fn now() -> i64 {
    time::OffsetDateTime::now_utc().unix_timestamp()
}

fn expense_params(amount_cents: i64, installments: u32, begin: i64) -> CreateExpenseParams {
    CreateExpenseParams {
        amount_cents,
        begin_charging_at: begin,
        created_by: 1,
        charged_user_id: 2,
        chargee_user_id: 1,
        charge_method: UserExpensesChargeMethod::Even,
        description: None,
        installments,
    }
}

#[test]
fn installments_are_created_correctly() {
    let begin_charging_at = now();
    let amount_cents = 100;
    let installments = 4;

    let res = prepare_expense(expense_params(amount_cents, installments, begin_charging_at));
    assert!(res.is_ok());

    let plan = res.unwrap();
    let installments_from_plan = plan.schedule;
    assert_eq!(installments_from_plan.len(), installments as usize);

    let begin = time::OffsetDateTime::from_unix_timestamp(begin_charging_at).unwrap();
    for (i, installment) in installments_from_plan.iter().enumerate() {
        let charged_at =
            time::OffsetDateTime::from_unix_timestamp(installment.charged_at.unix_timestamp())
                .unwrap();
        let expected = begin + time::Duration::weeks(4 * (i as i64));
        assert_eq!(charged_at.year(), expected.year());
        assert_eq!(charged_at.month(), expected.month());
        assert_eq!(charged_at.day(), expected.day());
        assert_eq!(installment.amount_cents, amount_cents / (installments as i64));
    }
}

#[test]
fn user_expenses_happy_path() {
    let res = prepare_expense(expense_params(1, 1, now()));
    assert!(res.is_ok());
}

#[test]
fn user_payments_happy_path() {
    let res = prepare_payment(CreatePaymentParams {
        created_by: 1,
        amount_cents: 1,
        payee_user_id: 1,
        payer_user_id: 2,
        payed_at: now(),
    });
    assert!(res.is_ok());
}

#[test]
fn installment_schedule_drops_the_remainder() {
    let begin = Timestamp::from_unix_timestamp(0).unwrap();
    let schedule = schedule_installments(100, 3, begin).unwrap();
    assert_eq!(schedule.len(), 3);
    assert!(schedule.iter().all(|s| s.amount_cents == 33));
    let sum: i64 = schedule.iter().map(|s| s.amount_cents).sum();
    assert_eq!(sum, 99);
    assert_eq!(schedule[2].charged_at.unix_timestamp(), 2 * 2419200);
    assert_eq!(INSTALLMENT_SPACING_SECONDS, 4 * 7 * 24 * 60 * 60);
}

#[test]
fn installment_amount_of_a_small_total_is_zero() {
    let begin = Timestamp::from_unix_timestamp(0).unwrap();
    let schedule = schedule_installments(1, 4, begin).unwrap();
    assert!(schedule.iter().all(|s| s.amount_cents == 0));
    let schedule = schedule_installments(-7, 2, begin).unwrap();
    assert!(schedule.iter().all(|s| s.amount_cents == -3));
}

#[test]
fn amounts_are_left_to_storage() {
    assert!(prepare_expense(expense_params(0, 1, now())).is_ok());
    assert!(prepare_expense(expense_params(-1, 1, now())).is_ok());
    assert!(prepare_revenue(CreateRevenueParams {
        user_id: 1,
        amount_cents: -1,
        description: None,
        incoming_at: now(),
    })
    .is_ok());
}

#[test]
fn schedule_past_the_last_instant_is_a_time_error() {
    let begin = MAX_UNIX_SECONDS - INSTALLMENT_SPACING_SECONDS;
    assert!(prepare_expense(expense_params(100, 2, begin)).is_ok());
    assert_eq!(
        prepare_expense(expense_params(100, 3, begin)).err(),
        Some(UserError::Time)
    );
    assert_eq!(
        prepare_expense(expense_params(100, 1, MAX_UNIX_SECONDS + 1)).err(),
        Some(UserError::Time)
    );
}

#[test]
fn zero_installments_is_invalid() {
    let err = prepare_expense(expense_params(100, 0, now())).err();
    assert_eq!(err, Some(UserError::InvalidInstallments));
    assert_eq!(
        UserError::InvalidInstallments.status_category(),
        StatusCategory::InvalidArgument
    );
    assert_eq!(UserError::Time.status_category(), StatusCategory::OutOfRange);
    assert_eq!(UserError::Database.status_category(), StatusCategory::Internal);
}

#[test]
fn timestamps_outside_the_representable_range_are_rejected() {
    assert!(Timestamp::from_unix_timestamp(MIN_UNIX_SECONDS).is_some());
    assert!(Timestamp::from_unix_timestamp(MAX_UNIX_SECONDS).is_some());
    assert!(Timestamp::from_unix_timestamp(MIN_UNIX_SECONDS - 1).is_none());
    assert!(Timestamp::from_unix_timestamp(MAX_UNIX_SECONDS + 1).is_none());
    let res = prepare_revenue(CreateRevenueParams {
        user_id: 1,
        amount_cents: 69,
        description: Some(String::from("salary")),
        incoming_at: i64::MIN,
    });
    assert_eq!(res.err().map(|e| e.status_category()), Some(StatusCategory::OutOfRange));
    let t = Timestamp::from_unix_timestamp(10).unwrap();
    assert_eq!(t.checked_add_seconds(-10).unwrap().unix_timestamp(), 0);
    assert!(t.checked_add_seconds(i64::MAX).is_none());
}

#[test]
fn expense_write_commits_after_both_inserts() {
    let plan = prepare_expense(expense_params(100, 4, 0)).unwrap();
    let mut write = ExpenseWrite::new(plan.schedule);
    assert_eq!(write.state(), WriteState::ExpensePending);

    let id = UserExpenseId(7);
    match write.on_event(WriteEvent::ExpenseInserted(id)) {
        WriteAction::InsertInstallments(rows) => {
            assert_eq!(rows.len(), 4);
            for (i, row) in rows.iter().enumerate() {
                assert_eq!(row.user_expense_id, id);
                assert_eq!(row.amount_cents, 25);
                assert_eq!(row.charged_at.unix_timestamp(), 2419200 * i as i64);
            }
        }
        _ => panic!("expected the installment insert"),
    }
    assert!(matches!(
        write.on_event(WriteEvent::InstallmentsInserted),
        WriteAction::Commit(UserExpenseId(7))
    ));
    assert_eq!(write.state(), WriteState::Committed(id));
    assert!(matches!(write.on_event(WriteEvent::Failed), WriteAction::Idle));
    assert_eq!(write.state(), WriteState::Committed(id));
}

#[test]
fn expense_write_rolls_back_when_installments_fail() {
    let plan = prepare_expense(expense_params(100, 4, 0)).unwrap();
    let mut write = ExpenseWrite::new(plan.schedule);
    assert!(matches!(
        write.on_event(WriteEvent::ExpenseInserted(UserExpenseId(3))),
        WriteAction::InsertInstallments(_)
    ));
    assert!(matches!(write.on_event(WriteEvent::Failed), WriteAction::Rollback));
    assert_eq!(write.state(), WriteState::RolledBack);
    assert!(matches!(
        write.on_event(WriteEvent::InstallmentsInserted),
        WriteAction::Idle
    ));
    assert_eq!(write.state(), WriteState::RolledBack);
}

#[test]
fn expense_write_rolls_back_when_expense_fails() {
    let mut write = ExpenseWrite::new(Vec::new());
    assert!(matches!(write.on_event(WriteEvent::Failed), WriteAction::Rollback));
    assert_eq!(write.state(), WriteState::RolledBack);
}

#[test]
fn expense_write_rolls_back_on_events_out_of_order() {
    let mut write = ExpenseWrite::new(Vec::new());
    assert!(matches!(
        write.on_event(WriteEvent::InstallmentsInserted),
        WriteAction::Rollback
    ));
    assert_eq!(write.state(), WriteState::RolledBack);
}
