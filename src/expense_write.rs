//! The unit of work that creates an expense: insert the expense, then insert
//! its installments under the new identifier, then commit. The caller performs
//! each insert inside one write transaction and reports how it went; any
//! failure, or any event out of order, ends the unit of work in a rollback.
use vstd::prelude::*;
use crate::ids::UserExpenseId;
use crate::installments::ScheduledInstallment;
use crate::instant::Timestamp;

verus! {

/// An installment row to insert under its parent expense.
#[derive(Clone, Copy, Debug, PartialEq, Eq, Structural)]
pub struct NewInstallment {
    pub user_expense_id: UserExpenseId,
    pub charged_at: Timestamp,
    pub amount_cents: i64,
}

#[derive(Clone, Copy, Debug, PartialEq, Eq, Structural)]
pub enum WriteState {
    /// The expense insert was issued and has not been reported yet.
    ExpensePending,
    /// The expense exists under this identifier; its installments were issued.
    InstallmentsPending(UserExpenseId),
    /// Both inserts succeeded and the transaction is to commit.
    Committed(UserExpenseId),
    /// The transaction is to roll back: nothing of it is kept.
    RolledBack,
}

#[derive(Clone, Copy, Debug, PartialEq, Eq, Structural)]
pub enum WriteEvent {
    /// The expense row was inserted under this identifier.
    ExpenseInserted(UserExpenseId),
    /// All installment rows were inserted.
    InstallmentsInserted,
    /// The last insert failed.
    Failed,
}

pub enum WriteAction {
    /// Insert these installment rows.
    InsertInstallments(Vec<NewInstallment>),
    /// Commit the transaction; the expense has this identifier.
    Commit(UserExpenseId),
    /// Roll the transaction back.
    Rollback,
    /// The unit of work is over; nothing is left to do.
    Idle,
}

/// The state that follows `s` when `e` is reported.
pub open spec fn next_state(s: WriteState, e: WriteEvent) -> WriteState {
    match s {
        WriteState::ExpensePending => match e {
            WriteEvent::ExpenseInserted(id) => WriteState::InstallmentsPending(id),
            _ => WriteState::RolledBack,
        },
        WriteState::InstallmentsPending(id) => match e {
            WriteEvent::InstallmentsInserted => WriteState::Committed(id),
            _ => WriteState::RolledBack,
        },
        WriteState::Committed(id) => WriteState::Committed(id),
        WriteState::RolledBack => WriteState::RolledBack,
    }
}

/// The state reached from `s` after the events `es`, in order.
pub open spec fn state_after(s: WriteState, es: Seq<WriteEvent>) -> WriteState
    decreases es.len(),
{
    if es.len() == 0 {
        s
    } else {
        state_after(next_state(s, es[0]), es.subrange(1, es.len() as int))
    }
}

/// `rows` are the installments of `schedule` under the expense `id`.
pub open spec fn rows_for(rows: Seq<NewInstallment>, schedule: Seq<ScheduledInstallment>, id: UserExpenseId) -> bool {
    &&& rows.len() == schedule.len()
    &&& forall|i: int|
        0 <= i < rows.len() ==> (#[trigger] rows[i]).user_expense_id == id && rows[i].charged_at
            == schedule[i].charged_at && rows[i].amount_cents == schedule[i].amount_cents
}

/// The write of one expense and its installment schedule.
pub struct ExpenseWrite {
    schedule: Vec<ScheduledInstallment>,
    state: WriteState,
}

impl ExpenseWrite {
    pub closed spec fn state_spec(&self) -> WriteState {
        self.state
    }

    pub closed spec fn schedule_spec(&self) -> Seq<ScheduledInstallment> {
        self.schedule@
    }

    /// A unit of work whose expense insert has just been issued.
    pub fn new(schedule: Vec<ScheduledInstallment>) -> (r: ExpenseWrite)
        ensures
            r.state_spec() == WriteState::ExpensePending,
            r.schedule_spec() == schedule@,
    {
        ExpenseWrite { schedule, state: WriteState::ExpensePending }
    }

    pub fn state(&self) -> (r: WriteState)
        ensures
            r == self.state_spec(),
    {
        self.state
    }

    fn installment_rows(&self, id: UserExpenseId) -> (r: Vec<NewInstallment>)
        ensures
            rows_for(r@, self.schedule@, id),
    {
        let mut rows: Vec<NewInstallment> = Vec::new();
        let mut i: usize = 0;
        while i < self.schedule.len()
            invariant
                i <= self.schedule@.len(),
                rows@.len() == i,
                forall|j: int|
                    0 <= j < i ==> (#[trigger] rows@[j]).user_expense_id == id && rows@[j].charged_at
                        == self.schedule@[j].charged_at && rows@[j].amount_cents
                        == self.schedule@[j].amount_cents,
            decreases self.schedule@.len() - i,
        {
            let s = self.schedule[i];
            rows.push(NewInstallment { user_expense_id: id, charged_at: s.charged_at, amount_cents: s.amount_cents });
            i = i + 1;
        }
        rows
    }

    /// Takes the outcome of the last action and returns the next one: the
    /// installments once the expense exists, a commit once they exist too, a
    /// rollback on a failure or an event out of order, and nothing more once
    /// the unit of work has ended.
    pub fn on_event(&mut self, event: WriteEvent) -> (r: WriteAction)
        ensures
            final(self).state_spec() == next_state(old(self).state_spec(), event),
            final(self).schedule_spec() == old(self).schedule_spec(),
            match (old(self).state_spec(), event) {
                (WriteState::ExpensePending, WriteEvent::ExpenseInserted(id)) =>
                    r matches WriteAction::InsertInstallments(rows) && rows_for(rows@, old(self).schedule_spec(), id),
                (WriteState::InstallmentsPending(id), WriteEvent::InstallmentsInserted) =>
                    r == WriteAction::Commit(id),
                (WriteState::Committed(_), _) => r is Idle,
                (WriteState::RolledBack, _) => r is Idle,
                _ => r is Rollback,
            },
    {
        match (self.state, event) {
            (WriteState::ExpensePending, WriteEvent::ExpenseInserted(id)) => {
                self.state = WriteState::InstallmentsPending(id);
                WriteAction::InsertInstallments(self.installment_rows(id))
            },
            (WriteState::InstallmentsPending(id), WriteEvent::InstallmentsInserted) => {
                self.state = WriteState::Committed(id);
                WriteAction::Commit(id)
            },
            (WriteState::Committed(_), _) => WriteAction::Idle,
            (WriteState::RolledBack, _) => WriteAction::Idle,
            _ => {
                self.state = WriteState::RolledBack;
                WriteAction::Rollback
            },
        }
    }
}

proof fn lemma_final_states_absorb(s: WriteState, es: Seq<WriteEvent>)
    requires
        s is Committed || s is RolledBack,
    ensures
        state_after(s, es) == s,
    decreases es.len(),
{
    if es.len() > 0 {
        lemma_final_states_absorb(next_state(s, es[0]), es.subrange(1, es.len() as int));
    }
}

/// Atomicity of an expense write. A unit of work ends committed only when its
/// first report is the expense insert and its second the installment insert,
/// and it commits the expense that was inserted. When the expense insert
/// fails, or the installment insert fails after the expense was inserted, it
/// ends rolled back whatever is reported afterwards, so neither the expense
/// nor any installment is kept.
pub proof fn lemma_expense_write_atomic(es: Seq<WriteEvent>)
    ensures
        state_after(WriteState::ExpensePending, es) matches WriteState::Committed(id) ==> es.len() >= 2
            && es[0] == WriteEvent::ExpenseInserted(id) && es[1] == WriteEvent::InstallmentsInserted,
        es.len() >= 1 && es[0] == WriteEvent::Failed ==> state_after(WriteState::ExpensePending, es)
            == WriteState::RolledBack,
        es.len() >= 2 && es[0] is ExpenseInserted && es[1] == WriteEvent::Failed ==> state_after(
            WriteState::ExpensePending,
            es,
        ) == WriteState::RolledBack,
{
    if es.len() == 0 {
        return;
    }
    let s1 = next_state(WriteState::ExpensePending, es[0]);
    let rest = es.subrange(1, es.len() as int);
    match es[0] {
        WriteEvent::ExpenseInserted(id) => {
            if rest.len() == 0 {
                return;
            }
            let s2 = next_state(s1, rest[0]);
            let rest2 = rest.subrange(1, rest.len() as int);
            assert(state_after(s1, rest) == state_after(s2, rest2));
            lemma_final_states_absorb(s2, rest2);
            assert(rest[0] == es[1]);
        },
        _ => {
            lemma_final_states_absorb(s1, rest);
        },
    }
}

} // verus!
