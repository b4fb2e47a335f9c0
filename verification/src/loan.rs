//! The life of a loan: opening it with a schedule, recording repayments and
//! flagging loans that have fallen behind.
//!
//! Every rule is stated once, over the mathematical content of a loan and an
//! explicit instant `now`.  `LoanTracker` supplies the fresh identifier and
//! the reading of the clock; storing the loans is left to the caller.

use crate::clock::{now, Timestamp, NANOS_PER_SEC};
use crate::error::{AppError, AppErrorView};
use crate::ident::{fresh_id, is_random_uuid};
use crate::models::{Loan, LoanModel, LoanStatus};
use crate::number::Binary64;
use vstd::prelude::*;

verus! {

/// The number of days between two installments: a month is taken as thirty
/// days, whatever the calendar says.
pub const DAYS_PER_INSTALLMENT: i64 = 30;

/// No schedule of more installments than this fits between the first and the
/// last representable instant.
pub const MAX_INSTALLMENTS: i64 = 6_383_051;

/// The due dates of `months` installments counted from `start`: the k-th
/// falls `30 * k` days after `start`, for k from 1 to `months`.
pub open spec fn installment_dates(start: Timestamp, months: int) -> Seq<Timestamp> {
    Seq::new(months as nat, |k: int| start.shifted_by_days(DAYS_PER_INSTALLMENT * (k + 1)))
}

/// Whether a schedule of `months` installments can be laid out from `start`:
/// there is at least one installment and the last one is representable.
pub open spec fn can_schedule(start: Timestamp, months: int) -> bool {
    months >= 1 && start.can_shift_by_days(DAYS_PER_INSTALLMENT * months)
}

/// The message that rejects a duration, given that it is rejected.
pub open spec fn rejected_duration(months: int) -> AppErrorView {
    if months < 1 {
        AppErrorView::InvalidInput("Loan duration must be at least one month"@)
    } else {
        AppErrorView::InvalidInput("Loan duration exceeds the supported range of dates"@)
    }
}

/// The loan as it stands right after it was opened at `now`.
pub open spec fn opened_loan(
    id: u128,
    borrower_id: u128,
    lender_id: u128,
    principal: Binary64,
    interest_rate: Binary64,
    months: int,
    now: Timestamp,
) -> LoanModel {
    LoanModel {
        id,
        borrower_id,
        lender_id,
        principal,
        interest_rate,
        disbursement_date: now,
        repayment_schedule: installment_dates(now, months),
        start_date: now,
        last_repayment_date: None,
        status: LoanStatus::Active,
    }
}

impl LoanModel {
    /// Whether a sweep at `now` flags the loan: it is active and its first
    /// installment was due strictly before `now`.
    pub open spec fn is_due_for_flagging(self, now: Timestamp) -> bool {
        self.status == LoanStatus::Active && now.is_after(&self.repayment_schedule.first())
    }

    /// The loan after a sweep at `now`.
    pub open spec fn flagged_at(self, now: Timestamp) -> LoanModel {
        if self.is_due_for_flagging(now) {
            LoanModel { status: LoanStatus::Overdue, ..self }
        } else {
            self
        }
    }

    /// The loan after a repayment at `now`: repaid once the last installment
    /// was due strictly before `now`, active otherwise, whatever it was before.
    pub open spec fn repaid_at(self, now: Timestamp) -> LoanModel {
        LoanModel {
            last_repayment_date: Some(now),
            status: if now.is_after(&self.repayment_schedule.last()) {
                LoanStatus::Repaid
            } else {
                LoanStatus::Active
            },
            ..self
        }
    }
}

/// The contents of a list of loans.
pub open spec fn models(loans: Seq<Loan>) -> Seq<LoanModel> {
    loans.map_values(|loan: Loan| loan@)
}

/// The loans after a sweep at `now`.
pub open spec fn swept(loans: Seq<LoanModel>, now: Timestamp) -> Seq<LoanModel> {
    loans.map_values(|loan: LoanModel| loan.flagged_at(now))
}

/// How many of the loans a sweep at `now` flags.
pub open spec fn due_count(loans: Seq<LoanModel>, now: Timestamp) -> nat
    decreases loans.len(),
{
    if loans.len() == 0 {
        0
    } else {
        due_count(loans.drop_last(), now) + if loans.last().is_due_for_flagging(now) {
            1nat
        } else {
            0nat
        }
    }
}

/// Whether a sweep may run over the loans: every active loan has a first
/// installment to look at.
pub open spec fn sweepable(loans: Seq<LoanModel>) -> bool {
    forall|i: int|
        0 <= i < loans.len() && (#[trigger] loans[i]).status == LoanStatus::Active
            ==> loans[i].has_installments()
}

impl Loan {
    /// Whether the loan has at least one installment.
    pub fn has_installments(&self) -> (r: bool)
        ensures
            r == self@.has_installments(),
    {
        self.repayment_schedule.len() >= 1
    }

    /// Whether every instant that the loan records is representable.
    pub fn is_wellformed(&self) -> (r: bool)
        ensures
            r == self@.wf(),
    {
        if !self.disbursement_date.is_wellformed() || !self.start_date.is_wellformed() {
            return false;
        }
        match &self.last_repayment_date {
            Some(t) => {
                if !t.is_wellformed() {
                    return false;
                }
            },
            None => {},
        }
        let mut k: usize = 0;
        while k < self.repayment_schedule.len()
            invariant
                k <= self.repayment_schedule@.len(),
                forall|j: int| 0 <= j < k ==> (#[trigger] self.repayment_schedule@[j]).wf(),
            decreases self.repayment_schedule@.len() - k,
        {
            if !self.repayment_schedule[k].is_wellformed() {
                assert(!self@.repayment_schedule[k as int].wf());
                return false;
            }
            k = k + 1;
        }
        true
    }

    /// Opens a loan at `now` under the given identifier.
    ///
    /// The duration is rejected when it is not positive, or when the last
    /// installment would fall after the last representable instant.
    pub fn open(
        id: u128,
        borrower_id: u128,
        lender_id: u128,
        principal: Binary64,
        interest_rate: Binary64,
        duration_months: i64,
        now: Timestamp,
    ) -> (r: Result<Loan, AppError>)
        requires
            now.wf(),
        ensures
            r is Ok == can_schedule(now, duration_months as int),
            r matches Ok(loan) ==> {
                &&& loan@ == opened_loan(
                    id,
                    borrower_id,
                    lender_id,
                    principal,
                    interest_rate,
                    duration_months as int,
                    now,
                )
                &&& loan@.wf()
                &&& loan@.status == LoanStatus::Active
                &&& loan@.last_repayment_date is None
                &&& loan@.disbursement_date == now && loan@.start_date == now
                &&& loan@.repayment_schedule.len() == duration_months
                &&& forall|k: int|
                    0 <= k < duration_months ==> #[trigger] loan@.repayment_schedule[k]
                        == now.shifted_by_days(DAYS_PER_INSTALLMENT * (k + 1))
                &&& forall|i: int, j: int|
                    #![trigger loan@.repayment_schedule[i], loan@.repayment_schedule[j]]
                    0 <= i < j < duration_months ==> loan@.repayment_schedule[j].is_after(
                        &loan@.repayment_schedule[i],
                    )
            },
            r matches Err(e) ==> e@ == rejected_duration(duration_months as int),
    {
        if duration_months < 1 {
            return Err(
                AppError::InvalidInput(
                    String::from_str("Loan duration must be at least one month"),
                ),
            );
        }
        if duration_months > MAX_INSTALLMENTS {
            return Err(
                AppError::InvalidInput(
                    String::from_str("Loan duration exceeds the supported range of dates"),
                ),
            );
        }
        if now.plus_days(DAYS_PER_INSTALLMENT * duration_months).is_none() {
            return Err(
                AppError::InvalidInput(
                    String::from_str("Loan duration exceeds the supported range of dates"),
                ),
            );
        }
        let mut schedule: Vec<Timestamp> = Vec::new();
        let mut k: i64 = 1;
        while k <= duration_months
            invariant
                1 <= k <= duration_months + 1,
                duration_months <= MAX_INSTALLMENTS,
                now.wf(),
                now.can_shift_by_days(DAYS_PER_INSTALLMENT * duration_months),
                schedule@ == installment_dates(now, k - 1),
                forall|j: int| 0 <= j < schedule@.len() ==> (#[trigger] schedule@[j]).wf(),
            decreases duration_months + 1 - k,
        {
            match now.plus_days(DAYS_PER_INSTALLMENT * k) {
                Some(due) => {
                    schedule.push(due);
                },
                None => {
                    assert(false);
                },
            }
            k = k + 1;
        }
        proof {
            schedule_law(now, duration_months as int);
        }
        Ok(
            Loan {
                id,
                borrower_id,
                lender_id,
                principal,
                interest_rate,
                disbursement_date: now,
                repayment_schedule: schedule,
                start_date: now,
                last_repayment_date: None,
                status: LoanStatus::Active,
            },
        )
    }

    /// Records a repayment made at `now`.
    pub fn record_repayment(&mut self, now: Timestamp)
        requires
            old(self)@.has_installments(),
        ensures
            final(self)@ == old(self)@.repaid_at(now),
    {
        let last: usize = self.repayment_schedule.len() - 1;
        let exhausted: bool = now.after(&self.repayment_schedule[last]);
        self.last_repayment_date = Some(now);
        self.status = if exhausted { LoanStatus::Repaid } else { LoanStatus::Active };
    }

    /// Flags the loan as overdue if a sweep at `now` finds it so, and says
    /// whether it did.
    pub fn flag_if_overdue(&mut self, now: Timestamp) -> (changed: bool)
        requires
            old(self)@.status == LoanStatus::Active ==> old(self)@.has_installments(),
        ensures
            changed == old(self)@.is_due_for_flagging(now),
            final(self)@ == old(self)@.flagged_at(now),
    {
        match self.status {
            LoanStatus::Active => {
                if now.after(&self.repayment_schedule[0]) {
                    self.status = LoanStatus::Overdue;
                    true
                } else {
                    false
                }
            },
            _ => false,
        }
    }
}

/// A schedule holds one entry for each month; the k-th entry falls `30 * k`
/// days after the start, every entry is later than the start and later than
/// the entry before it, and all of them are representable.
pub proof fn schedule_law(start: Timestamp, months: int)
    requires
        start.wf(),
        can_schedule(start, months),
    ensures
        installment_dates(start, months).len() == months,
        forall|k: int|
            0 <= k < months ==> #[trigger] installment_dates(start, months)[k]
                == start.shifted_by_days(DAYS_PER_INSTALLMENT * (k + 1)),
        forall|k: int|
            0 <= k < months ==> (#[trigger] installment_dates(start, months)[k]).is_after(&start),
        forall|k: int| 0 <= k < months ==> (#[trigger] installment_dates(start, months)[k]).wf(),
        forall|i: int, j: int|
            #![trigger installment_dates(start, months)[i], installment_dates(start, months)[j]]
            0 <= i < j < months ==> installment_dates(start, months)[j].is_after(
                &installment_dates(start, months)[i],
            ),
        !start.in_leap_second() ==> forall|k: int|
            0 <= k < months ==> #[trigger] installment_dates(start, months)[k] == (Timestamp {
                secs: (start.secs + 2_592_000 * (k + 1)) as i64,
                nanos: start.nanos,
            }),
{
}

/// A sweep marks as overdue exactly the loans that were active with a first
/// installment already due, and changes nothing else about any loan.
pub proof fn sweep_law(loans: Seq<LoanModel>, now: Timestamp)
    ensures
        swept(loans, now).len() == loans.len(),
        forall|i: int|
            0 <= i < loans.len() ==> {
                let before = #[trigger] loans[i];
                let after = swept(loans, now)[i];
                &&& after.status != before.status <==> before.status == LoanStatus::Active
                    && now.is_after(&before.repayment_schedule.first())
                &&& after.status != before.status ==> after.status == LoanStatus::Overdue
                &&& after == LoanModel { status: after.status, ..before }
            },
{
}

/// A loan that one sweep has flagged is never flagged again: a later sweep,
/// whenever it runs, leaves it as it is and does not count it.
pub proof fn flagged_loans_stay_flagged(
    loans: Seq<LoanModel>,
    first_at: Timestamp,
    second_at: Timestamp,
)
    ensures
        forall|i: int|
            0 <= i < loans.len() && (#[trigger] loans[i]).is_due_for_flagging(first_at) ==> {
                let once = swept(loans, first_at);
                &&& once[i].status == LoanStatus::Overdue
                &&& !once[i].is_due_for_flagging(second_at)
                &&& swept(once, second_at)[i] == once[i]
            },
        due_count(swept(loans, first_at), second_at) + due_count(loans, first_at) <= loans.len(),
    decreases loans.len(),
{
    if loans.len() > 0 {
        flagged_loans_stay_flagged(loans.drop_last(), first_at, second_at);
        assert(swept(loans, first_at).drop_last() =~= swept(loans.drop_last(), first_at));
    }
}

/// A second sweep changes nothing and counts nothing, provided that no first
/// installment of an active loan fell due between the two sweeps.  Sweeping
/// twice at the same instant is the plainest case.
pub proof fn second_sweep_flags_nothing(
    loans: Seq<LoanModel>,
    first_at: Timestamp,
    second_at: Timestamp,
)
    requires
        forall|i: int|
            0 <= i < loans.len() && (#[trigger] loans[i]).status == LoanStatus::Active
                && second_at.is_after(&loans[i].repayment_schedule.first()) ==> first_at.is_after(
                &loans[i].repayment_schedule.first(),
            ),
    ensures
        swept(swept(loans, first_at), second_at) == swept(loans, first_at),
        due_count(swept(loans, first_at), second_at) == 0,
    decreases loans.len(),
{
    let once = swept(loans, first_at);
    if loans.len() > 0 {
        second_sweep_flags_nothing(loans.drop_last(), first_at, second_at);
        assert(once.drop_last() =~= swept(loans.drop_last(), first_at));
    }
}

/// The count of a sweep is the number of loans that are due for flagging, and
/// so never more than there are loans.
pub proof fn due_count_law(loans: Seq<LoanModel>, now: Timestamp)
    ensures
        due_count(loans, now) == loans.filter(
            |loan: LoanModel| loan.is_due_for_flagging(now),
        ).len(),
        due_count(loans, now) <= loans.len(),
    decreases loans.len(),
{
    reveal(Seq::filter);
    if loans.len() > 0 {
        due_count_law(loans.drop_last(), now);
    }
}

/// A repayment leaves the loan active while its last installment is not yet
/// past and repaid once it is, whatever the status was before; it records
/// the instant of the repayment and changes nothing else.
pub proof fn repayment_law(loan: LoanModel, now: Timestamp)
    ensures
        !now.is_after(&loan.repayment_schedule.last()) ==> loan.repaid_at(now).status
            == LoanStatus::Active,
        now.is_after(&loan.repayment_schedule.last()) ==> loan.repaid_at(now).status
            == LoanStatus::Repaid,
        loan.repaid_at(now).last_repayment_date == Some(now),
        loan.repaid_at(now) == (LoanModel {
            status: loan.repaid_at(now).status,
            last_repayment_date: Some(now),
            ..loan
        }),
{
}

/// Neither a sweep nor a repayment touches the identity of a loan, its
/// parties, its schedule or the date it was paid out, and neither ever marks
/// a loan as defaulted.  A sweep moves no loan out of `Overdue`, `Repaid` or
/// `Defaulted`.  Both keep a loan that has installments and records only
/// representable instants that way.
pub proof fn operations_keep_identity(loan: LoanModel, now: Timestamp)
    ensures
        loan.flagged_at(now).id == loan.id && loan.repaid_at(now).id == loan.id,
        loan.flagged_at(now).borrower_id == loan.borrower_id && loan.repaid_at(now).borrower_id
            == loan.borrower_id,
        loan.flagged_at(now).lender_id == loan.lender_id && loan.repaid_at(now).lender_id
            == loan.lender_id,
        loan.flagged_at(now).repayment_schedule == loan.repayment_schedule && loan.repaid_at(
            now,
        ).repayment_schedule == loan.repayment_schedule,
        loan.flagged_at(now).disbursement_date == loan.disbursement_date && loan.repaid_at(
            now,
        ).disbursement_date == loan.disbursement_date,
        loan.repaid_at(now).status != LoanStatus::Defaulted,
        loan.flagged_at(now).status == LoanStatus::Defaulted ==> loan.status
            == LoanStatus::Defaulted,
        loan.status != LoanStatus::Active ==> loan.flagged_at(now) == loan,
        loan.has_installments() ==> loan.flagged_at(now).has_installments() && loan.repaid_at(
            now,
        ).has_installments(),
        loan.wf() ==> loan.flagged_at(now).wf(),
        loan.wf() && now.wf() ==> loan.repaid_at(now).wf(),
{
}

/// Adding one loan to a list adds one to the count exactly when that loan
/// is due for flagging.
proof fn due_count_step(loans: Seq<LoanModel>, now: Timestamp, i: int)
    requires
        0 <= i < loans.len(),
    ensures
        due_count(loans.take(i + 1), now) == due_count(loans.take(i), now) + if loans[i]
            .is_due_for_flagging(now) {
            1nat
        } else {
            0nat
        },
{
    assert(loans.take(i + 1).drop_last() =~= loans.take(i));
}

/// Opens loans, records repayments and sweeps for overdue loans, reading the
/// clock and drawing identifiers as it goes.
pub struct LoanTracker;

impl LoanTracker {
    pub fn new() -> (tracker: LoanTracker) {
        LoanTracker
    }

    /// Opens a loan now, under a fresh identifier.  The caller stores the
    /// loan that comes back; its `id` is the identifier of the new loan.
    ///
    /// A duration that is not positive is always rejected.  Any other
    /// duration is rejected only when, counted from the reading of the clock,
    /// the last installment would fall after the last representable instant.
    pub fn create_loan(
        &self,
        borrower_id: u128,
        lender_id: u128,
        principal: Binary64,
        interest_rate: Binary64,
        duration_months: i64,
    ) -> (r: Result<Loan, AppError>)
        ensures
            duration_months < 1 ==> r is Err,
            r matches Err(e) ==> e@ == rejected_duration(duration_months as int),
            r matches Ok(loan) ==> {
                let opened_at = loan@.disbursement_date;
                &&& can_schedule(opened_at, duration_months as int)
                &&& loan@ == opened_loan(
                    loan.id,
                    borrower_id,
                    lender_id,
                    principal,
                    interest_rate,
                    duration_months as int,
                    opened_at,
                )
                &&& is_random_uuid(loan.id)
                &&& opened_at.wf() && 0 <= opened_at.secs && opened_at.nanos < NANOS_PER_SEC
                &&& loan@.wf()
            },
    {
        let id: u128 = fresh_id();
        let opened_at: Timestamp = now();
        Loan::open(
            id,
            borrower_id,
            lender_id,
            principal,
            interest_rate,
            duration_months,
            opened_at,
        )
    }

    /// Records a repayment made at `now` on the loan that was looked up, and
    /// hands back the loan to store.  Fails when no loan was found.
    pub fn update_repayment_at(&self, loan: Option<Loan>, now: Timestamp) -> (r: Result<
        Loan,
        AppError,
    >)
        requires
            loan matches Some(found) ==> found@.has_installments(),
        ensures
            match loan {
                Some(found) => r matches Ok(updated) && updated@ == found@.repaid_at(now),
                None => r matches Err(e) && e@ == AppErrorView::NotFound("Loan not found"@),
            },
    {
        match loan {
            Some(found) => {
                let mut updated: Loan = found;
                updated.record_repayment(now);
                Ok(updated)
            },
            None => Err(AppError::NotFound(String::from_str("Loan not found"))),
        }
    }

    /// Records a repayment made now on the loan that was looked up.  The one
    /// reading of the clock serves both as the date of the repayment and as
    /// the instant against which the schedule is held.
    pub fn update_repayment(&self, loan: Option<Loan>) -> (r: Result<Loan, AppError>)
        requires
            loan matches Some(found) ==> found@.has_installments(),
        ensures
            match loan {
                Some(found) => r matches Ok(updated) && updated@.last_repayment_date matches Some(
                    paid_at,
                ) && updated@ == found@.repaid_at(paid_at) && paid_at.wf() && 0 <= paid_at.secs
                    && paid_at.nanos < NANOS_PER_SEC,
                None => r matches Err(e) && e@ == AppErrorView::NotFound("Loan not found"@),
            },
    {
        let paid_at: Timestamp = now();
        self.update_repayment_at(loan, paid_at)
    }

    /// Sweeps the loans at `now`: every active loan whose first installment
    /// was due before `now` becomes overdue, every other loan is left as it
    /// is.  Returns how many loans were changed.
    pub fn flag_overdues_at(&self, loans: &mut Vec<Loan>, now: Timestamp) -> (changed: usize)
        requires
            sweepable(models(old(loans)@)),
        ensures
            final(loans)@.len() == old(loans)@.len(),
            models(final(loans)@) == swept(models(old(loans)@), now),
            changed == due_count(models(old(loans)@), now),
    {
        let ghost before: Seq<LoanModel> = models(loans@);
        let mut changed: usize = 0;
        let mut i: usize = 0;
        while i < loans.len()
            invariant
                i <= loans@.len(),
                loans@.len() == before.len(),
                sweepable(before),
                forall|j: int| 0 <= j < i ==> (#[trigger] loans@[j])@ == before[j].flagged_at(now),
                forall|j: int| i <= j < loans@.len() ==> (#[trigger] loans@[j])@ == before[j],
                changed == due_count(before.take(i as int), now),
                changed <= i,
            decreases loans@.len() - i,
        {
            proof {
                due_count_step(before, now, i as int);
            }
            let flagged: bool = loans[i].flag_if_overdue(now);
            if flagged {
                changed = changed + 1;
            }
            i = i + 1;
        }
        assert(before.take(i as int) =~= before);
        changed
    }

    /// Sweeps the loans now.  The caller stores the loans that were changed.
    pub fn flag_overdues(&self, loans: &mut Vec<Loan>) -> (changed: usize)
        requires
            sweepable(models(old(loans)@)),
        ensures
            final(loans)@.len() == old(loans)@.len(),
            exists|swept_at: Timestamp|
                {
                    &&& swept_at.wf() && 0 <= swept_at.secs && swept_at.nanos < NANOS_PER_SEC
                    &&& models(final(loans)@) == #[trigger] swept(models(old(loans)@), swept_at)
                    &&& changed == due_count(models(old(loans)@), swept_at)
                },
    {
        let swept_at: Timestamp = now();
        self.flag_overdues_at(loans, swept_at)
    }
}

} // verus!
