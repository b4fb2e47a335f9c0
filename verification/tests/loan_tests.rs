use chrono::{DateTime, Duration, Utc};
use smart_loan_recovery::clock::{Timestamp, MAX_SECS};
use smart_loan_recovery::error::AppError;
use smart_loan_recovery::loan::{LoanTracker, DAYS_PER_INSTALLMENT, MAX_INSTALLMENTS};
use smart_loan_recovery::models::{Loan, LoanStatus};
use smart_loan_recovery::number::Binary64;

const THIRTY_DAYS: i64 = 2_592_000;

fn amount(value: f64) -> Binary64 {
    Binary64::from_bits(value.to_bits())
}

fn opened_at() -> Timestamp {
    Timestamp { secs: 1_700_000_000, nanos: 250 }
}

fn open(months: i64) -> Result<Loan, AppError> {
    Loan::open(7, 8, 9, amount(10000.0), amount(5.5), months, opened_at())
}

fn with_status(mut loan: Loan, status: LoanStatus) -> Loan {
    loan.status = status;
    loan
}

fn clock_reading() -> Timestamp {
    let now = Utc::now();
    Timestamp { secs: now.timestamp(), nanos: now.timestamp_subsec_nanos() }
}

#[test]
fn a_new_loan_has_one_installment_per_month_thirty_days_apart() {
    let loan = open(12).unwrap();
    assert_eq!(loan.repayment_schedule.len(), 12);
    for k in 0..12 {
        assert_eq!(
            loan.repayment_schedule[k],
            Timestamp { secs: 1_700_000_000 + THIRTY_DAYS * (k as i64 + 1), nanos: 250 }
        );
    }
    for k in 1..12 {
        assert!(loan.repayment_schedule[k].after(&loan.repayment_schedule[k - 1]));
    }
    assert!(loan.repayment_schedule[0].after(&loan.disbursement_date));
    assert_eq!(loan.repayment_schedule[11].secs, 1_731_104_000);
}

#[test]
fn the_schedule_is_the_one_that_chrono_computes() {
    let start: DateTime<Utc> = DateTime::from_timestamp(1_700_000_000, 250).unwrap();
    let loan = open(24).unwrap();
    for m in 1..=24i64 {
        let due = start + Duration::days(30 * m);
        let entry = loan.repayment_schedule[(m - 1) as usize];
        assert_eq!(entry.secs, due.timestamp());
        assert_eq!(entry.nanos, due.timestamp_subsec_nanos());
    }
}

#[test]
fn a_new_loan_is_active_and_has_no_repayment() {
    let loan = open(3).unwrap();
    assert_eq!(loan.status, LoanStatus::Active);
    assert_eq!(loan.last_repayment_date, None);
    assert_eq!(loan.disbursement_date, opened_at());
    assert_eq!(loan.start_date, opened_at());
    assert_eq!(loan.id, 7);
    assert_eq!(loan.borrower_id, 8);
    assert_eq!(loan.lender_id, 9);
    assert_eq!(f64::from_bits(loan.principal.to_bits()), 10000.0);
    assert_eq!(f64::from_bits(loan.interest_rate.to_bits()), 5.5);
    assert!(loan.has_installments());
    assert!(loan.is_wellformed());
}

#[test]
fn a_single_month_gives_a_single_installment() {
    let loan = open(1).unwrap();
    assert_eq!(
        loan.repayment_schedule,
        vec![Timestamp { secs: 1_700_000_000 + THIRTY_DAYS, nanos: 250 }]
    );
}

#[test]
fn a_duration_that_is_not_positive_is_invalid_input() {
    for months in [0, -1, -12, i64::MIN] {
        match open(months) {
            Err(AppError::InvalidInput(message)) => {
                assert_eq!(message, "Loan duration must be at least one month");
            }
            other => panic!("expected invalid input, got {:?}", other),
        }
    }
}

#[test]
fn a_duration_beyond_the_calendar_is_invalid_input() {
    for months in [MAX_INSTALLMENTS, MAX_INSTALLMENTS + 1, i64::MAX] {
        match open(months) {
            Err(AppError::InvalidInput(message)) => {
                assert_eq!(message, "Loan duration exceeds the supported range of dates");
            }
            other => panic!("expected invalid input, got {:?}", other),
        }
    }
}

#[test]
fn the_longest_duration_ends_within_the_calendar() {
    let longest = (MAX_SECS - 1_700_000_000) / THIRTY_DAYS;
    let start: DateTime<Utc> = DateTime::from_timestamp(1_700_000_000, 250).unwrap();
    assert!(start.checked_add_signed(Duration::days(30 * longest)).is_some());
    assert!(start.checked_add_signed(Duration::days(30 * (longest + 1))).is_none());
    assert!(open(longest + 1).is_err());
    assert_eq!(DAYS_PER_INSTALLMENT, 30);
}

#[test]
fn a_loan_opened_inside_a_leap_second_follows_chrono() {
    let leap = Timestamp { secs: 1_483_228_799, nanos: 1_250_000_000 };
    let start: DateTime<Utc> = DateTime::from_timestamp(leap.secs, leap.nanos).unwrap();
    let loan = Loan::open(1, 2, 3, amount(1.0), amount(1.0), 2, leap).unwrap();
    for m in 1..=2i64 {
        let due = start + Duration::days(30 * m);
        let entry = loan.repayment_schedule[(m - 1) as usize];
        assert_eq!(entry.secs, due.timestamp());
        assert_eq!(entry.nanos, due.timestamp_subsec_nanos());
    }
}

#[test]
fn a_repayment_before_the_last_due_date_makes_the_loan_active() {
    let before_end = Timestamp { secs: 1_700_000_000 + THIRTY_DAYS * 2, nanos: 0 };
    for status in
        [LoanStatus::Active, LoanStatus::Overdue, LoanStatus::Defaulted, LoanStatus::Repaid]
    {
        let mut loan = with_status(open(3).unwrap(), status);
        loan.record_repayment(before_end);
        assert_eq!(loan.status, LoanStatus::Active);
        assert_eq!(loan.last_repayment_date, Some(before_end));
    }
}

#[test]
fn a_repayment_after_the_last_due_date_makes_the_loan_repaid() {
    let after_end = Timestamp { secs: 1_700_000_000 + THIRTY_DAYS * 3, nanos: 251 };
    for status in
        [LoanStatus::Active, LoanStatus::Overdue, LoanStatus::Defaulted, LoanStatus::Repaid]
    {
        let mut loan = with_status(open(3).unwrap(), status);
        loan.record_repayment(after_end);
        assert_eq!(loan.status, LoanStatus::Repaid);
        assert_eq!(loan.last_repayment_date, Some(after_end));
    }
}

#[test]
fn a_repayment_at_the_very_last_due_date_leaves_the_loan_active() {
    let at_end = Timestamp { secs: 1_700_000_000 + THIRTY_DAYS * 3, nanos: 250 };
    let mut loan = with_status(open(3).unwrap(), LoanStatus::Overdue);
    loan.record_repayment(at_end);
    assert_eq!(loan.status, LoanStatus::Active);
}

#[test]
fn a_repayment_changes_nothing_but_status_and_date() {
    let mut loan = open(3).unwrap();
    let before = loan.clone();
    loan.record_repayment(Timestamp { secs: 1_700_000_001, nanos: 0 });
    assert_eq!(loan.id, before.id);
    assert_eq!(loan.borrower_id, before.borrower_id);
    assert_eq!(loan.lender_id, before.lender_id);
    assert_eq!(loan.principal, before.principal);
    assert_eq!(loan.interest_rate, before.interest_rate);
    assert_eq!(loan.disbursement_date, before.disbursement_date);
    assert_eq!(loan.start_date, before.start_date);
    assert_eq!(loan.repayment_schedule, before.repayment_schedule);
}

#[test]
fn only_an_active_loan_past_its_first_due_date_is_flagged() {
    let past_first = Timestamp { secs: 1_700_000_000 + THIRTY_DAYS, nanos: 251 };
    let mut active = open(3).unwrap();
    assert!(active.flag_if_overdue(past_first));
    assert_eq!(active.status, LoanStatus::Overdue);

    for status in [LoanStatus::Overdue, LoanStatus::Defaulted, LoanStatus::Repaid] {
        let mut loan = with_status(open(3).unwrap(), status);
        assert!(!loan.flag_if_overdue(past_first));
        assert_eq!(loan.status, status);
    }
}

#[test]
fn a_loan_is_not_flagged_until_its_first_due_date_has_passed() {
    let at_first = Timestamp { secs: 1_700_000_000 + THIRTY_DAYS, nanos: 250 };
    let mut loan = open(3).unwrap();
    assert!(!loan.flag_if_overdue(at_first));
    assert_eq!(loan.status, LoanStatus::Active);
    assert!(!loan.flag_if_overdue(opened_at()));
    assert_eq!(loan.status, LoanStatus::Active);
}

#[test]
fn flagging_looks_at_the_first_due_date_and_repayment_at_the_last() {
    let between = Timestamp { secs: 1_700_000_000 + THIRTY_DAYS * 2, nanos: 0 };
    let mut loan = open(3).unwrap();
    assert!(loan.flag_if_overdue(between));
    assert_eq!(loan.status, LoanStatus::Overdue);
    loan.record_repayment(between);
    assert_eq!(loan.status, LoanStatus::Active);
    assert!(loan.flag_if_overdue(between));
    assert_eq!(loan.status, LoanStatus::Overdue);
}

#[test]
fn a_loan_without_installments_is_left_alone_unless_active() {
    let mut loan = with_status(open(1).unwrap(), LoanStatus::Repaid);
    loan.repayment_schedule.clear();
    assert!(!loan.has_installments());
    assert!(!loan.flag_if_overdue(Timestamp { secs: MAX_SECS, nanos: 0 }));
    assert_eq!(loan.status, LoanStatus::Repaid);
}

#[test]
fn a_sweep_counts_and_flags_exactly_the_loans_that_are_due() {
    let tracker = LoanTracker::new();
    let early = Loan::open(
        1,
        2,
        3,
        amount(1.0),
        amount(1.0),
        6,
        Timestamp { secs: 1_600_000_000, nanos: 0 },
    )
    .unwrap();
    let late = Loan::open(
        4,
        5,
        6,
        amount(1.0),
        amount(1.0),
        6,
        Timestamp { secs: 1_700_000_000, nanos: 0 },
    )
    .unwrap();
    let mut loans = vec![
        early.clone(),
        late.clone(),
        with_status(early.clone(), LoanStatus::Repaid),
        with_status(early.clone(), LoanStatus::Defaulted),
        with_status(early.clone(), LoanStatus::Overdue),
        early.clone(),
    ];
    let now = Timestamp { secs: 1_650_000_000, nanos: 0 };
    assert_eq!(tracker.flag_overdues_at(&mut loans, now), 2);
    let statuses: Vec<LoanStatus> = loans.iter().map(|loan| loan.status).collect();
    assert_eq!(
        statuses,
        vec![
            LoanStatus::Overdue,
            LoanStatus::Active,
            LoanStatus::Repaid,
            LoanStatus::Defaulted,
            LoanStatus::Overdue,
            LoanStatus::Overdue,
        ]
    );
    assert_eq!(loans[0].id, 1);
    assert_eq!(loans[1].id, 4);
    assert_eq!(loans[0].repayment_schedule, early.repayment_schedule);
}

#[test]
fn a_second_sweep_at_the_same_instant_flags_nothing() {
    let tracker = LoanTracker::new();
    let mut loans = vec![open(2).unwrap(), open(5).unwrap(), open(1).unwrap()];
    let now = Timestamp { secs: 1_700_000_000 + THIRTY_DAYS + 1, nanos: 0 };
    assert_eq!(tracker.flag_overdues_at(&mut loans, now), 3);
    let after_first: Vec<LoanStatus> = loans.iter().map(|loan| loan.status).collect();
    assert_eq!(tracker.flag_overdues_at(&mut loans, now), 0);
    let after_second: Vec<LoanStatus> = loans.iter().map(|loan| loan.status).collect();
    assert_eq!(after_first, after_second);
}

#[test]
fn a_sweep_over_no_loans_flags_nothing() {
    let tracker = LoanTracker::new();
    let mut loans: Vec<Loan> = Vec::new();
    assert_eq!(tracker.flag_overdues_at(&mut loans, opened_at()), 0);
    assert_eq!(tracker.flag_overdues(&mut loans), 0);
    assert!(loans.is_empty());
}

#[test]
fn a_sweep_by_the_clock_flags_loans_whose_first_due_date_is_behind_us() {
    let tracker = LoanTracker::new();
    let old = Loan::open(
        1,
        2,
        3,
        amount(1.0),
        amount(1.0),
        2,
        Timestamp { secs: 1_000_000_000, nanos: 0 },
    )
    .unwrap();
    let fresh = tracker.create_loan(2, 3, amount(1.0), amount(1.0), 2).unwrap();
    let mut loans = vec![old, fresh];
    assert_eq!(tracker.flag_overdues(&mut loans), 1);
    assert_eq!(loans[0].status, LoanStatus::Overdue);
    assert_eq!(loans[1].status, LoanStatus::Active);
    assert_eq!(tracker.flag_overdues(&mut loans), 0);
}

#[test]
fn a_repayment_on_a_loan_that_was_not_found_is_not_found() {
    let tracker = LoanTracker::new();
    match tracker.update_repayment(None) {
        Err(AppError::NotFound(message)) => assert_eq!(message, "Loan not found"),
        other => panic!("expected not found, got {:?}", other),
    }
    match tracker.update_repayment_at(None, opened_at()) {
        Err(AppError::NotFound(message)) => assert_eq!(message, "Loan not found"),
        other => panic!("expected not found, got {:?}", other),
    }
}

#[test]
fn a_repayment_at_a_given_instant_is_recorded_on_the_loan_found() {
    let tracker = LoanTracker::new();
    let paid_at = Timestamp { secs: 1_700_000_500, nanos: 9 };
    let loan = with_status(open(3).unwrap(), LoanStatus::Overdue);
    let updated = tracker.update_repayment_at(Some(loan), paid_at).unwrap();
    assert_eq!(updated.status, LoanStatus::Active);
    assert_eq!(updated.last_repayment_date, Some(paid_at));
    assert_eq!(updated.id, 7);
}

#[test]
fn the_tracker_opens_loans_at_the_reading_of_the_clock() {
    let tracker = LoanTracker::new();
    let before = clock_reading();
    let loan = tracker.create_loan(11, 12, amount(10000.0), amount(5.5), 12).unwrap();
    let after = clock_reading();
    assert!(!before.after(&loan.disbursement_date));
    assert!(!loan.disbursement_date.after(&after));
    assert_eq!(loan.start_date, loan.disbursement_date);
    assert_eq!(loan.borrower_id, 11);
    assert_eq!(loan.lender_id, 12);
    assert_eq!(loan.repayment_schedule.len(), 12);
    for k in 0..12 {
        assert_eq!(
            loan.repayment_schedule[k],
            Timestamp {
                secs: loan.disbursement_date.secs + THIRTY_DAYS * (k as i64 + 1),
                nanos: loan.disbursement_date.nanos,
            }
        );
    }
    assert_eq!(uuid::Uuid::from_u128(loan.id).get_version(), Some(uuid::Version::Random));
    let other = tracker.create_loan(11, 12, amount(10000.0), amount(5.5), 12).unwrap();
    assert_ne!(loan.id, other.id);
}

#[test]
fn the_tracker_rejects_a_duration_that_is_not_positive() {
    let tracker = LoanTracker::new();
    for months in [0, -3] {
        match tracker.create_loan(1, 2, amount(1.0), amount(1.0), months) {
            Err(AppError::InvalidInput(message)) => {
                assert_eq!(message, "Loan duration must be at least one month");
            }
            other => panic!("expected invalid input, got {:?}", other),
        }
    }
}

#[test]
fn a_loan_is_created_then_repaid_while_its_schedule_still_runs() {
    let tracker = LoanTracker::new();
    let loan = tracker.create_loan(21, 22, amount(10000.0), amount(5.5), 12).unwrap();
    assert_eq!(loan.repayment_schedule.len(), 12);
    assert_eq!(loan.status, LoanStatus::Active);
    assert_eq!(loan.last_repayment_date, None);
    let id = loan.id;

    let before = clock_reading();
    let updated = tracker.update_repayment(Some(loan)).unwrap();
    let after = clock_reading();

    assert_eq!(updated.status, LoanStatus::Active);
    let paid_at = updated.last_repayment_date.expect("the repayment is dated");
    assert!(!before.after(&paid_at));
    assert!(!paid_at.after(&after));
    assert_eq!(updated.id, id);
    assert_eq!(updated.repayment_schedule.len(), 12);
}

#[test]
fn a_repayment_by_the_clock_on_an_exhausted_schedule_repays_the_loan() {
    let tracker = LoanTracker::new();
    let old = Loan::open(
        1,
        2,
        3,
        amount(1.0),
        amount(1.0),
        2,
        Timestamp { secs: 1_000_000_000, nanos: 0 },
    )
    .unwrap();
    let updated = tracker.update_repayment(Some(with_status(old, LoanStatus::Overdue))).unwrap();
    assert_eq!(updated.status, LoanStatus::Repaid);
}

#[test]
fn a_later_sweep_counts_only_loans_that_fell_due_since() {
    let tracker = LoanTracker::new();
    let early = Loan::open(
        1,
        2,
        3,
        amount(1.0),
        amount(1.0),
        6,
        Timestamp { secs: 1_600_000_000, nanos: 0 },
    )
    .unwrap();
    let late = open(6).unwrap();
    let mut loans = vec![early, late];
    let first_sweep = Timestamp { secs: 1_650_000_000, nanos: 0 };
    let second_sweep = Timestamp { secs: 1_750_000_000, nanos: 0 };
    assert_eq!(tracker.flag_overdues_at(&mut loans, first_sweep), 1);
    assert_eq!(loans[0].status, LoanStatus::Overdue);
    assert_eq!(loans[1].status, LoanStatus::Active);
    assert_eq!(tracker.flag_overdues_at(&mut loans, second_sweep), 1);
    assert_eq!(loans[0].status, LoanStatus::Overdue);
    assert_eq!(loans[1].status, LoanStatus::Overdue);
    assert_eq!(tracker.flag_overdues_at(&mut loans, second_sweep), 0);
}
