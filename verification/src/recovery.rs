//! From the state of a loan to a risk score, and from the score and the
//! repayment history to the action to take.

use crate::models::{Loan, LoanModel, LoanStatus, RiskScorable, HIGH_RISK_BITS, LOW_RISK_BITS};
use crate::number::Binary64;
use vstd::prelude::*;

verus! {

/// A score above this calls for escalation: the binary64 number nearest to
/// seven tenths.
pub const ESCALATION_THRESHOLD_BITS: u64 = 0x3FE6_6666_6666_6666;

/// A score above this calls for renegotiation: the binary64 number nearest to
/// two fifths.
pub const RENEGOTIATION_THRESHOLD_BITS: u64 = 0x3FD9_9999_9999_999A;

/// What to do about a loan.
#[derive(Debug, Clone, Copy, PartialEq, Eq, Structural)]
pub enum RecoveryAction {
    SendReminder,
    RenegotiateTerms,
    EscalateToCollection,
}

impl RecoveryAction {
    /// The name of the action as it is shown.
    pub open spec fn spec_name(self) -> Seq<char> {
        match self {
            RecoveryAction::SendReminder => "SendReminder"@,
            RecoveryAction::RenegotiateTerms => "RenegotiateTerms"@,
            RecoveryAction::EscalateToCollection => "EscalateToCollection"@,
        }
    }

    /// The name of the action as it is shown.
    pub fn name(&self) -> (name: String)
        ensures
            name@ == self.spec_name(),
    {
        match self {
            RecoveryAction::SendReminder => String::from_str("SendReminder"),
            RecoveryAction::RenegotiateTerms => String::from_str("RenegotiateTerms"),
            RecoveryAction::EscalateToCollection => String::from_str("EscalateToCollection"),
        }
    }
}

/// The action for a risk score and a number of missed payments.  The rules
/// are tried in order and the first that applies decides:
/// escalate when the score is above the escalation threshold or more than two
/// payments were missed; renegotiate when the score is above the
/// renegotiation threshold or any payment was missed; otherwise remind.
pub open spec fn recommended_action(risk_score: Binary64, missed_payments: int) -> RecoveryAction {
    if risk_score.exceeds(&Binary64 { bits: ESCALATION_THRESHOLD_BITS }) || missed_payments > 2 {
        RecoveryAction::EscalateToCollection
    } else if risk_score.exceeds(&Binary64 { bits: RENEGOTIATION_THRESHOLD_BITS })
        || missed_payments > 0 {
        RecoveryAction::RenegotiateTerms
    } else {
        RecoveryAction::SendReminder
    }
}

/// Scores loans and recommends recovery actions.  It keeps no state.
pub struct RecoveryEngine;

impl RecoveryEngine {
    /// The risk that the loan defaults.
    pub fn predict_default(&self, loan: &Loan) -> (score: Binary64)
        ensures
            score == loan@.risk_score(),
    {
        loan.calculate_risk_score()
    }

    /// The action to take for a risk score and a count of missed payments.
    pub fn recommend_action(&self, risk_score: Binary64, repayment_history: usize) -> (action:
        RecoveryAction)
        ensures
            action == recommended_action(risk_score, repayment_history as int),
    {
        let escalation = Binary64 { bits: ESCALATION_THRESHOLD_BITS };
        let renegotiation = Binary64 { bits: RENEGOTIATION_THRESHOLD_BITS };
        if risk_score.is_greater_than(&escalation) || repayment_history > 2 {
            RecoveryAction::EscalateToCollection
        } else if risk_score.is_greater_than(&renegotiation) || repayment_history > 0 {
            RecoveryAction::RenegotiateTerms
        } else {
            RecoveryAction::SendReminder
        }
    }
}

/// The risk score takes exactly two values: the high one for a loan that is
/// overdue and the low one for a loan in any other status.
pub proof fn risk_score_law(loan: LoanModel)
    ensures
        loan.status == LoanStatus::Overdue ==> loan.risk_score().bits == HIGH_RISK_BITS,
        loan.status != LoanStatus::Overdue ==> loan.risk_score().bits == LOW_RISK_BITS,
{
}

/// More than two missed payments escalate whatever the score is, and a
/// missed payment rules out a mere reminder.
pub proof fn history_law(risk_score: Binary64, missed_payments: int)
    ensures
        missed_payments > 2 ==> recommended_action(risk_score, missed_payments)
            == RecoveryAction::EscalateToCollection,
        missed_payments > 0 ==> recommended_action(risk_score, missed_payments)
            != RecoveryAction::SendReminder,
{
}

/// With no missed payment on record, an overdue loan is escalated and every
/// other loan gets a reminder.
pub proof fn recommendation_for_loan(loan: LoanModel)
    ensures
        recommended_action(loan.risk_score(), 0) == if loan.status == LoanStatus::Overdue {
            RecoveryAction::EscalateToCollection
        } else {
            RecoveryAction::SendReminder
        },
{
}

} // verus!
