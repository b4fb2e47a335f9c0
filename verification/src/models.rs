//! The entities of the lending domain: users, loans and their statuses.

use crate::clock::Timestamp;
use crate::number::Binary64;
use crate::text::same_text;
use vstd::prelude::*;

verus! {

/// The risk score of a loan that is overdue: the binary64 number nearest to
/// four fifths.
pub const HIGH_RISK_BITS: u64 = 0x3FE9_9999_9999_999A;

/// The risk score of every other loan: the binary64 number nearest to one
/// fifth.
pub const LOW_RISK_BITS: u64 = 0x3FC9_9999_9999_999A;

/// The side of a loan that a user stands on.
#[derive(Debug, Clone, Copy, PartialEq, Eq, Structural)]
pub enum UserRole {
    Borrower,
    Lender,
}

impl UserRole {
    /// The name under which the role is stored.
    pub open spec fn spec_name(self) -> Seq<char> {
        match self {
            UserRole::Borrower => "Borrower"@,
            UserRole::Lender => "Lender"@,
        }
    }

    /// The role stored under `name`, if there is one.
    pub open spec fn spec_from_name(name: Seq<char>) -> Option<UserRole> {
        if name == "Borrower"@ {
            Some(UserRole::Borrower)
        } else if name == "Lender"@ {
            Some(UserRole::Lender)
        } else {
            None
        }
    }

    /// The name under which the role is stored.
    pub fn name(&self) -> (name: String)
        ensures
            name@ == self.spec_name(),
    {
        match self {
            UserRole::Borrower => String::from_str("Borrower"),
            UserRole::Lender => String::from_str("Lender"),
        }
    }

    /// Reads a stored role name.  Names are matched exactly.
    pub fn from_name(name: &str) -> (role: Option<UserRole>)
        ensures
            role == UserRole::spec_from_name(name@),
    {
        if same_text(name, "Borrower") {
            Some(UserRole::Borrower)
        } else if same_text(name, "Lender") {
            Some(UserRole::Lender)
        } else {
            None
        }
    }

    /// Every role is read back from its own name.
    pub proof fn name_round_trip(self)
        ensures
            UserRole::spec_from_name(self.spec_name()) == Some(self),
    {
        reveal_strlit("Borrower");
        reveal_strlit("Lender");
        assert("Borrower"@.len() != "Lender"@.len());
    }
}

/// A registered user.
#[derive(Debug, Clone)]
pub struct User {
    pub id: u128,
    pub name: String,
    pub role: UserRole,
}

/// The mathematical content of a `User`.
pub struct UserModel {
    pub id: u128,
    pub name: Seq<char>,
    pub role: UserRole,
}

impl View for User {
    type V = UserModel;

    open spec fn view(&self) -> UserModel {
        UserModel { id: self.id, name: self.name@, role: self.role }
    }
}

/// Where a loan stands in its life.
#[derive(Debug, Clone, Copy, PartialEq, Eq, Structural)]
pub enum LoanStatus {
    Active,
    Overdue,
    Defaulted,
    Repaid,
}

impl LoanStatus {
    /// The name under which the status is stored.
    pub open spec fn spec_name(self) -> Seq<char> {
        match self {
            LoanStatus::Active => "Active"@,
            LoanStatus::Overdue => "Overdue"@,
            LoanStatus::Defaulted => "Defaulted"@,
            LoanStatus::Repaid => "Repaid"@,
        }
    }

    /// The status stored under `name`, if there is one.
    pub open spec fn spec_from_name(name: Seq<char>) -> Option<LoanStatus> {
        if name == "Active"@ {
            Some(LoanStatus::Active)
        } else if name == "Overdue"@ {
            Some(LoanStatus::Overdue)
        } else if name == "Defaulted"@ {
            Some(LoanStatus::Defaulted)
        } else if name == "Repaid"@ {
            Some(LoanStatus::Repaid)
        } else {
            None
        }
    }

    /// The name under which the status is stored.
    pub fn name(&self) -> (name: String)
        ensures
            name@ == self.spec_name(),
    {
        match self {
            LoanStatus::Active => String::from_str("Active"),
            LoanStatus::Overdue => String::from_str("Overdue"),
            LoanStatus::Defaulted => String::from_str("Defaulted"),
            LoanStatus::Repaid => String::from_str("Repaid"),
        }
    }

    /// Reads a stored status name.  Names are matched exactly.
    pub fn from_name(name: &str) -> (status: Option<LoanStatus>)
        ensures
            status == LoanStatus::spec_from_name(name@),
    {
        if same_text(name, "Active") {
            Some(LoanStatus::Active)
        } else if same_text(name, "Overdue") {
            Some(LoanStatus::Overdue)
        } else if same_text(name, "Defaulted") {
            Some(LoanStatus::Defaulted)
        } else if same_text(name, "Repaid") {
            Some(LoanStatus::Repaid)
        } else {
            None
        }
    }

    /// Every status is read back from its own name.
    pub proof fn name_round_trip(self)
        ensures
            LoanStatus::spec_from_name(self.spec_name()) == Some(self),
    {
        reveal_strlit("Active");
        reveal_strlit("Overdue");
        reveal_strlit("Defaulted");
        reveal_strlit("Repaid");
        assert("Overdue"@.len() == 7);
        assert("Defaulted"@.len() == 9);
        assert("Repaid"@.len() == 6 && "Repaid"@[0] == 'R');
    }
}

/// One lending agreement.
#[derive(Debug, Clone)]
pub struct Loan {
    pub id: u128,
    pub borrower_id: u128,
    pub lender_id: u128,
    pub principal: Binary64,
    /// Annual interest rate in percent.
    pub interest_rate: Binary64,
    pub disbursement_date: Timestamp,
    /// The due date of each installment, in order.
    pub repayment_schedule: Vec<Timestamp>,
    pub start_date: Timestamp,
    pub last_repayment_date: Option<Timestamp>,
    pub status: LoanStatus,
}

/// The mathematical content of a `Loan`.
pub struct LoanModel {
    pub id: u128,
    pub borrower_id: u128,
    pub lender_id: u128,
    pub principal: Binary64,
    pub interest_rate: Binary64,
    pub disbursement_date: Timestamp,
    pub repayment_schedule: Seq<Timestamp>,
    pub start_date: Timestamp,
    pub last_repayment_date: Option<Timestamp>,
    pub status: LoanStatus,
}

impl View for Loan {
    type V = LoanModel;

    open spec fn view(&self) -> LoanModel {
        LoanModel {
            id: self.id,
            borrower_id: self.borrower_id,
            lender_id: self.lender_id,
            principal: self.principal,
            interest_rate: self.interest_rate,
            disbursement_date: self.disbursement_date,
            repayment_schedule: self.repayment_schedule@,
            start_date: self.start_date,
            last_repayment_date: self.last_repayment_date,
            status: self.status,
        }
    }
}

impl LoanModel {
    /// Whether the loan has at least one installment.
    pub open spec fn has_installments(self) -> bool {
        self.repayment_schedule.len() >= 1
    }

    /// Whether every instant that the loan records is representable.
    pub open spec fn wf(self) -> bool {
        &&& self.disbursement_date.wf()
        &&& self.start_date.wf()
        &&& (self.last_repayment_date matches Some(t) ==> t.wf())
        &&& forall|k: int|
            0 <= k < self.repayment_schedule.len() ==> (#[trigger] self.repayment_schedule[k]).wf()
    }

    /// The default risk of the loan: high while it is overdue, low otherwise.
    pub open spec fn risk_score(self) -> Binary64 {
        if self.status == LoanStatus::Overdue {
            Binary64 { bits: HIGH_RISK_BITS }
        } else {
            Binary64 { bits: LOW_RISK_BITS }
        }
    }
}

/// Something whose risk of default can be scored.
pub trait RiskScorable {
    /// A score between zero and one; higher means riskier.
    fn calculate_risk_score(&self) -> Binary64;
}

impl RiskScorable for Loan {
    fn calculate_risk_score(&self) -> (score: Binary64)
        ensures
            score == self@.risk_score(),
    {
        match self.status {
            LoanStatus::Overdue => Binary64 { bits: HIGH_RISK_BITS },
            _ => Binary64 { bits: LOW_RISK_BITS },
        }
    }
}

} // verus!
