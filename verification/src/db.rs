//! The persisted shape of users and loans.
//!
//! A record is stored as one row of texts and numbers.  This module turns an
//! entity into its row and a row back into its entity, and says which column
//! is at fault when a row cannot be read.  Running the statements against the
//! database is left to the caller.

use crate::clock::{format_rfc3339, parse_rfc3339, rfc3339_instant, rfc3339_text, Timestamp};
use crate::ident::{format_id, parse_id, uuid_text, uuid_value};
use crate::models::{Loan, LoanModel, LoanStatus, User, UserModel, UserRole};
use crate::number::Binary64;
use vstd::prelude::*;

verus! {

/// What a column was expected to hold.
#[derive(Debug, Clone, Copy, PartialEq, Eq, Structural)]
pub enum ColumnType {
    Uuid,
    UserRole,
    DateTime,
    LoanStatus,
    Json,
}

impl ColumnType {
    /// The name by which the expected content is reported.
    pub open spec fn spec_name(self) -> Seq<char> {
        match self {
            ColumnType::Uuid => "UUID"@,
            ColumnType::UserRole => "UserRole"@,
            ColumnType::DateTime => "DateTime"@,
            ColumnType::LoanStatus => "LoanStatus"@,
            ColumnType::Json => "JSON"@,
        }
    }

    /// The name by which the expected content is reported.
    pub fn name(&self) -> (name: String)
        ensures
            name@ == self.spec_name(),
    {
        match self {
            ColumnType::Uuid => String::from_str("UUID"),
            ColumnType::UserRole => String::from_str("UserRole"),
            ColumnType::DateTime => String::from_str("DateTime"),
            ColumnType::LoanStatus => String::from_str("LoanStatus"),
            ColumnType::Json => String::from_str("JSON"),
        }
    }
}

/// A column whose text does not hold what it should.
#[derive(Debug, Clone, Copy, PartialEq, Eq, Structural)]
pub struct ColumnError {
    /// The position of the column in the row, counted from zero.
    pub index: usize,
    pub expected: ColumnType,
}

/// The JSON text that `serde_json` writes for a list of instants, if it
/// writes one.
pub uninterp spec fn schedule_json(entries: Seq<Timestamp>) -> Option<Seq<char>>;

/// The list of instants that `serde_json` reads from a JSON text, if it reads
/// one.
pub uninterp spec fn schedule_entries(json: Seq<char>) -> Option<Seq<Timestamp>>;

/// Writes a schedule with `serde_json::to_string`, each entry in the form
/// that `chrono` gives a `DateTime<Utc>` under `serde`.
///
/// Whether a text is produced, and which, is a function of the entries alone
/// and is only named here.
#[verifier::external_body]
fn encode_schedule(entries: &Vec<Timestamp>) -> (r: Option<String>)
    requires
        forall|k: int| 0 <= k < entries@.len() ==> (#[trigger] entries@[k]).wf(),
    ensures
        r matches Some(json) ==> schedule_json(entries@) == Some(json@),
        r is None ==> schedule_json(entries@) is None,
{
    let dates: Vec<chrono::DateTime<chrono::Utc>> = entries
        .iter()
        .map(|t| chrono::DateTime::from_timestamp(t.secs, t.nanos).unwrap())
        .collect();
    serde_json::to_string(&dates).ok()
}

/// Reads a schedule with `serde_json::from_str`, each entry in the form that
/// `chrono` accepts for a `DateTime<Utc>` under `serde`.
///
/// Whether the text is accepted, and as which entries, is a function of the
/// text alone and is only named here; every entry that was read is an instant
/// that `chrono` can represent.
#[verifier::external_body]
fn decode_schedule(json: &str) -> (r: Option<Vec<Timestamp>>)
    ensures
        r matches Some(entries) ==> schedule_entries(json@) == Some(entries@) && forall|k: int|
            0 <= k < entries@.len() ==> (#[trigger] entries@[k]).wf(),
        r is None ==> schedule_entries(json@) is None,
{
    match serde_json::from_str::<Vec<chrono::DateTime<chrono::Utc>>>(json) {
        Ok(dates) => Some(
            dates
                .iter()
                .map(|d| Timestamp { secs: d.timestamp(), nanos: d.timestamp_subsec_nanos() })
                .collect(),
        ),
        Err(_) => None,
    }
}

/// A user as stored: identifier, name and role, each as text.
#[derive(Debug, Clone)]
pub struct UserRow {
    pub id: String,
    pub name: String,
    pub role: String,
}

/// The mathematical content of a `UserRow`.
pub struct UserRowModel {
    pub id: Seq<char>,
    pub name: Seq<char>,
    pub role: Seq<char>,
}

impl View for UserRow {
    type V = UserRowModel;

    open spec fn view(&self) -> UserRowModel {
        UserRowModel { id: self.id@, name: self.name@, role: self.role@ }
    }
}

impl UserModel {
    /// The row that stores the user.
    pub open spec fn row(self) -> UserRowModel {
        UserRowModel { id: uuid_text(self.id), name: self.name, role: self.role.spec_name() }
    }
}

impl UserRowModel {
    /// The user that the row stores, or the first column that cannot be read.
    pub open spec fn user(self) -> Result<UserModel, ColumnError> {
        if uuid_value(self.id) is None {
            Err(ColumnError { index: 0, expected: ColumnType::Uuid })
        } else if UserRole::spec_from_name(self.role) is None {
            Err(ColumnError { index: 2, expected: ColumnType::UserRole })
        } else {
            Ok(
                UserModel {
                    id: uuid_value(self.id).unwrap(),
                    name: self.name,
                    role: UserRole::spec_from_name(self.role).unwrap(),
                },
            )
        }
    }
}

impl UserRow {
    /// Lays a user out as a row.
    pub fn from_user(user: &User) -> (row: UserRow)
        ensures
            row@ == user@.row(),
    {
        UserRow { id: format_id(user.id), name: user.name.clone(), role: user.role.name() }
    }

    /// Reads the user back from a row.
    pub fn to_user(&self) -> (r: Result<User, ColumnError>)
        ensures
            match r {
                Ok(user) => self@.user() == Ok::<UserModel, ColumnError>(user@),
                Err(e) => self@.user() == Err::<UserModel, ColumnError>(e),
            },
    {
        let id: u128 = match parse_id(self.id.as_str()) {
            Some(id) => id,
            None => {
                return Err(ColumnError { index: 0, expected: ColumnType::Uuid });
            },
        };
        let role: UserRole = match UserRole::from_name(self.role.as_str()) {
            Some(role) => role,
            None => {
                return Err(ColumnError { index: 2, expected: ColumnType::UserRole });
            },
        };
        Ok(User { id, name: self.name.clone(), role })
    }
}

/// A loan as stored.  Identifiers, instants and the status are texts, the
/// schedule is one JSON text, and the two amounts are numbers.
#[derive(Debug, Clone)]
pub struct LoanRow {
    pub id: String,
    pub borrower_id: String,
    pub lender_id: String,
    pub principal: Binary64,
    pub interest_rate: Binary64,
    pub disbursement_date: String,
    pub start_date: String,
    pub last_repayment_date: Option<String>,
    pub status: String,
    pub repayment_schedule: String,
}

/// The mathematical content of a `LoanRow`.
pub struct LoanRowModel {
    pub id: Seq<char>,
    pub borrower_id: Seq<char>,
    pub lender_id: Seq<char>,
    pub principal: Binary64,
    pub interest_rate: Binary64,
    pub disbursement_date: Seq<char>,
    pub start_date: Seq<char>,
    pub last_repayment_date: Option<Seq<char>>,
    pub status: Seq<char>,
    pub repayment_schedule: Seq<char>,
}

impl View for LoanRow {
    type V = LoanRowModel;

    open spec fn view(&self) -> LoanRowModel {
        LoanRowModel {
            id: self.id@,
            borrower_id: self.borrower_id@,
            lender_id: self.lender_id@,
            principal: self.principal,
            interest_rate: self.interest_rate,
            disbursement_date: self.disbursement_date@,
            start_date: self.start_date@,
            last_repayment_date: match self.last_repayment_date {
                Some(text) => Some(text@),
                None => None,
            },
            status: self.status@,
            repayment_schedule: self.repayment_schedule@,
        }
    }
}

impl LoanModel {
    /// The row that stores the loan, unless its schedule cannot be written
    /// as JSON.
    pub open spec fn row(self) -> Result<LoanRowModel, ColumnError> {
        match schedule_json(self.repayment_schedule) {
            None => Err(ColumnError { index: 0, expected: ColumnType::Json }),
            Some(json) => Ok(
                LoanRowModel {
                    id: uuid_text(self.id),
                    borrower_id: uuid_text(self.borrower_id),
                    lender_id: uuid_text(self.lender_id),
                    principal: self.principal,
                    interest_rate: self.interest_rate,
                    disbursement_date: rfc3339_text(self.disbursement_date),
                    start_date: rfc3339_text(self.start_date),
                    last_repayment_date: match self.last_repayment_date {
                        Some(t) => Some(rfc3339_text(t)),
                        None => None,
                    },
                    status: self.status.spec_name(),
                    repayment_schedule: json,
                },
            ),
        }
    }
}

impl LoanRowModel {
    /// The first column, in the order in which they are read, whose text
    /// cannot be read.
    pub open spec fn first_unreadable(self) -> Option<ColumnError> {
        if uuid_value(self.id) is None {
            Some(ColumnError { index: 0, expected: ColumnType::Uuid })
        } else if uuid_value(self.borrower_id) is None {
            Some(ColumnError { index: 1, expected: ColumnType::Uuid })
        } else if uuid_value(self.lender_id) is None {
            Some(ColumnError { index: 2, expected: ColumnType::Uuid })
        } else if rfc3339_instant(self.disbursement_date) is None {
            Some(ColumnError { index: 5, expected: ColumnType::DateTime })
        } else if rfc3339_instant(self.start_date) is None {
            Some(ColumnError { index: 6, expected: ColumnType::DateTime })
        } else if self.last_repayment_date matches Some(text) && rfc3339_instant(text) is None {
            Some(ColumnError { index: 7, expected: ColumnType::DateTime })
        } else if LoanStatus::spec_from_name(self.status) is None {
            Some(ColumnError { index: 8, expected: ColumnType::LoanStatus })
        } else if schedule_entries(self.repayment_schedule) is None {
            Some(ColumnError { index: 9, expected: ColumnType::Json })
        } else {
            None
        }
    }

    /// The loan that the row stores, or the first column that cannot be read.
    pub open spec fn loan(self) -> Result<LoanModel, ColumnError> {
        match self.first_unreadable() {
            Some(e) => Err(e),
            None => Ok(
                LoanModel {
                    id: uuid_value(self.id).unwrap(),
                    borrower_id: uuid_value(self.borrower_id).unwrap(),
                    lender_id: uuid_value(self.lender_id).unwrap(),
                    principal: self.principal,
                    interest_rate: self.interest_rate,
                    disbursement_date: rfc3339_instant(self.disbursement_date).unwrap(),
                    start_date: rfc3339_instant(self.start_date).unwrap(),
                    last_repayment_date: match self.last_repayment_date {
                        Some(text) => rfc3339_instant(text),
                        None => None,
                    },
                    status: LoanStatus::spec_from_name(self.status).unwrap(),
                    repayment_schedule: schedule_entries(self.repayment_schedule).unwrap(),
                },
            ),
        }
    }
}

impl LoanRow {
    /// Lays a loan out as a row.
    pub fn from_loan(loan: &Loan) -> (r: Result<LoanRow, ColumnError>)
        requires
            loan@.wf(),
        ensures
            match r {
                Ok(row) => loan@.row() == Ok::<LoanRowModel, ColumnError>(row@),
                Err(e) => loan@.row() == Err::<LoanRowModel, ColumnError>(e),
            },
    {
        let repayment_schedule: String = match encode_schedule(&loan.repayment_schedule) {
            Some(json) => json,
            None => {
                return Err(ColumnError { index: 0, expected: ColumnType::Json });
            },
        };
        let last_repayment_date: Option<String> = match &loan.last_repayment_date {
            Some(t) => Some(format_rfc3339(t)),
            None => None,
        };
        Ok(
            LoanRow {
                id: format_id(loan.id),
                borrower_id: format_id(loan.borrower_id),
                lender_id: format_id(loan.lender_id),
                principal: loan.principal,
                interest_rate: loan.interest_rate,
                disbursement_date: format_rfc3339(&loan.disbursement_date),
                start_date: format_rfc3339(&loan.start_date),
                last_repayment_date,
                status: loan.status.name(),
                repayment_schedule,
            },
        )
    }

    /// Reads the loan back from a row.  A loan that was read records only
    /// representable instants.
    pub fn to_loan(&self) -> (r: Result<Loan, ColumnError>)
        ensures
            match r {
                Ok(loan) => self@.loan() == Ok::<LoanModel, ColumnError>(loan@) && loan@.wf(),
                Err(e) => self@.loan() == Err::<LoanModel, ColumnError>(e),
            },
    {
        let id: u128 = match parse_id(self.id.as_str()) {
            Some(id) => id,
            None => {
                return Err(ColumnError { index: 0, expected: ColumnType::Uuid });
            },
        };
        let borrower_id: u128 = match parse_id(self.borrower_id.as_str()) {
            Some(id) => id,
            None => {
                return Err(ColumnError { index: 1, expected: ColumnType::Uuid });
            },
        };
        let lender_id: u128 = match parse_id(self.lender_id.as_str()) {
            Some(id) => id,
            None => {
                return Err(ColumnError { index: 2, expected: ColumnType::Uuid });
            },
        };
        let disbursement_date: Timestamp = match parse_rfc3339(self.disbursement_date.as_str()) {
            Some(t) => t,
            None => {
                return Err(ColumnError { index: 5, expected: ColumnType::DateTime });
            },
        };
        let start_date: Timestamp = match parse_rfc3339(self.start_date.as_str()) {
            Some(t) => t,
            None => {
                return Err(ColumnError { index: 6, expected: ColumnType::DateTime });
            },
        };
        let last_repayment_date: Option<Timestamp> = match &self.last_repayment_date {
            Some(text) => match parse_rfc3339(text.as_str()) {
                Some(t) => Some(t),
                None => {
                    return Err(ColumnError { index: 7, expected: ColumnType::DateTime });
                },
            },
            None => None,
        };
        let status: LoanStatus = match LoanStatus::from_name(self.status.as_str()) {
            Some(status) => status,
            None => {
                return Err(ColumnError { index: 8, expected: ColumnType::LoanStatus });
            },
        };
        let repayment_schedule: Vec<Timestamp> = match decode_schedule(
            self.repayment_schedule.as_str(),
        ) {
            Some(entries) => entries,
            None => {
                return Err(ColumnError { index: 9, expected: ColumnType::Json });
            },
        };
        Ok(
            Loan {
                id,
                borrower_id,
                lender_id,
                principal: self.principal,
                interest_rate: self.interest_rate,
                disbursement_date,
                repayment_schedule,
                start_date,
                last_repayment_date,
                status,
            },
        )
    }
}

/// Reads the user that a lookup found, if it found one.
pub fn load_user(found: Option<&UserRow>) -> (r: Result<Option<User>, ColumnError>)
    ensures
        match found {
            None => r == Ok::<Option<User>, ColumnError>(None),
            Some(row) => match r {
                Ok(user) => user matches Some(u) && row@.user() == Ok::<UserModel, ColumnError>(
                    u@,
                ),
                Err(e) => row@.user() == Err::<UserModel, ColumnError>(e),
            },
        },
{
    match found {
        None => Ok(None),
        Some(row) => match row.to_user() {
            Ok(user) => Ok(Some(user)),
            Err(e) => Err(e),
        },
    }
}

/// Reads every user of a listing, in order.  The first row that cannot be
/// read fails the whole listing.
pub fn load_all_users(rows: &Vec<UserRow>) -> (r: Result<Vec<User>, ColumnError>)
    ensures
        match r {
            Ok(users) => users@.len() == rows@.len() && forall|i: int|
                0 <= i < rows@.len() ==> (#[trigger] rows@[i])@.user() == Ok::<
                    UserModel,
                    ColumnError,
                >(users@[i]@),
            Err(e) => exists|i: int|
                0 <= i < rows@.len() && (#[trigger] rows@[i])@.user() == Err::<
                    UserModel,
                    ColumnError,
                >(e) && forall|j: int| 0 <= j < i ==> (#[trigger] rows@[j])@.user() is Ok,
        },
{
    let mut users: Vec<User> = Vec::new();
    let mut i: usize = 0;
    while i < rows.len()
        invariant
            i <= rows@.len(),
            users@.len() == i,
            forall|j: int|
                0 <= j < i ==> (#[trigger] rows@[j])@.user() == Ok::<UserModel, ColumnError>(
                    users@[j]@,
                ),
        decreases rows@.len() - i,
    {
        match rows[i].to_user() {
            Ok(user) => {
                users.push(user);
            },
            Err(e) => {
                return Err(e);
            },
        }
        i = i + 1;
    }
    Ok(users)
}

/// Reads the loan that a lookup found, if it found one.
pub fn load_loan(found: Option<&LoanRow>) -> (r: Result<Option<Loan>, ColumnError>)
    ensures
        match found {
            None => r == Ok::<Option<Loan>, ColumnError>(None),
            Some(row) => match r {
                Ok(loan) => loan matches Some(l) && row@.loan() == Ok::<LoanModel, ColumnError>(
                    l@,
                ) && l@.wf(),
                Err(e) => row@.loan() == Err::<LoanModel, ColumnError>(e),
            },
        },
{
    match found {
        None => Ok(None),
        Some(row) => match row.to_loan() {
            Ok(loan) => Ok(Some(loan)),
            Err(e) => Err(e),
        },
    }
}

/// Reads every loan of a listing, in order.  The first row that cannot be
/// read fails the whole listing.
pub fn load_all_loans(rows: &Vec<LoanRow>) -> (r: Result<Vec<Loan>, ColumnError>)
    ensures
        match r {
            Ok(loans) => loans@.len() == rows@.len() && forall|i: int|
                0 <= i < rows@.len() ==> (#[trigger] rows@[i])@.loan() == Ok::<
                    LoanModel,
                    ColumnError,
                >(loans@[i]@) && loans@[i]@.wf(),
            Err(e) => exists|i: int|
                0 <= i < rows@.len() && (#[trigger] rows@[i])@.loan() == Err::<
                    LoanModel,
                    ColumnError,
                >(e) && forall|j: int| 0 <= j < i ==> (#[trigger] rows@[j])@.loan() is Ok,
        },
{
    let mut loans: Vec<Loan> = Vec::new();
    let mut i: usize = 0;
    while i < rows.len()
        invariant
            i <= rows@.len(),
            loans@.len() == i,
            forall|j: int|
                0 <= j < i ==> (#[trigger] rows@[j])@.loan() == Ok::<LoanModel, ColumnError>(
                    loans@[j]@,
                ) && loans@[j]@.wf(),
        decreases rows@.len() - i,
    {
        match rows[i].to_loan() {
            Ok(loan) => {
                loans.push(loan);
            },
            Err(e) => {
                return Err(e);
            },
        }
        i = i + 1;
    }
    Ok(loans)
}

} // verus!
