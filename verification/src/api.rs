//! What the service decides about a request, before and after it talks to
//! the store and to the session layer.
//!
//! A handler reads the request and the session, looks up what it needs, and
//! hands the plain values to the functions here.  They say whether the
//! request goes through, what is to be stored, and what is answered.

use crate::error::{AppError, AppErrorView};
use crate::ident::{is_random_uuid, parse_id, uuid_value};
use crate::loan::{can_schedule, opened_loan, rejected_duration, LoanTracker};
use crate::models::{Loan, User, UserRole};
use crate::number::Binary64;
use crate::recovery::{recommended_action, RecoveryAction, RecoveryEngine};
use crate::text::same_text;
use crate::user::UserManager;
use vstd::prelude::*;

verus! {

/// A request to register a user.
pub struct RegisterUserReq {
    pub name: String,
    /// `"borrower"` or `"lender"`.
    pub role: String,
}

/// A request to log in as the user of a given name.
pub struct LoginReq {
    pub name: String,
}

/// A request to open a loan.
pub struct CreateLoanReq {
    pub borrower_id: String,
    pub lender_id: String,
    pub principal: Binary64,
    pub interest_rate: Binary64,
    pub months: i64,
}

/// The answer to a request for a recommendation.
pub struct Recommendation {
    pub loan_id: u128,
    pub risk_score: Binary64,
    pub recommended_action: RecoveryAction,
}

/// The role that a request names, if it names one.
pub open spec fn requested_role(text: Seq<char>) -> Option<UserRole> {
    if text == "borrower"@ {
        Some(UserRole::Borrower)
    } else if text == "lender"@ {
        Some(UserRole::Lender)
    } else {
        None
    }
}

/// Reads the role that a request names.  Only the two lower-case names are
/// accepted.
pub fn parse_role(text: &str) -> (r: Result<UserRole, AppError>)
    ensures
        match r {
            Ok(role) => requested_role(text@) == Some(role),
            Err(e) => requested_role(text@) is None && e@ == AppErrorView::InvalidInput(
                "Role must be 'borrower' or 'lender'"@,
            ),
        },
{
    if same_text(text, "borrower") {
        Ok(UserRole::Borrower)
    } else if same_text(text, "lender") {
        Ok(UserRole::Lender)
    } else {
        Err(AppError::InvalidInput(String::from_str("Role must be 'borrower' or 'lender'")))
    }
}

/// Decides a registration: the user to store, or why the request is
/// refused.
pub fn register_user(data: &RegisterUserReq) -> (r: Result<User, AppError>)
    ensures
        match r {
            Ok(user) => requested_role(data.role@) == Some(user@.role) && user@.name == data.name@
                && is_random_uuid(user.id),
            Err(e) => requested_role(data.role@) is None && e@ == AppErrorView::InvalidInput(
                "Role must be 'borrower' or 'lender'"@,
            ),
        },
{
    let role: UserRole = match parse_role(data.role.as_str()) {
        Ok(role) => role,
        Err(e) => {
            return Err(e);
        },
    };
    let manager = UserManager::new();
    Ok(manager.register_user(data.name.clone(), role))
}

/// Decides a login: the first of the users that bears the name logs in.
pub fn login(users: &Vec<User>, data: &LoginReq) -> (r: Result<User, AppError>)
    ensures
        match r {
            Ok(user) => exists|i: int|
                0 <= i < users@.len() && user@ == (#[trigger] users@[i])@ && user@.name
                    == data.name@ && forall|j: int|
                    0 <= j < i ==> (#[trigger] users@[j])@.name != data.name@,
            Err(e) => e@ == AppErrorView::NotFound("User not found"@) && forall|i: int|
                0 <= i < users@.len() ==> (#[trigger] users@[i])@.name != data.name@,
        },
{
    let mut i: usize = 0;
    while i < users.len()
        invariant
            i <= users@.len(),
            forall|j: int| 0 <= j < i ==> (#[trigger] users@[j])@.name != data.name@,
        decreases users@.len() - i,
    {
        if same_text(users[i].name.as_str(), data.name.as_str()) {
            return Ok(users[i].duplicate());
        }
        i = i + 1;
    }
    Err(AppError::NotFound(String::from_str("User not found")))
}

/// The identifier of the user that a session belongs to.  Without a session
/// the caller has to authenticate; a session that does not hold an
/// identifier is invalid.
pub fn session_user_id(session: Option<&str>) -> (r: Result<u128, AppError>)
    ensures
        match session {
            None => r matches Err(e) && e@ == AppErrorView::AuthRequired,
            Some(text) => match uuid_value(text@) {
                Some(id) => r == Ok::<u128, AppError>(id),
                None => r matches Err(e) && e@ == AppErrorView::InvalidInput("Invalid session"@),
            },
        },
{
    match session {
        None => Err(AppError::AuthRequired),
        Some(text) => match parse_id(text) {
            Some(id) => Ok(id),
            None => Err(AppError::InvalidInput(String::from_str("Invalid session"))),
        },
    }
}

/// The user behind a session, given what the lookup of the session's
/// identifier found.  A session whose user is unknown has to authenticate.
pub fn current_user(found: Option<User>) -> (r: Result<User, AppError>)
    ensures
        match found {
            Some(user) => r == Ok::<User, AppError>(user),
            None => r matches Err(e) && e@ == AppErrorView::AuthRequired,
        },
{
    match found {
        Some(user) => Ok(user),
        None => Err(AppError::AuthRequired),
    }
}

/// Whether the user behind a session may act as a lender.  An unknown user
/// has to authenticate; a borrower lacks the permission.
pub fn authorize_lender(found: Option<&User>) -> (r: Result<(), AppError>)
    ensures
        match found {
            None => r matches Err(e) && e@ == AppErrorView::AuthRequired,
            Some(user) => if user.spec_can_create_loan() {
                r is Ok
            } else {
                r matches Err(e) && e@ == AppErrorView::InsufficientPermissions
            },
        },
{
    match found {
        None => Err(AppError::AuthRequired),
        Some(user) => if user.can_create_loan() {
            Ok(())
        } else {
            Err(AppError::InsufficientPermissions)
        },
    }
}

/// The two parties that a request to open a loan names, or the first of
/// them that is not an identifier.
pub open spec fn requested_parties(borrower_id: Seq<char>, lender_id: Seq<char>) -> Result<
    (u128, u128),
    AppErrorView,
> {
    match uuid_value(borrower_id) {
        None => Err(AppErrorView::InvalidInput("Invalid borrower UUID format"@)),
        Some(borrower) => match uuid_value(lender_id) {
            None => Err(AppErrorView::InvalidInput("Invalid lender UUID format"@)),
            Some(lender) => Ok((borrower, lender)),
        },
    }
}

/// Reads the two parties of a loan from a request.
pub fn parse_parties(borrower_id: &str, lender_id: &str) -> (r: Result<(u128, u128), AppError>)
    ensures
        match r {
            Ok(parties) => requested_parties(borrower_id@, lender_id@) == Ok::<
                (u128, u128),
                AppErrorView,
            >(parties),
            Err(e) => requested_parties(borrower_id@, lender_id@) == Err::<
                (u128, u128),
                AppErrorView,
            >(e@),
        },
{
    let borrower: u128 = match parse_id(borrower_id) {
        Some(id) => id,
        None => {
            return Err(AppError::InvalidInput(String::from_str("Invalid borrower UUID format")));
        },
    };
    let lender: u128 = match parse_id(lender_id) {
        Some(id) => id,
        None => {
            return Err(AppError::InvalidInput(String::from_str("Invalid lender UUID format")));
        },
    };
    Ok((borrower, lender))
}

/// Decides a request to open a loan, given the user behind the session: the
/// loan to store, or why the request is refused.  The user is checked
/// first, then the borrower, then the lender, then the duration.
pub fn create_loan(data: &CreateLoanReq, found: Option<&User>) -> (r: Result<Loan, AppError>)
    ensures
        match found {
            None => r matches Err(e) && e@ == AppErrorView::AuthRequired,
            Some(user) => if !user.spec_can_create_loan() {
                r matches Err(e) && e@ == AppErrorView::InsufficientPermissions
            } else {
                match requested_parties(data.borrower_id@, data.lender_id@) {
                    Err(refusal) => r matches Err(e) && e@ == refusal,
                    Ok(parties) => match r {
                        Ok(loan) => {
                            &&& can_schedule(loan@.disbursement_date, data.months as int)
                            &&& loan@ == opened_loan(
                                loan.id,
                                parties.0,
                                parties.1,
                                data.principal,
                                data.interest_rate,
                                data.months as int,
                                loan@.disbursement_date,
                            )
                            &&& is_random_uuid(loan.id)
                            &&& loan@.wf()
                        },
                        Err(e) => e@ == rejected_duration(data.months as int),
                    },
                }
            },
        },
        data.months < 1 ==> r is Err,
{
    match authorize_lender(found) {
        Ok(_) => {},
        Err(e) => {
            return Err(e);
        },
    }
    let parties: (u128, u128) = match parse_parties(
        data.borrower_id.as_str(),
        data.lender_id.as_str(),
    ) {
        Ok(parties) => parties,
        Err(e) => {
            return Err(e);
        },
    };
    let tracker = LoanTracker::new();
    tracker.create_loan(parties.0, parties.1, data.principal, data.interest_rate, data.months)
}

/// Decides a request for a recommendation, given what the lookup of the loan
/// found.  The repayment history is not kept, so no missed payment is
/// counted.
pub fn recommend_action(found: Option<&Loan>) -> (r: Result<Recommendation, AppError>)
    ensures
        match found {
            None => r matches Err(e) && e@ == AppErrorView::NotFound("Loan not found"@),
            Some(loan) => r matches Ok(answer) && answer.loan_id == loan.id && answer.risk_score
                == loan@.risk_score() && answer.recommended_action == recommended_action(
                loan@.risk_score(),
                0,
            ),
        },
{
    match found {
        None => Err(AppError::NotFound(String::from_str("Loan not found"))),
        Some(loan) => {
            let engine = RecoveryEngine;
            let risk_score: Binary64 = engine.predict_default(loan);
            let recommended_action: RecoveryAction = engine.recommend_action(risk_score, 0);
            Ok(Recommendation { loan_id: loan.id, risk_score, recommended_action })
        },
    }
}

} // verus!
