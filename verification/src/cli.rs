//! What the command line decides about its arguments.

use crate::api::requested_role;
use crate::error::{AppError, AppErrorView};
use crate::ident::{parse_id, uuid_value};
use crate::models::UserRole;
use crate::text::same_text;
use vstd::prelude::*;

verus! {

/// The lower-case form that the standard library gives a text.
pub uninterp spec fn lowercase(text: Seq<char>) -> Seq<char>;

/// Lowers a text with `str::to_lowercase`.
///
/// The result follows the Unicode case mappings; it is a function of the
/// text alone and is only named here.
#[verifier::external_body]
fn to_lowercase(text: &str) -> (lowered: String)
    ensures
        lowered@ == lowercase(text@),
{
    text.to_lowercase()
}

/// Reads the role given on the command line.  The two role names are
/// accepted in any mix of upper and lower case.
pub fn parse_role(text: &str) -> (role: Option<UserRole>)
    ensures
        role == requested_role(lowercase(text@)),
{
    let lowered: String = to_lowercase(text);
    if same_text(lowered.as_str(), "borrower") {
        Some(UserRole::Borrower)
    } else if same_text(lowered.as_str(), "lender") {
        Some(UserRole::Lender)
    } else {
        None
    }
}

/// Reads the identifier of the loan given on the command line.
pub fn parse_loan_id(text: &str) -> (r: Result<u128, AppError>)
    ensures
        match uuid_value(text@) {
            Some(id) => r == Ok::<u128, AppError>(id),
            None => r matches Err(e) && e@ == AppErrorView::InvalidInput(
                "Invalid loan UUID format"@,
            ),
        },
{
    match parse_id(text) {
        Some(id) => Ok(id),
        None => Err(AppError::InvalidInput(String::from_str("Invalid loan UUID format"))),
    }
}

} // verus!
