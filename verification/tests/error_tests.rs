use smart_loan_recovery::error::{AppError, AppResult};

fn every_error() -> Vec<AppError> {
    vec![
        AppError::Database("disk full".to_string()),
        AppError::UuidParse("invalid length".to_string()),
        AppError::Serde("expected value".to_string()),
        AppError::Login("session lost".to_string()),
        AppError::AuthRequired,
        AppError::InsufficientPermissions,
        AppError::InvalidInput("Role must be 'borrower' or 'lender'".to_string()),
        AppError::NotFound("Loan not found".to_string()),
        AppError::InternalServerError,
    ]
}

#[test]
fn each_failure_has_its_status() {
    let codes: Vec<u16> = every_error().iter().map(|e| e.status_code()).collect();
    assert_eq!(codes, vec![500, 400, 400, 500, 401, 403, 400, 404, 500]);
}

#[test]
fn each_failure_has_its_message_for_the_client() {
    let messages: Vec<String> = every_error().iter().map(|e| e.response_message()).collect();
    assert_eq!(
        messages,
        vec![
            "Database error",
            "Invalid UUID format",
            "Invalid JSON",
            "Login error",
            "Authentication required",
            "Insufficient permissions",
            "Role must be 'borrower' or 'lender'",
            "Loan not found",
            "Internal server error",
        ]
    );
}

#[test]
fn each_failure_has_its_description() {
    let texts: Vec<String> = every_error().iter().map(|e| e.description()).collect();
    assert_eq!(
        texts,
        vec![
            "Database error: disk full",
            "UUID parse error: invalid length",
            "Serialization error: expected value",
            "Login error: session lost",
            "Authentication required",
            "Insufficient permissions",
            "Invalid input: Role must be 'borrower' or 'lender'",
            "Not found: Loan not found",
            "Internal server error",
        ]
    );
}

#[test]
fn the_details_of_a_collaborator_are_kept_from_the_client() {
    let error = AppError::Database("table loans is locked".to_string());
    assert!(!error.response_message().contains("locked"));
    assert!(error.description().contains("locked"));
}

#[test]
fn an_empty_message_is_answered_as_it_is() {
    assert_eq!(AppError::InvalidInput(String::new()).response_message(), "");
    assert_eq!(AppError::NotFound(String::new()).description(), "Not found: ");
}

#[test]
fn results_carry_the_failure() {
    let failed: AppResult<u8> = Err(AppError::AuthRequired);
    assert_eq!(failed.unwrap_err().status_code(), 401);
    let fine: AppResult<u8> = Ok(3);
    assert_eq!(fine.unwrap(), 3);
}
