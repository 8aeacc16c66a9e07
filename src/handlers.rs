//! The decisions of the request handlers: how a listing is chosen and how
//! each failure maps onto an outward outcome class, status and body.

use vstd::prelude::*;

use crate::account::{describe_violations, joined_violations, FieldViolation};
use crate::classification::AccountType;
use crate::repository::{ErrorView, RepositoryError};
use crate::system::{hyphenated_text, id_to_text};

verus! {

/// The filter of a listing request.
#[derive(Debug, Clone, Copy, PartialEq, Eq, Structural)]
pub struct ListAccountsQuery {
    pub account_type: Option<AccountType>,
}

/// The body of a failed request.
#[derive(Debug, Clone)]
pub struct ErrorResponse {
    pub error: String,
    pub code: String,
}

impl ErrorResponse {
    pub fn new(error: String, code: String) -> (r: ErrorResponse)
        ensures
            r.error@ == error@,
            r.code@ == code@,
    {
        ErrorResponse { error, code }
    }
}

/// The outward class of a failure.
#[derive(Debug, Clone, Copy, PartialEq, Eq, Structural)]
pub enum ErrorClass {
    NotFound,
    Conflict,
    BadInput,
    Internal,
}

/// Each kind of error has its own class.
pub open spec fn error_class(e: ErrorView) -> ErrorClass {
    match e {
        ErrorView::NotFound(_) => ErrorClass::NotFound,
        ErrorView::DuplicateCode(_) => ErrorClass::Conflict,
        ErrorView::ValidationError(_) => ErrorClass::BadInput,
        ErrorView::DatabaseError(_) => ErrorClass::Internal,
    }
}

/// The HTTP status of each class.
pub open spec fn class_status(c: ErrorClass) -> u16 {
    match c {
        ErrorClass::NotFound => 404,
        ErrorClass::Conflict => 409,
        ErrorClass::BadInput => 400,
        ErrorClass::Internal => 500,
    }
}

/// The machine-readable code of each class.
pub open spec fn class_code(c: ErrorClass) -> Seq<char> {
    match c {
        ErrorClass::NotFound => "NOT_FOUND"@,
        ErrorClass::Conflict => "DUPLICATE_CODE"@,
        ErrorClass::BadInput => "VALIDATION_ERROR"@,
        ErrorClass::Internal => "DATABASE_ERROR"@,
    }
}

/// The text shown to the caller for each error.
pub open spec fn response_text(e: ErrorView) -> Seq<char> {
    match e {
        ErrorView::NotFound(id) => "Account not found: "@ + hyphenated_text(id),
        ErrorView::DuplicateCode(c) => "Account code already exists: "@ + c,
        ErrorView::ValidationError(m) => m,
        ErrorView::DatabaseError(m) => m,
    }
}

impl ErrorClass {
    /// The HTTP status of this class.
    pub fn status_code(&self) -> (r: u16)
        ensures
            r == class_status(*self),
    {
        match self {
            ErrorClass::NotFound => 404,
            ErrorClass::Conflict => 409,
            ErrorClass::BadInput => 400,
            ErrorClass::Internal => 500,
        }
    }

    /// The machine-readable code of this class.
    pub fn code(&self) -> (r: &'static str)
        ensures
            r@ == class_code(*self),
    {
        match self {
            ErrorClass::NotFound => "NOT_FOUND",
            ErrorClass::Conflict => "DUPLICATE_CODE",
            ErrorClass::BadInput => "VALIDATION_ERROR",
            ErrorClass::Internal => "DATABASE_ERROR",
        }
    }
}

impl RepositoryError {
    /// The outward class of this error.
    pub fn class(&self) -> (r: ErrorClass)
        ensures
            r == error_class(self@),
    {
        match self {
            RepositoryError::NotFound(_) => ErrorClass::NotFound,
            RepositoryError::DuplicateCode(_) => ErrorClass::Conflict,
            RepositoryError::ValidationError(_) => ErrorClass::BadInput,
            RepositoryError::DatabaseError(_) => ErrorClass::Internal,
        }
    }
}

/// The status and body that answer a failed store operation.
pub fn map_repo_error(err: &RepositoryError) -> (r: (u16, ErrorResponse))
    ensures
        r.0 == class_status(error_class(err@)),
        r.1.code@ == class_code(error_class(err@)),
        r.1.error@ == response_text(err@),
{
    let class = err.class();
    let text = match err {
        RepositoryError::NotFound(id) => String::from_str("Account not found: ").concat(
            id_to_text(*id).as_str(),
        ),
        RepositoryError::DuplicateCode(code) => String::from_str(
            "Account code already exists: ",
        ).concat(code.as_str()),
        RepositoryError::ValidationError(message) => message.clone(),
        RepositoryError::DatabaseError(message) => message.clone(),
    };
    (class.status_code(), ErrorResponse::new(text, String::from_str(class.code())))
}

/// The status and body that answer a request that broke field rules.
pub fn validation_failure(violations: &Vec<FieldViolation>) -> (r: (u16, ErrorResponse))
    ensures
        r.0 == class_status(ErrorClass::BadInput),
        r.1.code@ == class_code(ErrorClass::BadInput),
        r.1.error@ == "Validation failed: "@ + joined_violations(violations@),
{
    let class = ErrorClass::BadInput;
    (class.status_code(), ErrorResponse::new(describe_violations(violations), String::from_str(class.code())))
}

/// The status and body that answer a lookup of an identifier that no account
/// has.
pub fn account_not_found(id: crate::system::AccountId) -> (r: (u16, ErrorResponse))
    ensures
        r.0 == class_status(ErrorClass::NotFound),
        r.1.code@ == class_code(ErrorClass::NotFound),
        r.1.error@ == response_text(ErrorView::NotFound(id)),
{
    map_repo_error(&RepositoryError::NotFound(id))
}

} // verus!
