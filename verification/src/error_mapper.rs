//! Classification of database errors into the repository error kinds:
//! a row that was not found, the three constraint violations, the
//! serialization failure that is retried, and the unclassified rest.
//!
//! The facts of one `sqlx::Error` — which variant it is, which
//! constraint it names, which violation flags its driver reports — are
//! read through trusted accessors into [`DbErrorInfo`]; the
//! classification itself is verified over those plain facts.

use vstd::prelude::*;
use vstd::string::StringExecFns;

use crate::errors::RepoError;

verus! {

#[verifier::external_type_specification]
#[verifier::external_body]
pub struct ExSqlxError(sqlx::Error);

/// Plain classification facts of one database error.
pub struct DbErrorInfo {
    pub row_not_found: bool,
    pub constraint: Option<String>,
    pub unique_violation: bool,
    pub foreign_key_violation: bool,
    pub check_violation: bool,
    pub serialization_failure: bool,
}

/// Relies on `sqlx::Error`'s variants: true for `RowNotFound`.
#[verifier::external_body]
fn error_is_row_not_found(error: &sqlx::Error) -> bool {
    matches!(error, sqlx::Error::RowNotFound)
}

/// Relies on `sqlx::error::DatabaseError::constraint`: the constraint
/// the database names for a database-side error, if any.
#[verifier::external_body]
fn error_constraint(error: &sqlx::Error) -> Option<String> {
    match error {
        sqlx::Error::Database(db_error) => db_error.constraint().map(|c| c.to_string()),
        _ => None,
    }
}

/// Relies on `sqlx::error::DatabaseError::is_unique_violation`.
#[verifier::external_body]
fn error_is_unique_violation(error: &sqlx::Error) -> bool {
    match error {
        sqlx::Error::Database(db_error) => db_error.is_unique_violation(),
        _ => false,
    }
}

/// Relies on `sqlx::error::DatabaseError::is_foreign_key_violation`.
#[verifier::external_body]
fn error_is_foreign_key_violation(error: &sqlx::Error) -> bool {
    match error {
        sqlx::Error::Database(db_error) => db_error.is_foreign_key_violation(),
        _ => false,
    }
}

/// Relies on `sqlx::error::DatabaseError::is_check_violation`.
#[verifier::external_body]
fn error_is_check_violation(error: &sqlx::Error) -> bool {
    match error {
        sqlx::Error::Database(db_error) => db_error.is_check_violation(),
        _ => false,
    }
}

/// Relies on `sqlx::error::DatabaseError::code`: true when the database
/// reports SQLSTATE `40001`, the serialization failure.
#[verifier::external_body]
fn error_is_serialization_failure(error: &sqlx::Error) -> bool {
    match error {
        sqlx::Error::Database(db_error) => db_error.code().map(|c| c == "40001").unwrap_or(false),
        _ => false,
    }
}

/// Classifies the plain facts of a database error: a missing row first;
/// then, under a named constraint, the unique, foreign-key and check
/// violations in that order; then the serialization failure; everything
/// else is an unclassified database error of the given operation.
pub fn classify_db_error(info: &DbErrorInfo, operation: &str, entity_type: &str) -> (r: RepoError)
    ensures
        info.row_not_found ==> (r matches RepoError::NotFound { entity_type: t } && t@
            == entity_type@),
        info.constraint is Some && !info.row_not_found && info.unique_violation ==> (
        r matches RepoError::Conflict { constraint } && constraint@
            == info.constraint.unwrap()@),
        info.constraint is Some && !info.row_not_found && !info.unique_violation
            && info.foreign_key_violation ==> (r matches RepoError::ForeignKeyViolation {
            constraint,
        } && constraint@ == info.constraint.unwrap()@),
        info.constraint is Some && !info.row_not_found && !info.unique_violation
            && !info.foreign_key_violation && info.check_violation ==> (
        r matches RepoError::CheckViolation { constraint } && constraint@
            == info.constraint.unwrap()@),
        !info.row_not_found && !(info.constraint is Some && (info.unique_violation
            || info.foreign_key_violation || info.check_violation)) && info.serialization_failure
            ==> r is SerializationFailure,
        !info.row_not_found && !(info.constraint is Some && (info.unique_violation
            || info.foreign_key_violation || info.check_violation))
            && !info.serialization_failure ==> (r matches RepoError::Database { operation: o }
            && o@ == operation@),
{
    if info.row_not_found {
        return RepoError::NotFound { entity_type: String::from_str(entity_type) };
    }
    match &info.constraint {
        Some(constraint) => {
            if info.unique_violation {
                return RepoError::Conflict { constraint: constraint.clone() };
            }
            if info.foreign_key_violation {
                return RepoError::ForeignKeyViolation { constraint: constraint.clone() };
            }
            if info.check_violation {
                return RepoError::CheckViolation { constraint: constraint.clone() };
            }
        },
        None => {
        },
    }
    if info.serialization_failure {
        return RepoError::SerializationFailure;
    }
    RepoError::Database { operation: String::from_str(operation) }
}

/// Maps one `sqlx::Error` to a repository error: its facts are read
/// through the accessors above and classified by [`classify_db_error`].
/// Whatever the error was, a named entity or operation in the result is
/// the one given here.
pub fn map_sqlx_error(error: &sqlx::Error, operation: &str, entity_type: &str) -> (r: RepoError)
    ensures
        r matches RepoError::NotFound { entity_type: t } ==> t@ == entity_type@,
        r matches RepoError::Database { operation: o } ==> o@ == operation@,
{
    let info = DbErrorInfo {
        row_not_found: error_is_row_not_found(error),
        constraint: error_constraint(error),
        unique_violation: error_is_unique_violation(error),
        foreign_key_violation: error_is_foreign_key_violation(error),
        check_violation: error_is_check_violation(error),
        serialization_failure: error_is_serialization_failure(error),
    };
    classify_db_error(&info, operation, entity_type)
}

} // verus!
