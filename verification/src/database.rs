//! Failures of the persistence layer, as plain values, and how the service
//! classifies them.

use vstd::prelude::*;
use crate::error::{DatabaseError, DbError, ServiceError};
use crate::text::same_text;

verus! {

/// What the database driver reported under a failed statement.
#[derive(Debug, Clone)]
pub enum DriverFault {
    /// The database itself refused the statement; `code` is its SQLSTATE,
    /// where it gave one.
    Database { code: Option<String> },
    /// Any other failure of the driver.
    Other,
}

/// What stands under a failed connection, query or statement.
#[derive(Debug, Clone)]
pub enum RuntimeFault {
    Driver(DriverFault),
    Internal,
}

/// The kinds of failure that the persistence layer tells apart.
#[derive(Debug, Clone)]
pub enum FailureKind {
    RecordNotFound,
    ConnectionAcquire,
    Conn(RuntimeFault),
    Exec(RuntimeFault),
    Query(RuntimeFault),
    RecordNotInserted,
    RecordNotUpdated,
    AttrNotSet,
    /// Conversions, migrations and whatever else is no fault of a request.
    Other,
}

/// A failure of the persistence layer.
#[derive(Debug, Clone)]
pub struct DbFailure {
    pub kind: FailureKind,
    /// Whether the layer reads the failure as a breach of a unique
    /// constraint.
    pub unique_violation: bool,
    /// How the layer words the failure.
    pub text: String,
}

pub enum DriverFaultView {
    Database { code: Option<Seq<char>> },
    Other,
}

pub enum RuntimeFaultView {
    Driver(DriverFaultView),
    Internal,
}

pub enum FailureKindView {
    RecordNotFound,
    ConnectionAcquire,
    Conn(RuntimeFaultView),
    Exec(RuntimeFaultView),
    Query(RuntimeFaultView),
    RecordNotInserted,
    RecordNotUpdated,
    AttrNotSet,
    Other,
}

pub struct DbFailureView {
    pub kind: FailureKindView,
    pub unique_violation: bool,
    pub text: Seq<char>,
}

impl DeepView for DriverFault {
    type V = DriverFaultView;

    open spec fn deep_view(&self) -> DriverFaultView {
        match self {
            DriverFault::Database { code } => DriverFaultView::Database { code: code.deep_view() },
            DriverFault::Other => DriverFaultView::Other,
        }
    }
}

impl DeepView for RuntimeFault {
    type V = RuntimeFaultView;

    open spec fn deep_view(&self) -> RuntimeFaultView {
        match self {
            RuntimeFault::Driver(fault) => RuntimeFaultView::Driver(fault.deep_view()),
            RuntimeFault::Internal => RuntimeFaultView::Internal,
        }
    }
}

impl DeepView for FailureKind {
    type V = FailureKindView;

    open spec fn deep_view(&self) -> FailureKindView {
        match self {
            FailureKind::RecordNotFound => FailureKindView::RecordNotFound,
            FailureKind::ConnectionAcquire => FailureKindView::ConnectionAcquire,
            FailureKind::Conn(fault) => FailureKindView::Conn(fault.deep_view()),
            FailureKind::Exec(fault) => FailureKindView::Exec(fault.deep_view()),
            FailureKind::Query(fault) => FailureKindView::Query(fault.deep_view()),
            FailureKind::RecordNotInserted => FailureKindView::RecordNotInserted,
            FailureKind::RecordNotUpdated => FailureKindView::RecordNotUpdated,
            FailureKind::AttrNotSet => FailureKindView::AttrNotSet,
            FailureKind::Other => FailureKindView::Other,
        }
    }
}

impl DeepView for DbFailure {
    type V = DbFailureView;

    open spec fn deep_view(&self) -> DbFailureView {
        DbFailureView {
            kind: self.kind.deep_view(),
            unique_violation: self.unique_violation,
            text: self.text@,
        }
    }
}

/// The SQLSTATE codes that tell of a fault in the service's own statements:
/// an undefined table, column or function.
pub open spec fn is_schema_fault(code: Seq<char>) -> bool {
    code == "42P01"@ || code == "42703"@ || code == "42883"@
}

/// A fault of the schema is internal; any other code, and none, is a failed
/// operation.
pub open spec fn spec_error_of_code(code: Option<Seq<char>>) -> DatabaseError {
    match code {
        Some(code) => if is_schema_fault(code) {
            DatabaseError::Internal
        } else {
            DatabaseError::OperationFailed
        },
        None => DatabaseError::OperationFailed,
    }
}

pub open spec fn spec_error_of_driver(fault: DriverFaultView) -> DatabaseError {
    match fault {
        DriverFaultView::Database { code } => spec_error_of_code(code),
        DriverFaultView::Other => DatabaseError::OperationFailed,
    }
}

/// How a failure is classified. A missing record comes first, then a breach
/// of a unique constraint, then what the driver reported under a statement or
/// a query; failures to connect, to insert, to update or to fill an attribute
/// are failed operations, and everything else is internal.
pub open spec fn spec_classify(failure: DbFailureView) -> DatabaseError {
    if failure.kind is RecordNotFound {
        DatabaseError::NotFound
    } else if failure.unique_violation {
        DatabaseError::Conflict
    } else {
        match failure.kind {
            FailureKindView::Exec(RuntimeFaultView::Driver(fault)) => spec_error_of_driver(fault),
            FailureKindView::Query(RuntimeFaultView::Driver(fault)) => spec_error_of_driver(fault),
            FailureKindView::ConnectionAcquire => DatabaseError::OperationFailed,
            FailureKindView::Conn(_) => DatabaseError::OperationFailed,
            FailureKindView::RecordNotInserted => DatabaseError::OperationFailed,
            FailureKindView::RecordNotUpdated => DatabaseError::OperationFailed,
            FailureKindView::AttrNotSet => DatabaseError::OperationFailed,
            FailureKindView::Query(_) => DatabaseError::OperationFailed,
            FailureKindView::Exec(_) => DatabaseError::OperationFailed,
            _ => DatabaseError::Internal,
        }
    }
}

/// Classifies a SQLSTATE code.
pub fn handle_database_error_code(code: Option<&str>) -> (r: DatabaseError)
    ensures
        r == spec_error_of_code(code.deep_view()),
{
    match code {
        Some(code) => {
            if same_text(code, "42P01") || same_text(code, "42703") || same_text(code, "42883") {
                DatabaseError::Internal
            } else {
                DatabaseError::OperationFailed
            }
        },
        None => DatabaseError::OperationFailed,
    }
}

/// Classifies what the driver reported.
pub fn handle_sqlx_error(fault: &DriverFault) -> (r: DatabaseError)
    ensures
        r == spec_error_of_driver(fault.deep_view()),
{
    match fault {
        DriverFault::Database { code } => match code {
            Some(code) => handle_database_error_code(Some(code.as_str())),
            None => handle_database_error_code(None),
        },
        DriverFault::Other => DatabaseError::OperationFailed,
    }
}

/// Whether the persistence layer reads the failure as a breach of a unique
/// constraint.
pub fn is_unique_constraint_violation(failure: &DbFailure) -> (r: bool)
    ensures
        r == failure.unique_violation,
{
    failure.unique_violation
}

/// Classifies a failure of the persistence layer.
pub fn classify(failure: &DbFailure) -> (r: DatabaseError)
    ensures
        r == spec_classify(failure.deep_view()),
{
    match &failure.kind {
        FailureKind::RecordNotFound => DatabaseError::NotFound,
        kind => {
            if is_unique_constraint_violation(failure) {
                DatabaseError::Conflict
            } else {
                match kind {
                    FailureKind::Exec(RuntimeFault::Driver(fault)) => handle_sqlx_error(fault),
                    FailureKind::Query(RuntimeFault::Driver(fault)) => handle_sqlx_error(fault),
                    FailureKind::ConnectionAcquire => DatabaseError::OperationFailed,
                    FailureKind::Conn(_) => DatabaseError::OperationFailed,
                    FailureKind::RecordNotInserted => DatabaseError::OperationFailed,
                    FailureKind::RecordNotUpdated => DatabaseError::OperationFailed,
                    FailureKind::AttrNotSet => DatabaseError::OperationFailed,
                    FailureKind::Query(_) => DatabaseError::OperationFailed,
                    FailureKind::Exec(_) => DatabaseError::OperationFailed,
                    _ => DatabaseError::Internal,
                }
            }
        },
    }
}

impl From<DbFailure> for DatabaseError {
    fn from(failure: DbFailure) -> (r: DatabaseError) {
        classify(&failure)
    }
}

impl vstd::std_specs::convert::FromSpecImpl<DbFailure> for DatabaseError {
    open spec fn obeys_from_spec() -> bool {
        true
    }

    open spec fn from_spec(failure: DbFailure) -> DatabaseError {
        spec_classify(failure.deep_view())
    }
}

impl From<DbFailure> for ServiceError {
    fn from(failure: DbFailure) -> (r: ServiceError) {
        ServiceError::DatabaseError(classify(&failure))
    }
}

impl vstd::std_specs::convert::FromSpecImpl<DbFailure> for ServiceError {
    open spec fn obeys_from_spec() -> bool {
        true
    }

    open spec fn from_spec(failure: DbFailure) -> ServiceError {
        ServiceError::DatabaseError(spec_classify(failure.deep_view()))
    }
}

/// For the HTTP layer a failure is either a missing record or a failed
/// query with the layer's own wording.
impl vstd::std_specs::convert::FromSpecImpl<DbFailure> for DbError {
    open spec fn obeys_from_spec() -> bool {
        true
    }

    open spec fn from_spec(failure: DbFailure) -> DbError {
        match failure.kind {
            FailureKind::RecordNotFound => DbError::NotFound,
            _ => DbError::Query(failure.text),
        }
    }
}

impl From<DbFailure> for DbError {
    fn from(failure: DbFailure) -> (r: DbError) {
        match failure.kind {
            FailureKind::RecordNotFound => DbError::NotFound,
            _ => DbError::Query(failure.text),
        }
    }
}

} // verus!
