//! Error types shared by the relational database accessors.

use vstd::prelude::*;

verus! {

/// What went wrong in a database operation. Where the database or its
/// driver gave a cause, the cause is kept as text.
#[derive(Debug, PartialEq, Eq)]
pub enum MySQLAccessorErrorType {
    /// An operation was attempted without an open connection.
    ConnNotOpen,
    /// The connection could not be opened.
    OpenConnError(String),
    /// A statement could not be run.
    SqlSelectError(String),
    /// A row of the result could not be fetched.
    SqlFetchRowError(String),
    /// A column of a row could not be read.
    SqlFetchColumnError(String),
}

/// The mathematical value of a [`MySQLAccessorErrorType`].
pub enum MySQLAccessorErrorTypeView {
    ConnNotOpen,
    OpenConnError(Seq<char>),
    SqlSelectError(Seq<char>),
    SqlFetchRowError(Seq<char>),
    SqlFetchColumnError(Seq<char>),
}

impl View for MySQLAccessorErrorType {
    type V = MySQLAccessorErrorTypeView;

    open spec fn view(&self) -> MySQLAccessorErrorTypeView {
        match self {
            MySQLAccessorErrorType::ConnNotOpen => MySQLAccessorErrorTypeView::ConnNotOpen,
            MySQLAccessorErrorType::OpenConnError(cause) => MySQLAccessorErrorTypeView::OpenConnError(
                cause@,
            ),
            MySQLAccessorErrorType::SqlSelectError(cause) => MySQLAccessorErrorTypeView::SqlSelectError(
                cause@,
            ),
            MySQLAccessorErrorType::SqlFetchRowError(cause) => MySQLAccessorErrorTypeView::SqlFetchRowError(
                cause@,
            ),
            MySQLAccessorErrorType::SqlFetchColumnError(cause) => MySQLAccessorErrorTypeView::SqlFetchColumnError(
                cause@,
            ),
        }
    }
}

/// An error of a database accessor.
#[derive(Debug, PartialEq, Eq)]
pub struct MySQLAccessorError {
    pub err_type: MySQLAccessorErrorType,
}

impl View for MySQLAccessorError {
    type V = MySQLAccessorErrorTypeView;

    open spec fn view(&self) -> MySQLAccessorErrorTypeView {
        self.err_type@
    }
}

/// Marker for the database accessors.
pub trait MySQLAccessor {
}

/// What fetching the rows of a statement comes to: the rows, or
/// `SqlFetchRowError` with the cause where a row could not be fetched.
pub open spec fn fetched_rows<R>(fetched: Result<Vec<R>, String>) -> Result<
    Option<Seq<R>>,
    MySQLAccessorErrorTypeView,
> {
    match fetched {
        Ok(rows) => Ok(Some(rows@)),
        Err(cause) => Err(MySQLAccessorErrorTypeView::SqlFetchRowError(cause@)),
    }
}

/// The value of the result of a statement.
pub open spec fn rows_view<R>(result: Result<Option<Vec<R>>, MySQLAccessorError>) -> Result<
    Option<Seq<R>>,
    MySQLAccessorErrorTypeView,
> {
    match result {
        Ok(Some(rows)) => Ok(Some(rows@)),
        Ok(None) => Ok(None),
        Err(e) => Err(e@),
    }
}

/// Makes the result of a statement from what fetching its rows gave. The
/// rows are opaque here: they are handed on as they came.
pub fn rows_result<R>(fetched: Result<Vec<R>, String>) -> (result: Result<
    Option<Vec<R>>,
    MySQLAccessorError,
>)
    ensures
        rows_view(result) == fetched_rows(fetched),
        fetched matches Ok(rows) ==> result == Ok::<Option<Vec<R>>, MySQLAccessorError>(Some(rows)),
{
    match fetched {
        Ok(rows) => Ok(Some(rows)),
        Err(cause) => Err(
            MySQLAccessorError { err_type: MySQLAccessorErrorType::SqlFetchRowError(cause) },
        ),
    }
}

} // verus!
