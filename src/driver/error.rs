//! Predefined errors.

use vstd::prelude::*;

verus! {

/// Errors reported by drivers, pools and the driver registry.
#[derive(Debug, Clone)]
pub enum RDBCError {
    /// An error of the database itself: code and message.
    NativeError(i32, String),
    /// A step returned an unexpected number of rows.
    UnexpectRows,
    /// `next` was not called first, or no more rows are left.
    NextDataError,
    /// A column index out of range.
    OutOfRange(u64),
    /// Binding a named argument of a statement failed: statement, argument.
    BindArgError(String, String),
    /// No column of that name in the result set.
    UnknownColumn(String),
    /// A driver of that name is registered already.
    DriverRegistered(String),
    /// No driver of that name is registered.
    DriverNotFound(String),
}

} // verus!
