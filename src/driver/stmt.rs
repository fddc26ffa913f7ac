//! Plain values exchanged with a driver.

use vstd::prelude::*;

verus! {

/// Name of an SQL argument placeholder.
#[derive(Debug, Clone, PartialEq)]
pub enum ArgName {
    String(String),
    Offset(usize),
}

impl From<usize> for ArgName {
    fn from(data: usize) -> (r: ArgName) {
        ArgName::Offset(data)
    }
}

impl vstd::std_specs::convert::FromSpecImpl<usize> for ArgName {
    open spec fn obeys_from_spec() -> bool {
        true
    }

    open spec fn from_spec(data: usize) -> ArgName {
        ArgName::Offset(data)
    }
}

impl From<String> for ArgName {
    fn from(data: String) -> (r: ArgName) {
        ArgName::String(data)
    }
}

impl vstd::std_specs::convert::FromSpecImpl<String> for ArgName {
    open spec fn obeys_from_spec() -> bool {
        true
    }

    open spec fn from_spec(data: String) -> ArgName {
        ArgName::String(data)
    }
}

/// What executing a statement reports.
#[derive(Debug, Clone, PartialEq, Eq, Structural)]
pub struct ExecResult {
    pub last_insert_id: u64,
    pub raws_affected: u64,
}

/// Metadata of a result column.
#[derive(Debug, Clone, PartialEq)]
pub struct Column {
    pub column_index: u64,
    pub column_name: String,
    pub column_decltype: String,
    pub column_decltype_len: Option<u64>,
}

/// The type a column value is read as.
#[derive(Debug, Clone, Copy, PartialEq, Eq, Structural, Hash)]
pub enum ColumnType {
    I64,
    F64,
    String,
    Bytes,
    Null,
}

} // verus!
