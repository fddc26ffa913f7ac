//! The interface a database driver implements.

pub mod callback;
pub mod conn;
pub mod error;
pub mod stmt;

use vstd::prelude::*;

pub use callback::BoxedCallback;
pub use conn::ConnStatus;
pub use error::RDBCError;
pub use stmt::{ArgName, Column, ColumnType, ExecResult};

verus! {

/// A database driver: opens connections for a connection url.
pub trait Driver {
    /// The connection type this driver opens.
    type Conn;

    /// Opens a new connection to `url`.
    fn open(&mut self, url: &str) -> Result<Self::Conn, RDBCError>;
}

} // verus!
