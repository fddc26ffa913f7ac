//! Asynchronous database connectivity: a driver-facing interface, a pool of
//! idle connections, and the lifecycle of pooled statements and transactions.

pub mod driver;
pub mod future;

pub use future::connpool::ConnectionPool;
pub use future::database::Database;
pub use future::datasource::DataSource;
pub use future::driver::AsyncDriver;
pub use future::shared::Shared;
pub use future::stmt::Statement;
pub use future::tx::Transaction;
