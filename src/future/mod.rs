//! Pooled connections and the lifecycle of pooled resources.

pub mod connpool;
pub mod database;
pub mod datasource;
pub mod driver;
pub mod shared;
pub mod stmt;
pub mod tx;
