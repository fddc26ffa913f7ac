use vstd::prelude::*;

use crate::driver::{Driver, RDBCError};

verus! {

/// A pool of database connections opened through a driver.
pub trait ConnectionPool<D: Driver>: Sized {
    /// Name of the driver the pool was created on.
    spec fn pool_driver_name(&self) -> Seq<char>;

    /// The driver the pool opens connections through.
    spec fn pool_driver(&self) -> D;

    /// The connection url of the pool.
    spec fn pool_url(&self) -> Seq<char>;

    /// Creates a pool for `url`, opening connections through `driver`.
    fn new(driver_name: String, driver: D, url: String) -> (r: Result<Self, RDBCError>)
        ensures
            r is Ok ==> r->Ok_0.pool_driver_name() == driver_name@ && r->Ok_0.pool_url() == url@
                && r->Ok_0.pool_driver() == driver,
    ;

    /// Takes a connection from the pool, or opens a new one.
    fn get_conn(&mut self) -> Result<D::Conn, RDBCError>;

    /// Hands an unused connection back to the pool.
    fn release_conn(&mut self, conn: D::Conn);
}

} // verus!
