//! Pooled transactions.

use vstd::prelude::*;

use crate::driver::Driver;

use super::database::Database;
use super::shared::{conn_after_drop, idle_after_drop, refs_after_drop, Shared};
use super::stmt::Statement;

verus! {

/// A driver transaction shared by its references. It owns its connection
/// for its whole life and hands it back to the pool when the last reference
/// goes, whether or not it was committed. The driver transaction itself
/// rolls back when dropped uncommitted.
pub struct Transaction<T, C> {
    inner: Shared<T, C>,
    driver_name: String,
    conn_url: String,
}

impl<T, C> Transaction<T, C> {
    #[verifier::type_invariant]
    spec fn inv(&self) -> bool {
        self.inner.to_pool()
    }

    pub closed spec fn refs(&self) -> nat {
        self.inner.refs()
    }

    pub closed spec fn conn(&self) -> Option<C> {
        self.inner.conn()
    }

    pub closed spec fn resource(&self) -> Option<T> {
        self.inner.resource()
    }

    pub closed spec fn name_view(&self) -> Seq<char> {
        self.driver_name@
    }

    pub closed spec fn url_view(&self) -> Seq<char> {
        self.conn_url@
    }

    /// One reference to `tx`, owning `conn`.
    pub fn new(driver_name: String, conn_url: String, tx: T, conn: Option<C>) -> (r: Self)
        ensures
            r.refs() == 1,
            r.conn() == conn,
            r.resource() == Some(tx),
            r.name_view() == driver_name@,
            r.url_view() == conn_url@,
    {
        Transaction { inner: Shared::new(true, conn, tx), driver_name, conn_url }
    }

    /// Number of live references.
    pub fn ref_count(&self) -> (r: usize)
        ensures
            r == self.refs(),
    {
        self.inner.ref_count()
    }

    /// Adds a reference. A transaction whose references are all gone stays so.
    pub fn clone_ref(&mut self)
        requires
            old(self).refs() < usize::MAX,
        ensures
            final(self).refs() == if old(self).refs() == 0 { 0 } else { old(self).refs() + 1 },
            final(self).conn() == old(self).conn(),
            final(self).resource() == old(self).resource(),
            final(self).name_view() == old(self).name_view(),
            final(self).url_view() == old(self).url_view(),
    {
        proof { use_type_invariant(&*self); }
        let mut inner = Shared::spent(true);
        std::mem::swap(&mut self.inner, &mut inner);
        inner.clone_ref();
        self.inner = inner;
    }

    /// The driver transaction, for issuing a call on it.
    pub fn tx_mut(&mut self) -> (r: Option<&mut T>)
        ensures
            r is Some <==> old(self).resource() is Some,
            old(self).resource() is Some ==> *r->0 == old(self).resource()->0
                && final(self).resource() == Some(*final(r->0)),
            final(self).refs() == old(self).refs(),
            final(self).conn() == old(self).conn(),
            final(self).name_view() == old(self).name_view(),
            final(self).url_view() == old(self).url_view(),
    {
        proof { use_type_invariant(&*self); }
        self.inner.resource_mut()
    }

    /// Releases one reference; the last one drops the driver transaction and
    /// hands the connection back to `db`.
    pub fn release_ref<D: Driver<Conn = C>>(&mut self, db: &mut Database<D>)
        ensures
            final(self).refs() == refs_after_drop(old(self).refs()),
            final(self).conn() == conn_after_drop(old(self).refs(), old(self).conn()),
            final(self).resource() == if old(self).refs() <= 1 { None } else { old(self).resource() },
            final(self).name_view() == old(self).name_view(),
            final(self).url_view() == old(self).url_view(),
            final(db).idle() == idle_after_drop(
                old(self).refs(),
                old(self).conn(),
                true,
                old(db).idle(),
                old(db).max_idle(),
            ),
            final(db).max_idle() == old(db).max_idle(),
            final(db).driver_view() == old(db).driver_view(),
    {
        proof { use_type_invariant(&*self); }
        let mut inner = Shared::spent(true);
        std::mem::swap(&mut self.inner, &mut inner);
        inner.release_ref(db);
        self.inner = inner;
    }

    /// Wraps a statement prepared inside this transaction: it owns no
    /// connection, since the transaction keeps that.
    pub fn prepared<S>(&self, stmt: S) -> (r: Statement<S, C>)
        ensures
            r.refs() == 1,
            r.conn() is None,
            !r.to_pool(),
            r.resource() == Some(stmt),
    {
        Statement::new(false, None, stmt)
    }

    pub fn driver_name(&self) -> (r: &str)
        ensures
            r@ == self.name_view(),
    {
        self.driver_name.as_str()
    }

    pub fn conn_str(&self) -> (r: &str)
        ensures
            r@ == self.url_view(),
    {
        self.conn_url.as_str()
    }
}

} // verus!
