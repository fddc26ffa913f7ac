//! Shared ownership of a driver object and the connection it runs on: the
//! connection goes back to the pool exactly once, when the last reference
//! is released.

use vstd::prelude::*;

use crate::driver::Driver;

use super::connpool::ConnectionPool;
use super::database::{released, Database};

verus! {

/// References left after one is released.
pub open spec fn refs_after_drop(refs: nat) -> nat {
    if refs == 0 {
        0
    } else {
        (refs - 1) as nat
    }
}

/// The connection still held after one reference is released: none once the
/// last reference is gone.
pub open spec fn conn_after_drop<C>(refs: nat, conn: Option<C>) -> Option<C> {
    if refs <= 1 {
        None
    } else {
        conn
    }
}

/// The pool's idle queue after one reference is released: the held
/// connection is returned when the last reference goes, if it is bound for
/// the pool.
pub open spec fn idle_after_drop<C>(refs: nat, conn: Option<C>, to_pool: bool, idle: Seq<C>, cap: nat) -> Seq<C> {
    if refs == 1 && to_pool && conn is Some {
        released(idle, cap, conn->0)
    } else {
        idle
    }
}

/// The pool's idle queue after `k` references are released, one by one.
pub open spec fn idle_after_drops<C>(
    refs: nat,
    conn: Option<C>,
    to_pool: bool,
    idle: Seq<C>,
    cap: nat,
    k: nat,
) -> Seq<C>
    decreases k,
{
    if k == 0 {
        idle
    } else {
        idle_after_drops(
            refs_after_drop(refs),
            conn_after_drop(refs, conn),
            to_pool,
            idle_after_drop(refs, conn, to_pool, idle, cap),
            cap,
            (k - 1) as nat,
        )
    }
}

/// A resource shared by `refs` references: a driver object, the connection
/// it may own, and whether that connection goes back to the pool.
pub struct Shared<R, C> {
    res: Option<R>,
    conn: Option<C>,
    to_pool: bool,
    refs: usize,
}

impl<R, C> Shared<R, C> {
    /// Live references.
    pub closed spec fn refs(&self) -> nat {
        self.refs as nat
    }

    /// The connection owned, if any.
    pub closed spec fn conn(&self) -> Option<C> {
        self.conn
    }

    /// Whether the owned connection goes back to the pool on last release.
    pub closed spec fn to_pool(&self) -> bool {
        self.to_pool
    }

    /// The driver object, until the last reference is released.
    pub closed spec fn resource(&self) -> Option<R> {
        self.res
    }

    /// One reference to `res`, owning `conn`.
    pub fn new(to_pool: bool, conn: Option<C>, res: R) -> (r: Self)
        ensures
            r.refs() == 1,
            r.conn() == conn,
            r.to_pool() == to_pool,
            r.resource() == Some(res),
    {
        Shared { res: Some(res), conn, to_pool, refs: 1 }
    }

    /// A resource with no references left, owning nothing.
    pub fn spent(to_pool: bool) -> (r: Self)
        ensures
            r.refs() == 0,
            r.conn() is None,
            r.to_pool() == to_pool,
            r.resource() is None,
    {
        Shared { res: None, conn: None, to_pool, refs: 0 }
    }

    /// Number of live references.
    pub fn ref_count(&self) -> (r: usize)
        ensures
            r == self.refs(),
    {
        self.refs
    }

    /// Whether a connection is still owned.
    pub fn holds_conn(&self) -> (r: bool)
        ensures
            r == self.conn() is Some,
    {
        self.conn.is_some()
    }

    /// Adds a reference. A resource whose references are all gone stays so.
    pub fn clone_ref(&mut self)
        requires
            old(self).refs() < usize::MAX,
        ensures
            final(self).refs() == if old(self).refs() == 0 { 0 } else { old(self).refs() + 1 },
            final(self).conn() == old(self).conn(),
            final(self).to_pool() == old(self).to_pool(),
            final(self).resource() == old(self).resource(),
    {
        if self.refs > 0 {
            self.refs = self.refs + 1;
        }
    }

    /// The driver object, for issuing a call on it.
    pub fn resource_mut(&mut self) -> (r: Option<&mut R>)
        ensures
            r is Some <==> old(self).resource() is Some,
            old(self).resource() is Some ==> *r->0 == old(self).resource()->0
                && final(self).resource() == Some(*final(r->0)),
            final(self).refs() == old(self).refs(),
            final(self).conn() == old(self).conn(),
            final(self).to_pool() == old(self).to_pool(),
        no_unwind
    {
        match &mut self.res {
            Some(r) => Some(r),
            None => None,
        }
    }

    /// Releases one reference. When it is the last one, the driver object
    /// is dropped and the owned connection goes back to `db` if it is bound for
    /// the pool; otherwise nothing is handed to the pool. Releasing a
    /// resource with no references left does nothing.
    pub fn release_ref<D: Driver<Conn = C>>(&mut self, db: &mut Database<D>)
        ensures
            final(self).refs() == refs_after_drop(old(self).refs()),
            final(self).conn() == conn_after_drop(old(self).refs(), old(self).conn()),
            final(self).to_pool() == old(self).to_pool(),
            final(self).resource() == if old(self).refs() <= 1 { None } else { old(self).resource() },
            final(db).idle() == idle_after_drop(
                old(self).refs(),
                old(self).conn(),
                old(self).to_pool(),
                old(db).idle(),
                old(db).max_idle(),
            ),
            final(db).max_idle() == old(db).max_idle(),
            final(db).driver_view() == old(db).driver_view(),
            final(db).name_view() == old(db).name_view(),
            final(db).url_view() == old(db).url_view(),
    {
        if self.refs == 0 {
            self.res = None;
            self.conn = None;
            return;
        }
        if self.refs > 1 {
            self.refs = self.refs - 1;
            return;
        }
        {
            // the driver object is dropped before its connection moves on
            let mut res = None;
            std::mem::swap(&mut self.res, &mut res);
        }
        let mut conn = None;
        std::mem::swap(&mut self.conn, &mut conn);
        self.refs = 0;
        if let Some(c) = conn {
            if self.to_pool {
                db.release_conn(c);
            }
        }
    }
}

/// Releasing the references of a resource one by one, starting from `refs`
/// references that own connection `c` to be returned: no release but the
/// last hands anything to the pool, and the last hands it `c`, once.
pub proof fn lemma_returned_once<C>(refs: nat, c: C, idle: Seq<C>, cap: nat, k: nat)
    requires
        refs >= 1,
    ensures
        k < refs ==> idle_after_drops(refs, Some(c), true, idle, cap, k) == idle,
        k >= refs ==> idle_after_drops(refs, Some(c), true, idle, cap, k) == released(idle, cap, c),
    decreases k,
{
    if k > 0 {
        if refs == 1 {
            lemma_nothing_held(released(idle, cap, c), cap, (k - 1) as nat);
        } else {
            lemma_returned_once((refs - 1) as nat, c, idle, cap, (k - 1) as nat);
        }
    }
}

/// Once no reference is left, further releases leave the pool alone.
pub proof fn lemma_nothing_held<C>(idle: Seq<C>, cap: nat, k: nat)
    ensures
        idle_after_drops(0, None::<C>, true, idle, cap, k) == idle,
    decreases k,
{
    if k > 0 {
        lemma_nothing_held(idle, cap, (k - 1) as nat);
    }
}

} // verus!
