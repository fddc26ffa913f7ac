//! The default connection pool: a bounded FIFO queue of idle connections.

use vstd::prelude::*;

use crate::driver::{Driver, RDBCError};

use super::connpool::ConnectionPool;

verus! {

/// How many idle connections a pool keeps unless told otherwise.
pub const DEFAULT_MAX_IDLE_CONNS: usize = 100;

/// Configured lifetime of an idle connection, in seconds (one hour). It is
/// kept as configuration: idle connections leave only under capacity pressure.
pub const DEFAULT_MAX_LIFETIME_SECS: i64 = 3600;

/// The idle queue after `conn` is released into `idle` under capacity `cap`:
/// the oldest entry is evicted first when the queue is full.
pub open spec fn released<C>(idle: Seq<C>, cap: nat, conn: C) -> Seq<C> {
    if idle.len() >= cap {
        idle.drop_first().push(conn)
    } else {
        idle.push(conn)
    }
}

/// The idle queue after each of `conns` is released into `idle`, in order.
pub open spec fn released_all<C>(idle: Seq<C>, cap: nat, conns: Seq<C>) -> Seq<C>
    decreases conns.len(),
{
    if conns.len() == 0 {
        idle
    } else {
        released(released_all(idle, cap, conns.drop_last()), cap, conns.last())
    }
}

/// Releasing no more connections than the capacity into an empty pool keeps
/// every one of them, in release order, so the next reuse takes the first
/// one released and leaves the rest, in order.
pub proof fn lemma_release_in_order<C>(cap: nat, conns: Seq<C>)
    requires
        conns.len() <= cap,
    ensures
        released_all(Seq::<C>::empty(), cap, conns) == conns,
        conns.len() > 0 ==> released_all(Seq::<C>::empty(), cap, conns)[0] == conns[0],
        conns.len() > 0 ==> released_all(Seq::<C>::empty(), cap, conns).drop_first() == conns.drop_first(),
    decreases conns.len(),
{
    if conns.len() > 0 {
        lemma_release_in_order(cap, conns.drop_last());
        assert(conns.drop_last().push(conns.last()) =~= conns);
    }
}

/// Releasing into a full pool evicts exactly the oldest entry before the new
/// one is appended; no release takes a pool within its capacity beyond it.
pub proof fn lemma_capacity<C>(idle: Seq<C>, cap: nat, conn: C)
    requires
        idle.len() <= cap,
        cap >= 1,
    ensures
        idle.len() == cap ==> released(idle, cap, conn) == idle.drop_first().push(conn),
        idle.len() == cap ==> released(idle, cap, conn).len() == cap,
        released(idle, cap, conn).len() <= cap,
{
}

/// Relies on chrono's `Utc::now`: the current time, as microseconds since
/// the Unix epoch. Nothing is promised of its value.
#[verifier::external_body]
fn now_micros() -> i64 {
    chrono::Utc::now().timestamp_micros()
}

/// Idle connections with the time each was released, oldest first, never
/// more than the capacity.
struct IdleQueue<C> {
    entries: Vec<(i64, C)>,
    max: usize,
}

impl<C> IdleQueue<C> {
    #[verifier::type_invariant]
    spec fn inv(&self) -> bool {
        &&& 1 <= self.max
        &&& self.entries@.len() <= self.max
    }

    closed spec fn conns(&self) -> Seq<C> {
        self.entries@.map_values(|e: (i64, C)| e.1)
    }

    closed spec fn cap(&self) -> nat {
        self.max as nat
    }

    fn new(max: usize) -> (r: Self)
        requires
            max >= 1,
        ensures
            r.conns() == Seq::<C>::empty(),
            r.cap() == max,
    {
        let r = IdleQueue { entries: Vec::new(), max };
        assert(r.conns() =~= Seq::<C>::empty());
        r
    }

    fn len(&self) -> (r: usize)
        ensures
            r == self.conns().len(),
            r <= self.cap(),
            1 <= self.cap(),
    {
        proof { use_type_invariant(self); }
        self.entries.len()
    }

    fn max(&self) -> (r: usize)
        ensures
            r == self.cap(),
    {
        self.max
    }

    fn pop_oldest(&mut self) -> (r: Option<C>)
        ensures
            old(self).conns().len() == 0 ==> r is None && final(self).conns() == old(self).conns(),
            old(self).conns().len() > 0 ==> r == Some(old(self).conns()[0]) && final(self).conns()
                == old(self).conns().drop_first(),
            final(self).cap() == old(self).cap(),
    {
        proof { use_type_invariant(&*self); }
        if self.entries.len() == 0 {
            return None;
        }
        let mut entries = Vec::new();
        std::mem::swap(&mut self.entries, &mut entries);
        let (_, conn) = entries.remove(0);
        self.entries = entries;
        assert(self.conns() =~= old(self).conns().drop_first());
        Some(conn)
    }

    fn push(&mut self, conn: C)
        ensures
            final(self).conns() == released(old(self).conns(), old(self).cap(), conn),
            final(self).cap() == old(self).cap(),
            final(self).conns().len() <= final(self).cap(),
    {
        proof { use_type_invariant(&*self); }
        let mut entries = Vec::new();
        std::mem::swap(&mut self.entries, &mut entries);
        if entries.len() == self.max {
            entries.remove(0);
        }
        let at = now_micros();
        entries.push((at, conn));
        self.entries = entries;
        assert(self.conns() =~= released(old(self).conns(), old(self).cap(), conn));
    }
}

/// The default connection pool.
pub struct Database<D: Driver> {
    driver: D,
    url: String,
    conns: IdleQueue<D::Conn>,
    max_lifetime_secs: i64,
    driver_name: String,
}

impl<D: Driver> Database<D> {
    /// Idle connections, oldest release first.
    pub closed spec fn idle(&self) -> Seq<D::Conn> {
        self.conns.conns()
    }

    /// The most idle connections the pool keeps.
    pub closed spec fn max_idle(&self) -> nat {
        self.conns.cap()
    }

    /// The driver new connections are opened through.
    pub closed spec fn driver_view(&self) -> D {
        self.driver
    }

    /// Configured lifetime of an idle connection, in seconds.
    pub closed spec fn max_lifetime(&self) -> i64 {
        self.max_lifetime_secs
    }

    pub closed spec fn name_view(&self) -> Seq<char> {
        self.driver_name@
    }

    pub closed spec fn url_view(&self) -> Seq<char> {
        self.url@
    }

    /// Creates an empty pool that keeps at most `max_idle_conns` idle
    /// connections.
    pub fn with_max_idle_conns(driver_name: String, driver: D, url: String, max_idle_conns: usize) -> (r: Self)
        requires
            max_idle_conns >= 1,
        ensures
            r.idle() == Seq::<D::Conn>::empty(),
            r.max_idle() == max_idle_conns,
            r.driver_view() == driver,
            r.max_lifetime() == DEFAULT_MAX_LIFETIME_SECS,
            r.name_view() == driver_name@,
            r.url_view() == url@,
    {
        Database {
            driver,
            url,
            conns: IdleQueue::new(max_idle_conns),
            max_lifetime_secs: DEFAULT_MAX_LIFETIME_SECS,
            driver_name,
        }
    }

    /// Number of idle connections; never more than the capacity.
    pub fn idle_len(&self) -> (r: usize)
        ensures
            r == self.idle().len(),
            r <= self.max_idle(),
            1 <= self.max_idle(),
    {
        self.conns.len()
    }

    /// The most idle connections the pool keeps.
    pub fn max_idle_conns(&self) -> (r: usize)
        ensures
            r == self.max_idle(),
    {
        self.conns.max()
    }

    /// Configured lifetime of an idle connection, in seconds.
    pub fn max_lifetime_secs(&self) -> (r: i64)
        ensures
            r == self.max_lifetime(),
    {
        self.max_lifetime_secs
    }

    pub fn driver_name(&self) -> (r: &str)
        ensures
            r@ == self.name_view(),
    {
        self.driver_name.as_str()
    }

    pub fn conn_str(&self) -> (r: &str)
        ensures
            r@ == self.url_view(),
    {
        self.url.as_str()
    }
}

impl<D: Driver> ConnectionPool<D> for Database<D> {
    open spec fn pool_driver_name(&self) -> Seq<char> {
        self.name_view()
    }

    open spec fn pool_driver(&self) -> D {
        self.driver_view()
    }

    open spec fn pool_url(&self) -> Seq<char> {
        self.url_view()
    }

    /// A pool with the default capacity; this never fails.
    fn new(driver_name: String, driver: D, url: String) -> (r: Result<Self, RDBCError>)
        ensures
            r is Ok,
            r->Ok_0.idle() == Seq::<D::Conn>::empty(),
            r->Ok_0.max_idle() == DEFAULT_MAX_IDLE_CONNS,
            r->Ok_0.driver_view() == driver,
            r->Ok_0.max_lifetime() == DEFAULT_MAX_LIFETIME_SECS,
            r->Ok_0.name_view() == driver_name@,
            r->Ok_0.url_view() == url@,
    {
        Ok(Database::with_max_idle_conns(driver_name, driver, url, DEFAULT_MAX_IDLE_CONNS))
    }

    /// Reuses the oldest idle connection if there is one; otherwise opens a
    /// new connection through the driver and leaves the idle queue as it was.
    fn get_conn(&mut self) -> (r: Result<D::Conn, RDBCError>)
        ensures
            old(self).idle().len() > 0 ==> r == Ok::<D::Conn, RDBCError>(old(self).idle()[0]),
            old(self).idle().len() > 0 ==> final(self).idle() == old(self).idle().drop_first(),
            old(self).idle().len() > 0 ==> final(self).driver_view() == old(self).driver_view(),
            old(self).idle().len() == 0 ==> final(self).idle() == old(self).idle(),
            final(self).max_idle() == old(self).max_idle(),
            final(self).max_lifetime() == old(self).max_lifetime(),
            final(self).name_view() == old(self).name_view(),
            final(self).url_view() == old(self).url_view(),
    {
        match self.conns.pop_oldest() {
            Some(conn) => Ok(conn),
            None => self.driver.open(self.url.as_str()),
        }
    }

    /// Appends `conn` to the idle queue, evicting the oldest idle
    /// connection first when the queue is full.
    fn release_conn(&mut self, conn: D::Conn)
        ensures
            final(self).idle() == released(old(self).idle(), old(self).max_idle(), conn),
            final(self).idle().len() <= final(self).max_idle(),
            final(self).driver_view() == old(self).driver_view(),
            final(self).max_idle() == old(self).max_idle(),
            final(self).max_lifetime() == old(self).max_lifetime(),
            final(self).name_view() == old(self).name_view(),
            final(self).url_view() == old(self).url_view(),
    {
        self.conns.push(conn);
    }
}

} // verus!
