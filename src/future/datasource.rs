//! Registry of drivers by name.

use vstd::prelude::*;

use crate::driver::{Driver, RDBCError};

use super::connpool::ConnectionPool;
use super::database::{Database, DEFAULT_MAX_IDLE_CONNS};

verus! {

/// The registered names.
pub open spec fn names_of<D>(entries: Seq<(Seq<char>, D)>) -> Seq<Seq<char>> {
    entries.map_values(|e: (Seq<char>, D)| e.0)
}

/// Makes drivers available by name; a name is registered at most once.
pub struct DataSource<D> {
    drivers: Vec<(String, D)>,
}

impl<D> DataSource<D> {
    #[verifier::type_invariant]
    spec fn inv(&self) -> bool {
        self.names().no_duplicates()
    }

    /// Registered names with their drivers, in order of registration.
    pub closed spec fn entries(&self) -> Seq<(Seq<char>, D)> {
        self.drivers@.map_values(|e: (String, D)| (e.0@, e.1))
    }

    /// The registered names.
    pub open spec fn names(&self) -> Seq<Seq<char>> {
        names_of(self.entries())
    }

    /// A registry with no driver.
    pub fn new() -> (r: Self)
        ensures
            r.entries() == Seq::<(Seq<char>, D)>::empty(),
    {
        let r = DataSource { drivers: Vec::new() };
        assert(r.entries() =~= Seq::<(Seq<char>, D)>::empty());
        r
    }

    /// Index of the driver registered as `name`.
    fn find(&self, name: &String) -> (r: Option<usize>)
        ensures
            r is None <==> !self.names().contains(name@),
            r is Some ==> r->0 < self.entries().len() && self.entries()[r->0 as int].0 == name@,
    {
        let mut i: usize = 0;
        while i < self.drivers.len()
            invariant
                i <= self.drivers@.len(),
                forall|j: int| 0 <= j < i ==> self.names()[j] != name@,
            decreases self.drivers@.len() - i,
        {
            assert(self.names()[i as int] == self.drivers@[i as int].0@);
            if self.drivers[i].0 == *name {
                return Some(i);
            }
            i = i + 1;
        }
        proof {
            if self.names().contains(name@) {
                let j = choose|j: int| 0 <= j < self.names().len() && self.names()[j] == name@;
                assert(self.names()[j] == name@);
            }
        }
        None
    }

    /// Registers `driver` as `name`. A name that is registered already is
    /// refused, and the registry is left as it was.
    pub fn register(&mut self, name: String, driver: D) -> (r: Result<(), RDBCError>)
        ensures
            final(self).names().no_duplicates(),
            old(self).names().contains(name@) ==> r == Err::<(), RDBCError>(RDBCError::DriverRegistered(name))
                && final(self).entries() == old(self).entries(),
            !old(self).names().contains(name@) ==> r is Ok && final(self).entries() == old(self).entries().push((name@, driver))
                && final(self).names() == old(self).names().push(name@),
    {
        proof { use_type_invariant(&*self); }
        match self.find(&name) {
            Some(_) => Err(RDBCError::DriverRegistered(name)),
            None => {
                let ghost n = name@;
                let mut drivers = Vec::new();
                std::mem::swap(&mut self.drivers, &mut drivers);
                drivers.push((name, driver));
                proof {
                    let e = drivers@.map_values(|e: (String, D)| (e.0@, e.1));
                    assert(e =~= old(self).entries().push((n, driver)));
                    assert(names_of(e) =~= old(self).names().push(n));
                    assert forall|i: int, j: int| 0 <= i < j < names_of(e).len() implies names_of(e)[i] != names_of(e)[j] by {
                        if j == names_of(e).len() - 1 {
                            assert(old(self).names()[i] == names_of(e)[i]);
                        } else {
                            assert(old(self).names()[i] == names_of(e)[i]);
                            assert(old(self).names()[j] == names_of(e)[j]);
                        }
                    }
                }
                self.drivers = drivers;
                assert(self.entries() =~= old(self).entries().push((n, driver)));
                Ok(())
            },
        }
    }

    /// The driver registered as `name`.
    pub open spec fn registered(&self, name: Seq<char>) -> D
        recommends
            self.names().contains(name),
    {
        self.entries()[self.names().index_of(name)].1
    }

    proof fn lemma_registered_at(&self, i: int, name: Seq<char>)
        requires
            self.names().no_duplicates(),
            0 <= i < self.entries().len(),
            self.entries()[i].0 == name,
        ensures
            self.names().contains(name),
            self.registered(name) == self.entries()[i].1,
    {
        assert(self.names()[i] == name);
        let j = self.names().index_of(name);
        assert(0 <= j < self.names().len() && self.names()[j] == name);
        assert(j == i);
    }

    /// Whether a driver is registered as `name`.
    pub fn contains(&self, name: &String) -> (r: bool)
        ensures
            r == self.names().contains(name@),
    {
        self.find(name).is_some()
    }
}

impl<D> Default for DataSource<D> {
    fn default() -> (r: Self)
        ensures
            r.entries() == Seq::<(Seq<char>, D)>::empty(),
    {
        DataSource::new()
    }
}

impl<D: Driver + Clone> DataSource<D> {
    /// Creates a connection pool of type `P` for `url`, on the driver
    /// registered as `name`. An unknown name is refused; otherwise the
    /// outcome is what `P::new` makes of that name, the driver and `url`.
    pub fn open_with<P: ConnectionPool<D>>(&self, name: String, url: String) -> (r: Result<P, RDBCError>)
        ensures
            !self.names().contains(name@) ==> r == Err::<P, RDBCError>(RDBCError::DriverNotFound(name)),
            self.names().contains(name@) ==> exists|d: D|
                call_ensures(D::clone, (&self.registered(name@),), d)
                && call_ensures(P::new, (name, d, url), r),
            r is Ok ==> self.names().contains(name@) && r->Ok_0.pool_driver_name() == name@
                && r->Ok_0.pool_url() == url@,
    {
        proof { use_type_invariant(self); }
        match self.find(&name) {
            Some(i) => {
                proof { self.lemma_registered_at(i as int, name@); }
                let d = self.drivers[i].1.clone();
                let r = P::new(name, d, url);
                r
            },
            None => Err(RDBCError::DriverNotFound(name)),
        }
    }

    /// Creates a default connection pool for `url`, on the driver registered
    /// as `name`: an empty pool under that name and url, or an error if no
    /// driver has that name.
    pub fn open(&self, name: String, url: String) -> (r: Result<Database<D>, RDBCError>)
        ensures
            !self.names().contains(name@) ==> r == Err::<Database<D>, RDBCError>(RDBCError::DriverNotFound(name)),
            self.names().contains(name@) ==> r is Ok
                && r->Ok_0.idle() == Seq::<D::Conn>::empty()
                && r->Ok_0.max_idle() == DEFAULT_MAX_IDLE_CONNS
                && r->Ok_0.name_view() == name@
                && r->Ok_0.url_view() == url@
                && call_ensures(D::clone, (&self.registered(name@),), r->Ok_0.driver_view()),
    {
        proof { use_type_invariant(self); }
        match self.find(&name) {
            Some(i) => {
                proof { self.lemma_registered_at(i as int, name@); }
                let d = self.drivers[i].1.clone();
                Ok(Database::with_max_idle_conns(name, d, url, DEFAULT_MAX_IDLE_CONNS))
            },
            None => Err(RDBCError::DriverNotFound(name)),
        }
    }
}

} // verus!
