use rdbc::driver::{Driver, RDBCError};
use rdbc::{ConnectionPool, Database};

struct IdDriver {
    next: u32,
    fail: bool,
}

impl Driver for IdDriver {
    type Conn = u32;

    fn open(&mut self, _url: &str) -> Result<u32, RDBCError> {
        if self.fail {
            return Err(RDBCError::NativeError(7, "refused".to_owned()));
        }
        self.next += 1;
        Ok(1000 + self.next)
    }
}

fn pool(cap: usize) -> Database<IdDriver> {
    Database::with_max_idle_conns("mock".to_owned(), IdDriver { next: 0, fail: false }, "mock://".to_owned(), cap)
}

#[test]
fn new_pool_is_empty_with_default_capacity() {
    let db = Database::new("mock".to_owned(), IdDriver { next: 0, fail: false }, "mock://".to_owned()).unwrap();
    assert_eq!(db.idle_len(), 0);
    assert_eq!(db.max_idle_conns(), 100);
}

#[test]
fn get_conn_on_empty_pool_opens_new() {
    let mut db = pool(3);
    assert_eq!(db.get_conn().unwrap(), 1001);
    assert_eq!(db.get_conn().unwrap(), 1002);
    assert_eq!(db.idle_len(), 0);
}

#[test]
fn get_conn_propagates_open_failure() {
    let mut db = Database::with_max_idle_conns("mock".to_owned(), IdDriver { next: 0, fail: true }, "u".to_owned(), 2);
    match db.get_conn() {
        Err(RDBCError::NativeError(code, msg)) => {
            assert_eq!(code, 7);
            assert_eq!(msg, "refused");
        }
        _ => panic!("open failure must propagate"),
    }
}

#[test]
fn releases_below_capacity_keep_release_order() {
    let mut db = pool(5);
    db.release_conn(1);
    db.release_conn(2);
    db.release_conn(3);
    assert_eq!(db.idle_len(), 3);
    assert_eq!(db.get_conn().unwrap(), 1);
    assert_eq!(db.get_conn().unwrap(), 2);
    assert_eq!(db.get_conn().unwrap(), 3);
    assert_eq!(db.idle_len(), 0);
    assert_eq!(db.get_conn().unwrap(), 1001);
}

#[test]
fn release_into_full_pool_evicts_oldest() {
    let mut db = pool(3);
    for c in 1..=3 {
        db.release_conn(c);
    }
    assert_eq!(db.idle_len(), 3);
    db.release_conn(4);
    assert_eq!(db.idle_len(), 3);
    db.release_conn(5);
    assert_eq!(db.idle_len(), 3);
    assert_eq!(db.get_conn().unwrap(), 3);
    assert_eq!(db.get_conn().unwrap(), 4);
    assert_eq!(db.get_conn().unwrap(), 5);
}

#[test]
fn capacity_two_release_a_b_c() {
    let (a, b, c) = (10, 20, 30);
    let mut db = pool(2);
    db.release_conn(a);
    db.release_conn(b);
    db.release_conn(c);
    assert_eq!(db.idle_len(), 2);
    assert_eq!(db.get_conn().unwrap(), b);
    assert_eq!(db.idle_len(), 1);
    assert_eq!(db.get_conn().unwrap(), c);
    assert_eq!(db.idle_len(), 0);
}

#[test]
fn capacity_one_keeps_latest() {
    let mut db = pool(1);
    db.release_conn(1);
    db.release_conn(2);
    assert_eq!(db.idle_len(), 1);
    assert_eq!(db.get_conn().unwrap(), 2);
}
