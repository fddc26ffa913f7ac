use std::cell::{Cell, RefCell};
use std::rc::Rc;

use rdbc::driver::{ArgName, BoxedCallback, ColumnType, ExecResult, RDBCError};
use rdbc::AsyncDriver;

#[test]
fn test_boxed_callback() {
    let boxed = BoxedCallback::new(|v: Result<usize, RDBCError>| {
        assert_eq!(v.unwrap(), 1);
    });

    boxed.invoke(Ok(1));
}

#[test]
fn test_async_driver() {
    let mut driver = AsyncDriver::<u32, u32>::new();

    let woken = driver.callback(Err(RDBCError::NativeError(1, "not found".to_owned())));
    assert!(woken.is_none());

    assert!(driver.poll(0).unwrap().is_err());
}

#[test]
fn invoke_delivers_value_once() {
    let seen = Cell::new(0u64);
    let calls = Cell::new(0u32);
    let boxed = BoxedCallback::new(|v: Result<u64, RDBCError>| {
        seen.set(v.unwrap());
        calls.set(calls.get() + 1);
    });
    boxed.invoke(Ok(42));
    assert_eq!(seen.get(), 42);
    assert_eq!(calls.get(), 1);
}

#[test]
fn poll_before_result_wakes_waiter() {
    let mut bridge = AsyncDriver::<u64, &str>::new();
    assert!(bridge.poll("task").is_none());
    let woken = bridge.callback(Ok(9));
    assert_eq!(woken, Some("task"));
    assert_eq!(bridge.poll("task").unwrap().unwrap(), 9);
    assert!(bridge.poll("task").is_none());
}

#[test]
fn result_before_poll_is_delivered_once() {
    let mut bridge = AsyncDriver::<u64, &str>::new();
    assert_eq!(bridge.callback(Ok(3)), None);
    assert_eq!(bridge.poll("task").unwrap().unwrap(), 3);
    assert!(bridge.poll("task").is_none());
}

#[test]
fn last_registered_waiter_wins() {
    let mut bridge = AsyncDriver::<u64, &str>::new();
    assert!(bridge.poll("first").is_none());
    assert!(bridge.poll("second").is_none());
    assert_eq!(bridge.callback(Ok(1)), Some("second"));
}

/// A statement that needs one bound argument, answering through a handle.
fn execute_mock<F: FnOnce(Result<ExecResult, RDBCError>)>(args: Vec<(ArgName, i64)>, cb: BoxedCallback<F>) {
    if args.is_empty() {
        cb.invoke(Err(RDBCError::BindArgError("insert into t values(?)".to_owned(), "1".to_owned())));
    } else {
        cb.invoke(Ok(ExecResult { last_insert_id: 1, raws_affected: args.len() as u64 }));
    }
}

#[test]
fn execute_without_arguments_propagates_driver_error() {
    let bridge = Rc::new(RefCell::new(AsyncDriver::<ExecResult, ()>::new()));
    let shared = bridge.clone();
    execute_mock(vec![], BoxedCallback::new(move |r| {
        shared.borrow_mut().callback(r);
    }));
    match bridge.borrow_mut().poll(()) {
        Some(Err(RDBCError::BindArgError(stmt, arg))) => {
            assert_eq!(stmt, "insert into t values(?)");
            assert_eq!(arg, "1");
        }
        _ => panic!("the driver error must come through unchanged"),
    }

    let bridge = Rc::new(RefCell::new(AsyncDriver::<ExecResult, ()>::new()));
    let shared = bridge.clone();
    execute_mock(vec![(ArgName::from(1usize), 5)], BoxedCallback::new(move |r| {
        shared.borrow_mut().callback(r);
    }));
    let r = bridge.borrow_mut().poll(()).unwrap().unwrap();
    assert_eq!(r, ExecResult { last_insert_id: 1, raws_affected: 1 });
}

/// A cursor with one column named `id`.
fn get_mock<F: FnOnce(Result<Option<i64>, RDBCError>)>(name: ArgName, _ty: ColumnType, cb: BoxedCallback<F>) {
    match name {
        ArgName::String(s) if s == "id" => cb.invoke(Ok(Some(1))),
        ArgName::String(s) => cb.invoke(Err(RDBCError::UnknownColumn(s))),
        ArgName::Offset(0) => cb.invoke(Ok(None)),
        ArgName::Offset(i) => cb.invoke(Err(RDBCError::OutOfRange(i as u64))),
    }
}

#[test]
fn get_unknown_column_is_an_error_not_null() {
    let bridge = Rc::new(RefCell::new(AsyncDriver::<Option<i64>, ()>::new()));
    let shared = bridge.clone();
    get_mock(ArgName::from("nope".to_owned()), ColumnType::I64, BoxedCallback::new(move |r| {
        shared.borrow_mut().callback(r);
    }));
    match bridge.borrow_mut().poll(()) {
        Some(Err(RDBCError::UnknownColumn(name))) => assert_eq!(name, "nope"),
        _ => panic!("an unknown column must be an error"),
    }

    let bridge = Rc::new(RefCell::new(AsyncDriver::<Option<i64>, ()>::new()));
    let shared = bridge.clone();
    get_mock(ArgName::from(3usize), ColumnType::I64, BoxedCallback::new(move |r| {
        shared.borrow_mut().callback(r);
    }));
    assert!(matches!(bridge.borrow_mut().poll(()), Some(Err(RDBCError::OutOfRange(3)))));
}

#[test]
fn arg_name_from_values() {
    assert!(matches!(ArgName::from(2usize), ArgName::Offset(2)));
    assert!(matches!(ArgName::from("a".to_owned()), ArgName::String(s) if s == "a"));
}
