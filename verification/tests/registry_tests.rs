use std::cell::RefCell;

use scoped::DeferCallback;
use scoped::Deferring;
use scoped::Failure;

#[test]
fn result_and_option_classification() {
    assert!(!Ok::<i32, i32>(1).is_error());
    assert!(Err::<i32, i32>(2).is_error());
    assert!(!Some(3).is_error());
    assert!(None::<i32>.is_error());
}

#[test]
fn registry_drains_in_reverse_and_only_once() {
    let log: RefCell<Vec<u8>> = RefCell::new(Vec::new());
    let cb = |p: (u8, &RefCell<Vec<u8>>)| p.1.borrow_mut().push(p.0);
    let mut d = Deferring::new();
    assert_eq!(d.push((1, &log), cb), 0);
    assert_eq!(d.push((2, &log), cb), 1);
    assert_eq!(d.push((3, &log), cb), 2);
    let _ = d.execute();
    assert_eq!(*log.borrow(), vec![3, 2, 1]);
    let _ = d.execute();
    assert_eq!(*log.borrow(), vec![3, 2, 1]);
}

#[test]
fn empty_registry_drain_is_a_noop() {
    let mut d: Deferring<u8, fn(u8)> = Deferring::default();
    let _ = d.execute();
    let _ = d.execute();
}

#[test]
fn payload_stays_readable_and_writable_under_growth() {
    let mut d: Deferring<u8, fn(u8)> = Deferring::new();
    let h = d.push(7, |_x| {});
    assert_eq!(*d.payload(h), 7);
    *d.payload_mut(h) = 9;
    let h2 = d.push(8, |_x| {});
    assert_eq!(*d.payload(h), 9);
    assert_eq!(*d.payload(h2), 8);
    let _ = d.execute();
}

#[test]
fn defer_callback_runs_once_with_its_payload() {
    let log: RefCell<Vec<u8>> = RefCell::new(Vec::new());
    let entry = DeferCallback::new((5, &log), |p: (u8, &RefCell<Vec<u8>>)| {
        p.1.borrow_mut().push(p.0)
    });
    entry.call();
    assert_eq!(*log.borrow(), vec![5]);
}
