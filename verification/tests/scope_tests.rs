use std::cell::Cell;
use std::cell::RefCell;

use scoped::Guard;
use scoped::ScopeResult;
use scoped::scoped;

#[test]
fn main_test() {
    let number = Cell::new(0);

    let n = scoped(|guard| {
        let n = Some(1);

        guard.on_scope_success(&number, move |b: &Cell<i32>| {
            assert!(2 == b.get());
            b.set(0);
        });

        guard.on_scope_failure(&number, move |b: &Cell<i32>| {
            b.set(-1);
        });

        guard.on_scope_exit(&number, move |b: &Cell<i32>| {
            b.set(0);
        });

        number.set(2);

        n
    });

    assert!(number.get() == 0);
    assert_eq!(n, Some(1));
}

#[test]
fn test_list() {
    let mut v = vec![1, 2, 3, 4, 5];
    let _scope = scoped::<&mut Vec<i32>, _, (), fn(()), Box<i32>, _, Option<i32>, _>(|guard| {
        let vh = guard.on_scope_success(&mut v, |v: &mut Vec<i32>| {
            println!("SUCCES!");

            assert_eq!(*v, vec![1, 2, 3, 4, 5, 6, 7]);

            v.push(10);
        });

        let bh = guard.on_scope_exit(Box::new(1), move |boxed: Box<i32>| {
            assert_eq!(*boxed, 12);
        });

        guard.success_payload_mut(vh).push(6);
        guard.success_payload_mut(vh).push(7);

        **guard.exit_payload_mut(bh) = 12;

        Some(10)
    });
}

#[test]
fn success_runs_success_then_exit() {
    let log: RefCell<Vec<&str>> = RefCell::new(Vec::new());
    let out = scoped(|guard| {
        guard.on_scope_success(&log, |l: &RefCell<Vec<&str>>| l.borrow_mut().push("success"));
        guard.on_scope_failure(&log, |l: &RefCell<Vec<&str>>| l.borrow_mut().push("failure"));
        guard.on_scope_exit(&log, |l: &RefCell<Vec<&str>>| l.borrow_mut().push("exit"));
        Ok::<(), ()>(())
    });
    assert_eq!(out, Ok(()));
    assert_eq!(*log.borrow(), vec!["success", "exit"]);
}

#[test]
fn failure_runs_failure_then_exit() {
    let log: RefCell<Vec<&str>> = RefCell::new(Vec::new());
    let out = scoped(|guard| {
        guard.on_scope_success(&log, |l: &RefCell<Vec<&str>>| l.borrow_mut().push("success"));
        guard.on_scope_failure(&log, |l: &RefCell<Vec<&str>>| l.borrow_mut().push("failure"));
        guard.on_scope_exit(&log, |l: &RefCell<Vec<&str>>| l.borrow_mut().push("exit"));
        None::<i32>
    });
    assert_eq!(out, None);
    assert_eq!(*log.borrow(), vec!["failure", "exit"]);
}

#[test]
fn exit_callbacks_run_in_reverse_order() {
    let log: RefCell<Vec<char>> = RefCell::new(Vec::new());
    let cb = |p: (char, &RefCell<Vec<char>>)| p.1.borrow_mut().push(p.0);
    let out = scoped::<(), fn(()), (), fn(()), _, _, Option<i32>, _>(|guard| {
        guard.on_scope_exit(('A', &log), cb);
        guard.on_scope_exit(('B', &log), cb);
        guard.on_scope_exit(('C', &log), cb);
        Some(1)
    });
    assert_eq!(out, Some(1));
    assert_eq!(*log.borrow(), vec!['C', 'B', 'A']);
}

#[test]
fn no_registrations_returns_value_untouched() {
    let out = scoped::<(), fn(()), (), fn(()), (), fn(()), Result<i32, ()>, _>(|_guard| Ok(5));
    assert_eq!(out, Ok(5));
}

#[test]
fn payload_mutation_is_seen_by_callback() {
    let seen: RefCell<Vec<i32>> = RefCell::new(Vec::new());
    let cb = |p: (i32, &RefCell<Vec<i32>>)| p.1.borrow_mut().push(p.0);
    let out = scoped::<_, _, (), fn(()), (), fn(()), Option<i32>, _>(|guard| {
        let h = guard.on_scope_success((1, &seen), cb);
        guard.success_payload_mut(h).0 = 42;
        guard.on_scope_success((2, &seen), cb);
        guard.on_scope_success((3, &seen), cb);
        assert_eq!(guard.success_payload(h).0, 42);
        Some(0)
    });
    assert_eq!(out, Some(0));
    assert_eq!(*seen.borrow(), vec![3, 2, 42]);
}

#[test]
fn error_only_outcome_passes_through() {
    let log: RefCell<Vec<&str>> = RefCell::new(Vec::new());
    let out: ScopeResult<String> = scoped::<(), fn(()), _, _, (), fn(()), _, _>(|guard| {
        guard.on_scope_failure(&log, |l: &RefCell<Vec<&str>>| l.borrow_mut().push("failure"));
        Err("boom".to_string())
    });
    assert_eq!(out, Err("boom".to_string()));
    assert_eq!(*log.borrow(), vec!["failure"]);
}
