use lazy_regex::cell::{Access, LatchState, InitError, LazyCell};

#[test]
fn fresh_cell_is_not_started() {
    let c: LazyCell<u64> = LazyCell::new();
    assert_eq!(c.state(), LatchState::NotStarted);
    assert_eq!(c.init_runs(), 0);
    assert!(c.get().is_none());
}

#[test]
fn get_or_init_stores_initializer_value() {
    let mut c: LazyCell<u64> = LazyCell::new();
    let mut calls = 0;
    let r = c.get_or_init(|| {
        calls += 1;
        Some(42)
    });
    assert_eq!(r, Ok(&42));
    assert_eq!(calls, 1);
    assert_eq!(c.state(), LatchState::Done);
    assert_eq!(c.init_runs(), 1);
    assert_eq!(c.get(), Some(&42));
    assert_eq!(*c.value(), 42);
}

#[test]
fn repeated_calls_return_same_value_without_reinit() {
    let mut c: LazyCell<String> = LazyCell::new();
    let mut calls = 0;
    let first = c
        .get_or_init(|| {
            calls += 1;
            Some(String::from("first"))
        })
        .unwrap()
        .clone();
    for _ in 0..10 {
        let r = c
            .get_or_init(|| {
                calls += 1;
                Some(String::from("second"))
            })
            .unwrap();
        assert_eq!(r, "first");
        assert_eq!(*r, first);
    }
    assert_eq!(calls, 1);
    assert_eq!(c.init_runs(), 1);
}

#[test]
fn racing_callers_share_one_initialization() {
    let mut c: LazyCell<u64> = LazyCell::new();
    let mut constructions = 0;
    let mut accesses = Vec::new();
    for _ in 0..100 {
        accesses.push(c.arrive());
    }
    assert_eq!(accesses[0], Access::RunInitializer);
    assert!(accesses[1..].iter().all(|a| *a == Access::Wait));
    assert_eq!(c.state(), LatchState::Running);
    constructions += 1;
    assert_eq!(c.complete(Some(7)), Ok(()));
    for _ in 1..100 {
        assert_eq!(c.arrive(), Access::Ready);
        assert_eq!(*c.value(), 7);
    }
    assert_eq!(constructions, 1);
    assert_eq!(c.init_runs(), 1);
}

#[test]
fn hundred_callers_construct_once() {
    let mut c: LazyCell<u64> = LazyCell::new();
    let mut constructions = 0;
    let mut seen = Vec::new();
    for _ in 0..100 {
        let v = c
            .get_or_init(|| {
                constructions += 1;
                Some(99)
            })
            .unwrap();
        seen.push(*v);
    }
    assert_eq!(constructions, 1);
    assert!(seen.iter().all(|v| *v == 99));
    assert_eq!(seen.len(), 100);
}

#[test]
fn failed_initializer_poisons_cell() {
    let mut c: LazyCell<u64> = LazyCell::new();
    let mut calls = 0;
    let r = c.get_or_init(|| {
        calls += 1;
        None
    });
    assert_eq!(r, Err(InitError::InitializationFailure));
    let r2 = c.get_or_init(|| {
        calls += 1;
        Some(1)
    });
    assert_eq!(r2, Err(InitError::InitializationFailure));
    assert_eq!(calls, 1);
    assert_eq!(c.init_runs(), 1);
    assert_eq!(c.state(), LatchState::Poisoned);
    assert!(c.get().is_none());
}

#[test]
fn waiting_and_later_callers_see_failure() {
    let mut c: LazyCell<u64> = LazyCell::new();
    assert_eq!(c.arrive(), Access::RunInitializer);
    assert_eq!(c.arrive(), Access::Wait);
    assert_eq!(c.arrive(), Access::Wait);
    assert_eq!(c.complete(None), Err(InitError::InitializationFailure));
    for _ in 0..5 {
        assert_eq!(c.arrive(), Access::Failed);
    }
    assert_eq!(c.state(), LatchState::Poisoned);
    assert_eq!(c.init_runs(), 1);
}

#[test]
fn complete_success_makes_cell_ready() {
    let mut c: LazyCell<u64> = LazyCell::new();
    assert_eq!(c.arrive(), Access::RunInitializer);
    assert_eq!(c.init_runs(), 1);
    assert_eq!(c.complete(Some(3)), Ok(()));
    assert_eq!(c.state(), LatchState::Done);
    assert_eq!(c.arrive(), Access::Ready);
    assert_eq!(c.get(), Some(&3));
}
