use lazy_mt::{lazy, Evaluate, Thunk};
use std::cell::Cell;
use std::rc::Rc;

#[test]
fn deferred_force_then_read() {
    let count = Rc::new(Cell::new(0u32));
    let c = count.clone();
    let t = lazy(move || {
        c.set(c.get() + 1);
        7u32
    });
    assert_eq!(count.get(), 0);
    t.force();
    assert_eq!(count.get(), 1);
    assert_eq!(t.get(), 7);
    assert_eq!(t.get(), 7);
    assert_eq!(count.get(), 1);
}

#[test]
fn pre_evaluated_reads_immediately() {
    let t = if false {
        lazy(|| panic!())
    } else {
        Thunk::evaluated(10u32)
    };
    assert_eq!(t.get(), 10);
}

#[test]
fn repeated_force_is_noop() {
    let count = Rc::new(Cell::new(0u32));
    let c = count.clone();
    let t = lazy(move || {
        c.set(c.get() + 1);
        11u32
    });
    t.force();
    t.force();
    t.force();
    assert_eq!(t.get(), 11);
    assert_eq!(t.get(), 11);
    assert_eq!(count.get(), 1);
}

#[test]
fn read_through_matches_evaluator_result() {
    let t = lazy(|| 6u32 * 7);
    assert_eq!(t.get(), 42);
}

#[test]
fn pre_evaluated_equivalent_to_forced_deferred() {
    let direct: Thunk<fn() -> u32, u32> = Thunk::evaluated(5);
    let deferred = lazy(|| 5u32);
    assert_eq!(direct.get(), deferred.get());
    assert_eq!(direct.get(), 5);
}

#[test]
fn mutate_after_force() {
    let mut t = lazy(|| 3u32);
    t.force();
    t.set(5);
    assert_eq!(t.get(), 5);
}

#[test]
fn set_runs_pending_evaluator_first() {
    let count = Rc::new(Cell::new(0u32));
    let c = count.clone();
    let mut t = lazy(move || {
        c.set(c.get() + 1);
        1u32
    });
    t.set(9);
    assert_eq!(count.get(), 1);
    assert_eq!(t.get(), 9);
    assert_eq!(count.get(), 1);
}

#[test]
fn new_takes_any_evaluator() {
    let t = Thunk::new(|| 13u32);
    t.force();
    assert_eq!(t.get(), 13);
}

#[test]
fn evaluate_consumes_and_produces() {
    let e = || 3u32;
    assert_eq!(e.evaluate(), 3);
}

#[test]
fn composite_value_read_whole() {
    let t = lazy(|| (1u32, 2u64));
    assert_eq!(t.get(), (1, 2));
}
