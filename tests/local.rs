use instance_local::{next_id, IdCounter, Local, LocalTable};
use std::cell::Cell;

#[test]
fn next_id_counts_up_from_zero() {
    let mut counter = IdCounter::new();
    assert_eq!(next_id(&mut counter), 0);
    assert_eq!(next_id(&mut counter), 1);
    assert_eq!(next_id(&mut counter), 2);
}

#[test]
fn cell_identity_is_drawn_once() {
    let mut counter = IdCounter::new();
    let mut c1: Local<u32> = Local::new();
    let mut c2: Local<u32> = Local::new();
    assert_eq!(c1.id(&mut counter), 0);
    assert_eq!(c1.id(&mut counter), 0);
    assert_eq!(c2.id(&mut counter), 1);
    assert_eq!(c1.id(&mut counter), 0);
    assert_eq!(c2.id(&mut counter), 1);
    assert_eq!(next_id(&mut counter), 2);
}

#[test]
fn distinct_cells_keep_distinct_values() {
    let mut counter = IdCounter::new();
    let mut cx: LocalTable<u32> = LocalTable::new();
    let mut c1: Local<u32> = Local::new();
    let mut c2: Local<u32> = Local::new();
    assert_eq!(*c1.get_or_init(&mut counter, &mut cx, 1), 1);
    assert_eq!(*c2.get_or_init(&mut counter, &mut cx, 2), 2);
    assert_eq!(c1.get(&mut counter, &cx), Some(&1));
    assert_eq!(c2.get(&mut counter, &cx), Some(&2));
}

#[test]
fn counter_scenario_isolates_instances() {
    let mut counter = IdCounter::new();
    let mut a: LocalTable<u32> = LocalTable::new();
    let b: LocalTable<u32> = LocalTable::new();
    let mut c1: Local<u32> = Local::new();
    assert_eq!(*c1.get_or_init_with(&mut counter, &mut a, || 42), 42);
    assert_eq!(c1.get(&mut counter, &a), Some(&42));
    assert_eq!(c1.get(&mut counter, &b), None);
}

#[test]
fn fallible_scenario_retries_then_sticks() {
    let mut counter = IdCounter::new();
    let mut cx: LocalTable<u32> = LocalTable::new();
    let mut c2: Local<u32> = Local::new();
    let calls = Cell::new(0u32);
    let producer = || {
        calls.set(calls.get() + 1);
        if calls.get() == 1 {
            Err("first call fails")
        } else {
            Ok(7)
        }
    };
    assert_eq!(c2.get_or_try_init(&mut counter, &mut cx, producer), Err("first call fails"));
    assert_eq!(c2.get(&mut counter, &cx), None);
    assert_eq!(c2.get_or_try_init(&mut counter, &mut cx, producer), Ok(&7));
    assert_eq!(c2.get_or_try_init(&mut counter, &mut cx, producer), Ok(&7));
    assert_eq!(calls.get(), 2);
}

#[test]
fn failing_producer_runs_on_every_attempt() {
    let mut counter = IdCounter::new();
    let mut cx: LocalTable<u32> = LocalTable::new();
    let mut c: Local<u32> = Local::new();
    let calls = Cell::new(0u32);
    let failing = || {
        calls.set(calls.get() + 1);
        Err::<u32, u32>(calls.get())
    };
    assert_eq!(c.get_or_try_init(&mut counter, &mut cx, failing), Err(1));
    assert_eq!(c.get_or_try_init(&mut counter, &mut cx, failing), Err(2));
    assert_eq!(c.get_or_try_init(&mut counter, &mut cx, failing), Err(3));
    assert_eq!(c.get(&mut counter, &cx), None);
    assert_eq!(*c.get_or_init(&mut counter, &mut cx, 5), 5);
    assert_eq!(c.get_or_try_init(&mut counter, &mut cx, failing), Ok(&5));
    assert_eq!(calls.get(), 3);
}

#[test]
fn second_access_returns_first_value() {
    let mut counter = IdCounter::new();
    let mut cx: LocalTable<String> = LocalTable::new();
    let mut c: Local<String> = Local::new();
    assert_eq!(c.get_or_init(&mut counter, &mut cx, "first".to_string()), "first");
    assert_eq!(c.get_or_init(&mut counter, &mut cx, "second".to_string()), "first");
    let ran = Cell::new(false);
    let v = c.get_or_init_with(&mut counter, &mut cx, || {
        ran.set(true);
        "third".to_string()
    });
    assert_eq!(v, "first");
    assert!(!ran.get());
    assert_eq!(c.get_or_init_default(&mut counter, &mut cx), "first");
    assert_eq!(c.get(&mut counter, &cx).map(|s| s.as_str()), Some("first"));
}

#[test]
fn default_init_stores_default() {
    let mut counter = IdCounter::new();
    let mut cx: LocalTable<Vec<u8>> = LocalTable::new();
    let mut c: Local<Vec<u8>> = Local::new();
    assert_eq!(c.get(&mut counter, &cx), None);
    assert!(c.get_or_init_default(&mut counter, &mut cx).is_empty());
    assert_eq!(c.get(&mut counter, &cx), Some(&Vec::new()));
}

#[test]
fn get_does_not_initialise() {
    let mut counter = IdCounter::new();
    let mut cx: LocalTable<u64> = LocalTable::new();
    let mut c: Local<u64> = Local::new();
    assert_eq!(c.get(&mut counter, &cx), None);
    assert_eq!(c.get(&mut counter, &cx), None);
    assert_eq!(*c.get_or_init(&mut counter, &mut cx, u64::MAX), u64::MAX);
    assert_eq!(c.get(&mut counter, &cx), Some(&u64::MAX));
}

#[test]
fn table_slots_are_independent() {
    let mut cx: LocalTable<u32> = LocalTable::new();
    assert_eq!(cx.lookup(3), None);
    assert_eq!(*cx.get_or_init(3, 30), 30);
    assert_eq!(*cx.get_or_init(usize::MAX, 9), 9);
    assert_eq!(*cx.get_or_init(3, 31), 30);
    assert_eq!(cx.lookup(3), Some(&30));
    assert_eq!(cx.lookup(4), None);
    assert_eq!(cx.get_or_try_init(4, || Err::<u32, ()>(())), Err(()));
    assert_eq!(cx.lookup(4), None);
    assert_eq!(cx.get_or_try_init(4, || Ok::<u32, ()>(40)), Ok(&40));
    assert_eq!(*cx.get_or_init_with(4, || 41), 40);
    assert_eq!(cx.lookup(usize::MAX), Some(&9));
}

#[test]
fn default_cell_has_no_identity_yet() {
    let mut counter = IdCounter::new();
    assert_eq!(next_id(&mut counter), 0);
    let mut c: Local<u8> = Local::default();
    assert_eq!(c.id(&mut counter), 1);
    assert_eq!(c.id(&mut counter), 1);
}
