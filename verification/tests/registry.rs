use std::cell::Cell;
use std::sync::Arc;
use std::sync::Mutex;

use generic_global_variables::get_or_init_step;
use generic_global_variables::Entry;
use generic_global_variables::GenericGlobal;
use generic_global_variables::Table;

#[test]
fn entry_wraps_a_shared_allocation() {
    let payload = Arc::new(10u32);
    let e = Entry::new(payload.clone());
    assert_eq!(*e.value(), 10);
    assert_eq!(Arc::strong_count(&payload), 2);
    let d = e.clone();
    assert_eq!(Arc::strong_count(&payload), 3);
    assert_eq!(*d.value(), 10);
    drop(e);
    drop(d);
    assert_eq!(Arc::strong_count(&payload), 1);
}

#[test]
fn new_registry_is_empty() {
    let g = GenericGlobal::new();
    let runs = Cell::new(0u32);
    let e = g.get_or_init::<u32, _>(|| {
        runs.set(runs.get() + 1);
        5u32
    });
    assert_eq!(runs.get(), 1);
    assert_eq!(*e.value(), 5);
}

#[test]
fn second_call_reuses_first_value() {
    let g = GenericGlobal::new();
    let runs = Cell::new(0u32);
    let e1 = g.get_or_init::<u32, _>(|| {
        runs.set(runs.get() + 1);
        41u32
    });
    let e2 = g.get_or_init::<u32, _>(|| {
        runs.set(runs.get() + 1);
        99u32
    });
    assert_eq!(*e1.value(), 41);
    assert_eq!(*e2.value(), 41);
    assert_eq!(runs.get(), 1);
}

#[test]
fn second_factory_never_runs() {
    let g = GenericGlobal::new();
    let e1 = g.get_or_init::<i32, _>(|| 42i32);
    let second_ran = Cell::new(false);
    let e2 = g.get_or_init::<i32, _>(|| {
        second_ran.set(true);
        99i32
    });
    assert_eq!(*e1.value(), 42);
    assert_eq!(*e2.value(), 42);
    assert!(!second_ran.get());
}

#[test]
fn distinct_types_are_isolated() {
    let g = GenericGlobal::new();
    let a1 = g.get_or_init::<u32, _>(|| 1u32);
    let b1 = g.get_or_init::<String, _>(|| String::from("first"));
    let a2 = g.get_or_init::<u32, _>(|| 2u32);
    let b2 = g.get_or_init::<String, _>(|| String::from("second"));
    assert_eq!(*a1.value(), 1);
    assert_eq!(*a2.value(), 1);
    assert_eq!(b1.value(), "first");
    assert_eq!(b2.value(), "first");
}

#[test]
fn downcast_recovers_each_type_correctly() {
    let g = GenericGlobal::new();
    let n = g.get_or_init::<u64, _>(|| 7u64);
    let s = g.get_or_init::<String, _>(|| String::from("seven"));
    let v = g.get_or_init::<Vec<u8>, _>(|| vec![7u8]);
    assert_eq!(*n.value(), 7u64);
    assert_eq!(s.value(), "seven");
    assert_eq!(v.value().as_slice(), &[7u8]);
}

#[test]
fn value_is_shared_not_copied() {
    let g = GenericGlobal::new();
    let mut handles: Vec<Entry<Mutex<Vec<u64>>>> = Vec::new();
    for _ in 0..24 {
        handles.push(g.get_or_init::<Mutex<Vec<u64>>, _>(|| Mutex::new(Vec::new())));
    }
    for (i, h) in handles.iter().enumerate() {
        h.value().lock().unwrap().push(i as u64);
    }
    for h in &handles {
        let seen = h.value().lock().unwrap();
        assert_eq!(seen.len(), 24);
        for i in 0..24u64 {
            assert_eq!(seen.iter().filter(|&&x| x == i).count(), 1);
        }
    }
}

#[test]
fn factory_runs_once_over_many_calls() {
    let g = GenericGlobal::new();
    let constructions = Cell::new(0u32);
    for _ in 0..1000 {
        let e = g.get_or_init::<u8, _>(|| {
            constructions.set(constructions.get() + 1);
            3u8
        });
        assert_eq!(*e.value(), 3);
    }
    assert_eq!(constructions.get(), 1);
}

#[test]
fn cloned_handles_reference_one_value() {
    let g = GenericGlobal::new();
    let e1 = g.get_or_init::<Mutex<u32>, _>(|| Mutex::new(0u32));
    let e2 = e1.clone();
    *e1.value().lock().unwrap() = 17;
    assert_eq!(*e2.value().lock().unwrap(), 17);
}

#[test]
fn entry_outlives_registry() {
    let e = {
        let g = GenericGlobal::new();
        g.get_or_init::<u32, _>(|| 9u32)
    };
    assert_eq!(*e.value(), 9);
}

#[test]
fn step_on_a_table_is_insert_if_absent() {
    let mut t = Table::new();
    let e1 = get_or_init_step::<u32, _>(&mut t, || 5u32);
    assert_eq!(*e1.value(), 5);
    let ran = Cell::new(false);
    let e2 = get_or_init_step::<u32, _>(&mut t, || {
        ran.set(true);
        9u32
    });
    assert_eq!(*e2.value(), 5);
    assert!(!ran.get());
    let e3 = get_or_init_step::<String, _>(&mut t, || String::from("kept"));
    assert_eq!(e3.value(), "kept");
    assert_eq!(*e1.value(), 5);
}

#[test]
fn handles_dereference_to_the_value() {
    let g = GenericGlobal::new();
    let e = g.get_or_init::<u32, _>(|| 8u32);
    assert_eq!(*e, 8);
    let m = g.get_or_init::<Mutex<u32>, _>(|| Mutex::new(1u32));
    *m.lock().unwrap() = 2;
    assert_eq!(*m.lock().unwrap(), 2);
}

#[test]
fn default_registry_is_empty_too() {
    let g = GenericGlobal::default();
    let e = g.get_or_init::<u16, _>(|| 11u16);
    assert_eq!(*e.value(), 11);
}
