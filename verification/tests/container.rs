use di_container::Container;
use di_container::Instance;
use di_container::ResolveError;
use std::any::TypeId;
use std::sync::atomic::AtomicUsize;
use std::sync::atomic::Ordering;
use std::sync::Arc;

struct Test {
    test_true: Arc<TestInjectableTrue>,
    test_false: Arc<TestInjectableFalse>,
}

struct TestInjectableTrue {
    meh_true: bool,
    extra_data: u8,
}

impl TestInjectableTrue {
    pub fn new() -> Self {
        TestInjectableTrue { meh_true: true, extra_data: 10 }
    }

    pub fn ret_bool(&self) -> bool {
        self.meh_true
    }

    pub fn ret_data(&self) -> u8 {
        self.extra_data
    }
}

struct TestInjectableFalse {
    extra_data: i64,
    meh_false: bool,
}

impl TestInjectableFalse {
    pub fn new() -> Self {
        TestInjectableFalse { meh_false: false, extra_data: 100 }
    }

    pub fn ret_bool(&self) -> bool {
        self.meh_false
    }

    pub fn ret_data(&self) -> i64 {
        self.extra_data
    }
}

#[test]
fn it_works() {
    let container = Container::default();
    container.add::<TestInjectableTrue, _>(|| Instance::new(TestInjectableTrue::new()));
    container.add::<TestInjectableFalse, _>(|| Instance::new(TestInjectableFalse::new()));

    let test = Test {
        test_true: container.get().unwrap(),
        test_false: container.get().unwrap(),
    };

    assert_eq!(test.test_true.ret_bool(), true);
    assert_eq!(test.test_true.ret_data(), 10);
    assert_eq!(test.test_false.ret_bool(), false);
    assert_eq!(test.test_false.ret_data(), 100);

    let test2 = Test {
        test_true: container.get().unwrap(),
        test_false: container.get().unwrap(),
    };

    assert_eq!(test2.test_true.ret_bool(), true);
    assert_eq!(test2.test_true.ret_data(), 10);
    assert_eq!(test2.test_false.ret_bool(), false);
    assert_eq!(test2.test_false.ret_data(), 100);
}

#[test]
#[should_panic]
fn it_should_panic_on_type_mismatch() {
    let container = Container::default();
    container.add::<TestInjectableFalse, _>(|| Instance::new(TestInjectableTrue::new()));
    container.add::<TestInjectableTrue, _>(|| Instance::new(TestInjectableFalse::new()));

    let _ = Test {
        test_true: container.get().unwrap(),
        test_false: container.get().unwrap(),
    };
}

#[test]
fn mismatch_names_requested_and_found_type() {
    let container = Container::new();
    container.add::<TestInjectableFalse, _>(|| Instance::new(TestInjectableTrue::new()));

    let expected = ResolveError::TypeMismatch {
        requested: TypeId::of::<TestInjectableFalse>(),
        found: TypeId::of::<TestInjectableTrue>(),
    };
    assert_eq!(container.get::<TestInjectableFalse>().err(), Some(expected));
    // The wrongly typed instance stays, and every later request fails alike.
    assert_eq!(container.get::<TestInjectableFalse>().err(), Some(expected));
    assert!(container.is_ready(TypeId::of::<TestInjectableFalse>()));
    assert!(expected.is_type_mismatch());
    assert_eq!(expected.requested(), TypeId::of::<TestInjectableFalse>());
}

#[test]
fn unregistered_type_fails_and_leaves_others_alone() {
    let container = Container::new();
    container.add::<TestInjectableTrue, _>(|| Instance::new(TestInjectableTrue::new()));

    let expected = ResolveError::UnregisteredKey { requested: TypeId::of::<TestInjectableFalse>() };
    assert_eq!(container.get::<TestInjectableFalse>().err(), Some(expected));
    assert!(!expected.is_type_mismatch());
    assert_eq!(expected.requested(), TypeId::of::<TestInjectableFalse>());
    assert_eq!(container.pending_keys(), vec![TypeId::of::<TestInjectableTrue>()]);
    assert!(container.ready_keys().is_empty());
    assert_eq!(container.get::<TestInjectableTrue>().unwrap().ret_data(), 10);
}

#[test]
fn empty_container_resolves_nothing() {
    let container = Container::default();
    assert!(container.get::<u8>().is_err());
    assert!(container.pending_keys().is_empty());
    assert!(container.ready_keys().is_empty());
    assert!(!container.is_ready(TypeId::of::<u8>()));
}

#[test]
fn factory_runs_once_and_handles_share_one_instance() {
    let calls = Arc::new(AtomicUsize::new(0));
    let seen = Arc::clone(&calls);
    let container = Container::new();
    container.add::<TestInjectableTrue, _>(move || {
        seen.fetch_add(1, Ordering::SeqCst);
        Instance::new(TestInjectableTrue::new())
    });
    assert_eq!(calls.load(Ordering::SeqCst), 0);

    let first = container.get::<TestInjectableTrue>().unwrap();
    let second = container.get::<TestInjectableTrue>().unwrap();
    let third = container.get::<TestInjectableTrue>().unwrap();

    assert_eq!(calls.load(Ordering::SeqCst), 1);
    assert!(Arc::ptr_eq(&first, &second));
    assert!(Arc::ptr_eq(&second, &third));
}

#[test]
fn first_resolution_moves_key_from_pending_to_ready() {
    let key = TypeId::of::<TestInjectableTrue>();
    let container = Container::new();
    container.add::<TestInjectableTrue, _>(|| Instance::new(TestInjectableTrue::new()));
    assert_eq!(container.pending_keys(), vec![key]);
    assert!(container.ready_keys().is_empty());
    assert!(!container.is_ready(key));

    container.get::<TestInjectableTrue>().unwrap();

    assert!(container.pending_keys().is_empty());
    assert_eq!(container.ready_keys(), vec![key]);
    assert!(container.is_ready(key));
}

#[test]
fn later_registration_replaces_pending_factory() {
    let container = Container::new();
    container.add::<u32, _>(|| Instance::new(1u32)).add::<u32, _>(|| Instance::new(2u32));
    assert_eq!(container.pending_keys().len(), 1);
    assert_eq!(*container.get::<u32>().unwrap(), 2);
}

#[test]
fn registration_after_resolution_is_never_consulted() {
    let calls = Arc::new(AtomicUsize::new(0));
    let seen = Arc::clone(&calls);
    let container = Container::new();
    container.add::<u32, _>(|| Instance::new(7u32));
    let first = container.get::<u32>().unwrap();

    container.add::<u32, _>(move || {
        seen.fetch_add(1, Ordering::SeqCst);
        Instance::new(8u32)
    });
    let second = container.get::<u32>().unwrap();

    assert_eq!(*second, 7);
    assert!(Arc::ptr_eq(&first, &second));
    assert_eq!(calls.load(Ordering::SeqCst), 0);
    assert_eq!(container.pending_keys(), vec![TypeId::of::<u32>()]);
}

#[test]
fn resolving_one_type_does_not_touch_another() {
    let calls = Arc::new(AtomicUsize::new(0));
    let seen = Arc::clone(&calls);
    let container = Container::new();
    container.add::<u32, _>(|| Instance::new(5u32));
    container.add::<String, _>(move || {
        seen.fetch_add(1, Ordering::SeqCst);
        Instance::new(String::from("text"))
    });

    assert_eq!(*container.get::<u32>().unwrap(), 5);

    assert_eq!(calls.load(Ordering::SeqCst), 0);
    assert_eq!(container.pending_keys(), vec![TypeId::of::<String>()]);
    assert_eq!(container.ready_keys(), vec![TypeId::of::<u32>()]);
    assert_eq!(container.get::<String>().unwrap().as_str(), "text");
    assert_eq!(calls.load(Ordering::SeqCst), 1);
}

#[test]
fn keyed_resolution_checks_the_runtime_type() {
    let container = Container::new();
    container.register(TypeId::of::<u32>(), || Instance::new(9u32));
    container.register(TypeId::of::<u64>(), || Instance::new(9u8));

    let good = container.resolve(TypeId::of::<u32>());
    let typed = di_container::registry::typed::<u32>(good, TypeId::of::<u32>());
    assert_eq!(*typed.unwrap(), 9);

    let bad = container.resolve(TypeId::of::<u64>());
    assert_eq!(
        bad.err(),
        Some(ResolveError::TypeMismatch {
            requested: TypeId::of::<u64>(),
            found: TypeId::of::<u8>(),
        })
    );
    let missing = container.resolve(TypeId::of::<i8>());
    assert_eq!(
        missing.err(),
        Some(ResolveError::UnregisteredKey { requested: TypeId::of::<i8>() })
    );
}

struct Counter {
    value: u32,
}

struct Flag {
    value: bool,
}

#[test]
fn eight_threads_per_type_share_one_construction() {
    let counters = Arc::new(AtomicUsize::new(0));
    let flags = Arc::new(AtomicUsize::new(0));
    let container = Container::new();
    let seen = Arc::clone(&counters);
    container.add::<Counter, _>(move || {
        seen.fetch_add(1, Ordering::SeqCst);
        Instance::new(Counter { value: 0 })
    });
    let seen = Arc::clone(&flags);
    container.add::<Flag, _>(move || {
        seen.fetch_add(1, Ordering::SeqCst);
        Instance::new(Flag { value: true })
    });

    let (got_counters, got_flags) = crossbeam_utils::thread::scope(|scope| {
        let mut counter_jobs = Vec::new();
        let mut flag_jobs = Vec::new();
        for _ in 0..8 {
            counter_jobs.push(scope.spawn(|_| container.get::<Counter>().unwrap()));
            flag_jobs.push(scope.spawn(|_| container.get::<Flag>().unwrap()));
        }
        let got_counters: Vec<Arc<Counter>> =
            counter_jobs.into_iter().map(|job| job.join().unwrap()).collect();
        let got_flags: Vec<Arc<Flag>> =
            flag_jobs.into_iter().map(|job| job.join().unwrap()).collect();
        (got_counters, got_flags)
    })
    .unwrap();

    assert_eq!(counters.load(Ordering::SeqCst), 1);
    assert_eq!(flags.load(Ordering::SeqCst), 1);
    assert_eq!(got_counters.len(), 8);
    assert_eq!(got_flags.len(), 8);
    for handle in &got_counters {
        assert_eq!(handle.value, 0);
        assert!(Arc::ptr_eq(handle, &got_counters[0]));
    }
    for handle in &got_flags {
        assert_eq!(handle.value, true);
        assert!(Arc::ptr_eq(handle, &got_flags[0]));
    }
}

#[test]
fn eight_requests_per_type_share_one_construction() {
    let counters = Arc::new(AtomicUsize::new(0));
    let flags = Arc::new(AtomicUsize::new(0));
    let container = Container::new();
    let seen = Arc::clone(&counters);
    container.add::<Counter, _>(move || {
        seen.fetch_add(1, Ordering::SeqCst);
        Instance::new(Counter { value: 0 })
    });
    let seen = Arc::clone(&flags);
    container.add::<Flag, _>(move || {
        seen.fetch_add(1, Ordering::SeqCst);
        Instance::new(Flag { value: true })
    });

    let mut got_counters: Vec<Arc<Counter>> = Vec::new();
    let mut got_flags: Vec<Arc<Flag>> = Vec::new();
    for _ in 0..8 {
        got_counters.push(container.get::<Counter>().unwrap());
        got_flags.push(container.get::<Flag>().unwrap());
    }

    assert_eq!(counters.load(Ordering::SeqCst), 1);
    assert_eq!(flags.load(Ordering::SeqCst), 1);
    for handle in &got_counters {
        assert_eq!(handle.value, 0);
        assert!(Arc::ptr_eq(handle, &got_counters[0]));
    }
    for handle in &got_flags {
        assert_eq!(handle.value, true);
        assert!(Arc::ptr_eq(handle, &got_flags[0]));
    }
}
