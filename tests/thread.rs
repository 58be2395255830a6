use horizon_sys::guard;
use horizon_sys::thread::{
    create_status, effective_stack_size, SpawnError, Thread, DEFAULT_MIN_STACK_SIZE,
};

#[test]
fn stack_size_has_a_floor() {
    assert_eq!(effective_stack_size(0), DEFAULT_MIN_STACK_SIZE);
    assert_eq!(effective_stack_size(1024), 4096);
    assert_eq!(effective_stack_size(4096), 4096);
    assert_eq!(effective_stack_size(65536), 65536);
    assert_eq!(effective_stack_size(usize::MAX), usize::MAX);
}

#[test]
fn null_handle_is_resource_exhaustion() {
    assert_eq!(Thread::new(0).err(), Some(SpawnError::ResourceExhausted));
    let t = Thread::new(0x1234).ok().unwrap();
    assert_eq!(t.id(), 0x1234);
    assert_eq!(t.into_id(), 0x1234);
}

#[test]
fn creation_status_codes() {
    assert_eq!(create_status(4), Ok(()));
    assert_eq!(create_status(1), Err(SpawnError::Busy));
    assert_eq!(create_status(2), Err(SpawnError::InvalidArgument));
    assert_eq!(create_status(3), Err(SpawnError::ResourceExhausted));
    assert_eq!(create_status(5), Err(SpawnError::TimedOut));
    assert_eq!(create_status(0), Err(SpawnError::Other(0)));
    assert_eq!(create_status(-7), Err(SpawnError::Other(-7)));
}

#[test]
fn exhaustion_status_yields_no_thread() {
    assert_eq!(Thread::from_status(3, 99).err(), Some(SpawnError::ResourceExhausted));
    assert_eq!(Thread::from_status(9, 99).err(), Some(SpawnError::Other(9)));
    let t = Thread::from_status(4, 99).ok().unwrap();
    assert_eq!(t.id(), 99);
}

#[test]
fn sleep_converts_exactly_when_it_fits() {
    assert_eq!(Thread::sleep_nanos(0, 0), 0);
    assert_eq!(Thread::sleep_nanos(1, 500), 1_000_000_500);
    assert_eq!(Thread::sleep_nanos(0, 999_999_999), 999_999_999);
    assert_eq!(Thread::sleep_nanos(9_223_372_036, 854_775_807), i64::MAX);
    assert_eq!(Thread::sleep_nanos(9_223_372_036, 854_775_806), i64::MAX - 1);
}

#[test]
fn sleep_saturates_near_the_maximum() {
    assert_eq!(Thread::sleep_nanos(9_223_372_036, 854_775_808), i64::MAX);
    assert_eq!(Thread::sleep_nanos(9_223_372_037, 0), i64::MAX);
    assert_eq!(Thread::sleep_nanos(u64::MAX, 999_999_999), i64::MAX);
    assert!(Thread::sleep_nanos(u64::MAX / 2, 0) > 0);
}

#[test]
fn yield_and_join_status() {
    assert_eq!(Thread::yield_nanos(), 0);
    assert!(Thread::join_succeeded(0));
    assert!(!Thread::join_succeeded(1));
    assert!(!Thread::join_succeeded(-1));
    Thread::set_name("worker");
}

#[test]
fn no_guard_pages() {
    assert_eq!(guard::current(), None);
    assert_eq!(guard::init(), None);
}
