use horizon_sys::mutex::{try_lock_succeeded, Mutex, ReentrantMutex};
use horizon_sys::Step;

#[test]
fn mutex_admits_one_holder_at_a_time() {
    let mut m = Mutex::new();
    m.init();
    assert_eq!(m.lock(1), Step::Proceed);
    assert_eq!(m.held_by(), Some(1));
    assert_eq!(m.lock(2), Step::Wait);
    assert!(!m.try_lock(3));
    assert_eq!(m.held_by(), Some(1));
    m.unlock(1);
    assert_eq!(m.held_by(), None);
    assert!(m.try_lock(2));
    assert_eq!(m.held_by(), Some(2));
    m.unlock(2);
    m.destroy();
}

#[test]
fn mutex_is_not_reentrant() {
    let mut m = Mutex::new();
    assert_eq!(m.lock(7), Step::Proceed);
    assert_eq!(m.lock(7), Step::Wait);
    assert!(!m.try_lock(7));
    assert_eq!(m.held_by(), Some(7));
}

#[test]
fn mutex_counter_never_exceeds_one() {
    let mut m = Mutex::new();
    let mut inside: u32 = 0;
    for round in 0..100u64 {
        let t = round % 4;
        let u = (round + 1) % 4;
        if m.try_lock(t) {
            inside += 1;
        }
        if m.try_lock(u) {
            inside += 1;
        }
        assert!(inside <= 1);
        m.unlock(t);
        inside -= 1;
    }
}

#[test]
fn kernel_try_lock_code() {
    assert!(try_lock_succeeded(0));
    assert!(!try_lock_succeeded(1));
    assert!(!try_lock_succeeded(-1));
}

#[test]
fn reentrant_foreign_request_changes_nothing() {
    let mut m = ReentrantMutex::uninitialized();
    assert_eq!(m.held_by(), None);
    assert_eq!(m.lock_depth(), 0);
    m.init();
    assert!(m.try_lock(1));
    assert!(m.try_lock(1));
    assert!(!m.try_lock(2));
    assert_eq!(m.lock(2), Step::Wait);
    assert_eq!(m.held_by(), Some(1));
    assert_eq!(m.lock_depth(), 2);
}

#[test]
fn reentrant_nesting_and_release() {
    let mut m = ReentrantMutex::uninitialized();
    m.init();
    let n: u32 = 5;
    for k in 1..=n {
        assert!(m.try_lock(10));
        assert_eq!(m.lock_depth(), k);
        assert!(!m.try_lock(11));
        assert_eq!(m.lock(12), Step::Wait);
    }
    assert_eq!(m.lock(10), Step::Proceed);
    assert_eq!(m.lock_depth(), n + 1);
    for k in (0..=n).rev() {
        m.unlock(10);
        assert_eq!(m.lock_depth(), k);
        if k > 0 {
            assert_eq!(m.held_by(), Some(10));
            assert!(!m.try_lock(11));
        }
    }
    assert_eq!(m.held_by(), None);
    assert!(m.try_lock(11));
    assert_eq!(m.held_by(), Some(11));
    assert_eq!(m.lock_depth(), 1);
    m.destroy();
}
