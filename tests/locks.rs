use futex_sync::rwlock::{MAX_READERS, WRITE_LOCKED};
use futex_sync::{
    CondVar, LockAttempt, LockState, Mutex, ReadAttempt, RwLock, Wake, WriteAttempt,
};

#[test]
fn lock_state_words() {
    assert_eq!(LockState::Unlocked.word(), 0);
    assert_eq!(LockState::LockedNoWaiters.word(), 1);
    assert_eq!(LockState::LockedWithWaiters.word(), 2);
    assert_eq!(LockState::from_word(2), Some(LockState::LockedWithWaiters));
    assert_eq!(LockState::from_word(0), Some(LockState::Unlocked));
    assert_eq!(LockState::from_word(3), None);
}

#[test]
fn uncontended_lock_needs_no_wake() {
    let mut m = Mutex::new(0u32);
    let g = m.try_lock(1).unwrap();
    assert_eq!(g.thread(), 1);
    assert_eq!(m.state_word(), 1);
    assert_eq!(m.unlock(g), Wake::Nothing);
    assert_eq!(m.state_word(), 0);
}

#[test]
fn second_thread_is_kept_out_and_woken() {
    let mut m = Mutex::new(0u32);
    let g = m.try_lock(1).unwrap();
    assert!(m.try_lock(2).is_none());
    assert!(matches!(m.lock_contended(2), LockAttempt::Park { expected: 2 }));
    assert_eq!(m.state_word(), 2);
    assert_eq!(m.unlock(g), Wake::One);
    let g2 = match m.lock_contended(2) {
        LockAttempt::Acquired(g) => g,
        LockAttempt::Park { .. } => panic!("lock was free"),
    };
    assert_eq!(g2.thread(), 2);
    // The slow path leaves the word marked contended, so this unlock wakes.
    assert_eq!(m.unlock(g2), Wake::One);
}

#[test]
fn value_written_under_lock_is_seen_by_next_holder() {
    let mut m = Mutex::new(0i32);
    let g = m.try_lock(1).unwrap();
    m.set(&g, 123);
    m.unlock(g);
    let g = m.try_lock(2).unwrap();
    assert_eq!(*m.get(&g), 123);
}

#[test]
fn notify_without_waiters_is_a_no_op() {
    let mut cv = CondVar::new();
    assert_eq!(cv.notify_one(), Wake::Nothing);
    assert_eq!(cv.notify_all(), Wake::Nothing);
    assert_eq!(cv.generation_word(), 0);
}

#[test]
fn condvar_waiter_sees_value_set_before_notify() {
    let mut m = Mutex::new(0i32);
    let mut cv = CondVar::new();
    let mut wakeups = 0;

    let mut g = m.try_lock(2).unwrap();
    while *m.get(&g) < 100 {
        let (ticket, wake) = cv.wait(&mut m, g);
        assert_eq!(wake, Wake::Nothing);
        assert!(cv.should_park(&ticket));

        // Another thread takes the lock, sets the value and notifies.
        let other = m.try_lock(1).unwrap();
        m.set(&other, 123);
        assert_eq!(cv.notify_one(), Wake::One);
        assert_eq!(m.unlock(other), Wake::Nothing);

        assert!(!cv.should_park(&ticket));
        cv.finish_wait(ticket);
        g = m.try_lock(2).unwrap();
        wakeups += 1;
    }
    assert_eq!(*m.get(&g), 123);
    assert!(wakeups < 10);
}

#[test]
fn notify_all_moves_the_generation() {
    let mut m = Mutex::new(());
    let mut cv = CondVar::new();
    let g = m.try_lock(1).unwrap();
    let (ticket, _) = cv.wait(&mut m, g);
    assert_eq!(ticket.expected(), 0);
    assert_eq!(cv.notify_all(), Wake::All);
    assert_eq!(cv.generation_word(), 1);
    cv.finish_wait(ticket);
    assert_eq!(cv.notify_all(), Wake::Nothing);
}

#[test]
fn readers_share_and_writer_waits_for_last() {
    let mut l = RwLock::new(String::from("v"));
    let r1 = match l.try_read() {
        ReadAttempt::Acquired(g) => g,
        _ => panic!("free lock"),
    };
    let r2 = match l.try_read() {
        ReadAttempt::Acquired(g) => g,
        _ => panic!("readers share"),
    };
    assert_eq!(l.state_word(), 2);
    assert_eq!(l.read_value(&r1), "v");
    assert!(matches!(l.try_write(), WriteAttempt::Park { expected: 0 }));
    assert_eq!(l.read_unlock(r1), Wake::Nothing);
    assert_eq!(l.writer_wake_word(), 0);
    assert_eq!(l.read_unlock(r2), Wake::One);
    assert_eq!(l.writer_wake_word(), 1);
    assert!(matches!(l.try_write(), WriteAttempt::Acquired(_)));
    assert_eq!(l.state_word(), WRITE_LOCKED);
}

#[test]
fn writer_excludes_readers_and_wakes_all() {
    let mut l = RwLock::new(1u64);
    let w = match l.try_write() {
        WriteAttempt::Acquired(g) => g,
        WriteAttempt::Park { .. } => panic!("free lock"),
    };
    assert!(matches!(l.try_read(), ReadAttempt::Park { expected: WRITE_LOCKED }));
    assert!(matches!(l.try_write(), WriteAttempt::Park { expected: 0 }));
    l.set(&w, 9);
    assert_eq!(*l.write_value(&w), 9);
    assert_eq!(l.write_unlock(w), (Wake::One, Wake::All));
    assert_eq!(l.state_word(), 0);
    assert_eq!(l.writer_wake_word(), 1);
    let r = match l.try_read() {
        ReadAttempt::Acquired(g) => g,
        _ => panic!("free lock"),
    };
    assert_eq!(*l.read_value(&r), 9);
}

#[test]
fn reader_bound_stays_below_the_write_sentinel() {
    assert_eq!(MAX_READERS, u32::MAX - 1);
    assert_eq!(WRITE_LOCKED, u32::MAX);
}
