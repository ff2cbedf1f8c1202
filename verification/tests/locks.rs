use alkyn::sync::{
    LockTable, LockToken, Mutex, SioLocks, Spinlock, LOCK_ALLOC, LOCK_COUNT, LOCK_UNOWNED,
    SYNC_LOCK,
};

#[test]
fn empty_lock_names_the_reserved_slot() {
    let l = Spinlock::empty();
    assert_eq!(l.lock, LockToken(SYNC_LOCK as u8));
}

#[test]
fn allocation_takes_lowest_free_slot_and_deinit_returns_it() {
    let mut table = LockTable::new();
    let mut sio = SioLocks::new();
    let a = Spinlock::new(&mut table).expect("slot 0");
    let b = Spinlock::new(&mut table).expect("slot 1");
    assert_eq!(a.lock, LockToken(0));
    assert_eq!(b.lock, LockToken(1));
    assert_eq!(table.owners[0], LOCK_ALLOC);
    assert_eq!(table.owners[1], LOCK_ALLOC);

    let returned = a.deinit(&mut table, &mut sio);
    assert_eq!(returned, LockToken(0));
    assert_eq!(table.owners[0], LOCK_UNOWNED);

    // The freed slot is handed out again.
    let c = Spinlock::new(&mut table).expect("slot 0 again");
    assert_eq!(c.lock, LockToken(0));
}

#[test]
fn allocation_fails_when_pool_is_exhausted() {
    let mut table = LockTable::new();
    for i in 0..LOCK_COUNT {
        let l = Spinlock::new(&mut table).expect("free slot");
        assert_eq!(l.lock, LockToken(i as u8));
    }
    assert!(Spinlock::new(&mut table).is_none());
}

#[test]
fn claims_on_the_same_lock_exclude_each_other() {
    // The instrumented exclusion check: once one core's claim succeeds,
    // the other core's attempts fail until the release.
    let mut sio = SioLocks::new();
    let mut table = LockTable::new();
    let l = Spinlock::new(&mut table).expect("slot");
    assert!(l.try_claim(&mut sio).is_some());
    assert!(l.try_claim(&mut sio).is_none());
    assert!(l.try_claim(&mut sio).is_none());
    l.release(&mut sio);
    assert!(l.try_claim(&mut sio).is_some());
    l.release(&mut sio);
}

#[test]
fn distinct_locks_do_not_exclude_each_other() {
    let mut sio = SioLocks::new();
    let mut table = LockTable::new();
    let a = Spinlock::new(&mut table).expect("slot 0");
    let b = Spinlock::new(&mut table).expect("slot 1");
    assert!(a.try_claim(&mut sio).is_some());
    assert!(b.try_claim(&mut sio).is_some());
    a.release(&mut sio);
    b.release(&mut sio);
}

#[test]
fn critical_section_runs_body_with_lock_held_and_releases() {
    let mut sio = SioLocks::new();
    let mut table = LockTable::new();
    let l = Spinlock::new(&mut table).expect("slot");
    let shared = Mutex::new(10u32);
    let read = l.critical_section(&mut sio, |token| *shared.borrow(&token) + 1);
    assert_eq!(read, 11);
    // The register is free again: a fresh claim succeeds.
    assert!(l.try_claim(&mut sio).is_some());
    l.release(&mut sio);
}

#[test]
fn mutex_borrow_hands_out_the_guarded_value() {
    let m = Mutex::new(String::from("guarded"));
    let token = LockToken(3);
    assert_eq!(m.borrow(&token), &String::from("guarded"));
}
