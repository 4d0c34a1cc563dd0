use sims_core::guard::{AcquireOutcome, ConnectionGuard};

#[test]
fn first_borrower_must_connect() {
    let mut g = ConnectionGuard::new();
    assert!(!g.handle_present());
    assert_eq!(g.try_acquire(), AcquireOutcome::NeedConnect);
}

#[test]
fn the_slot_is_exclusive_while_borrowed() {
    let mut g = ConnectionGuard::new();
    assert_eq!(g.try_acquire(), AcquireOutcome::NeedConnect);
    // a second borrower never gets the slot while the first holds it:
    // an in-use counter around the borrow would never exceed one
    let mut borrowers = 1;
    for _ in 0..3 {
        if g.try_acquire() != AcquireOutcome::Busy {
            borrowers += 1;
        }
        assert!(borrowers <= 1);
    }
    assert!(g.connect_finished(true));
    g.release(false);
    assert_eq!(g.try_acquire(), AcquireOutcome::Ready);
}

#[test]
fn a_failed_establishment_abandons_the_borrow() {
    let mut g = ConnectionGuard::new();
    assert_eq!(g.try_acquire(), AcquireOutcome::NeedConnect);
    assert!(!g.connect_finished(false));
    // the slot is free again and still empty
    assert!(!g.is_borrowed());
    assert!(!g.handle_present());
    assert_eq!(g.try_acquire(), AcquireOutcome::NeedConnect);
}

#[test]
fn the_handle_survives_an_ordinary_release() {
    let mut g = ConnectionGuard::new();
    g.try_acquire();
    g.connect_finished(true);
    g.release(false);
    assert!(g.handle_present());
    assert_eq!(g.try_acquire(), AcquireOutcome::Ready);
}

#[test]
fn a_fatal_fault_empties_the_slot() {
    let mut g = ConnectionGuard::new();
    g.try_acquire();
    g.connect_finished(true);
    g.release(true);
    assert!(!g.handle_present());
    assert_eq!(g.try_acquire(), AcquireOutcome::NeedConnect);
}
