use safe_transmute::error::{ErrorReason, GuardError};
use safe_transmute::guard::{
    AllOrNothingGuard, Guard, PedanticGuard, PermissiveGuard, SingleManyGuard, SingleValueGuard,
};

#[test]
fn single_value_guard() {
    assert_eq!(SingleValueGuard::check(0, 0), Ok(()));
    assert_eq!(
        SingleValueGuard::check(1, 0),
        Err(GuardError {
            required: 0,
            actual: 1,
            reason: ErrorReason::InexactByteCount,
        })
    );
    assert_eq!(
        SingleValueGuard::check(2, 0),
        Err(GuardError {
            required: 0,
            actual: 2,
            reason: ErrorReason::InexactByteCount,
        })
    );
    assert_eq!(
        SingleValueGuard::check(3, 0),
        Err(GuardError {
            required: 0,
            actual: 3,
            reason: ErrorReason::InexactByteCount,
        })
    );
    assert_eq!(
        SingleValueGuard::check(4, 0),
        Err(GuardError {
            required: 0,
            actual: 4,
            reason: ErrorReason::InexactByteCount,
        })
    );
}

#[test]
fn pedantic_guard() {
    // Zero-sized elements fill no space, so any nonzero length is
    // extraneous data and only the empty buffer passes.
    assert_eq!(PedanticGuard::check(0, 0), Ok(()));
    assert_eq!(
        PedanticGuard::check(1, 0),
        Err(GuardError {
            required: 0,
            actual: 1,
            reason: ErrorReason::InexactByteCount,
        })
    );
    assert_eq!(
        PedanticGuard::check(2, 0),
        Err(GuardError {
            required: 0,
            actual: 2,
            reason: ErrorReason::InexactByteCount,
        })
    );
    assert_eq!(
        PedanticGuard::check(3, 0),
        Err(GuardError {
            required: 0,
            actual: 3,
            reason: ErrorReason::InexactByteCount,
        })
    );
    assert_eq!(
        PedanticGuard::check(4, 0),
        Err(GuardError {
            required: 0,
            actual: 4,
            reason: ErrorReason::InexactByteCount,
        })
    );
}

#[test]
fn all_or_nothing_guard() {
    assert_eq!(AllOrNothingGuard::check(0, 0), Ok(()));
    assert_eq!(AllOrNothingGuard::check(1, 0), Ok(()));
    assert_eq!(AllOrNothingGuard::check(2, 0), Ok(()));
    assert_eq!(AllOrNothingGuard::check(3, 0), Ok(()));
    assert_eq!(AllOrNothingGuard::check(4, 0), Ok(()));
}

#[test]
fn single_many_guard() {
    assert_eq!(SingleManyGuard::check(0, 0), Ok(()));
    assert_eq!(SingleManyGuard::check(1, 0), Ok(()));
    assert_eq!(SingleManyGuard::check(2, 0), Ok(()));
    assert_eq!(SingleManyGuard::check(3, 0), Ok(()));
    assert_eq!(SingleManyGuard::check(4, 0), Ok(()));
}

#[test]
fn permissive_guard() {
    assert_eq!(PermissiveGuard::check(0, 0), Ok(()));
    assert_eq!(PermissiveGuard::check(1, 0), Ok(()));
    assert_eq!(PermissiveGuard::check(2, 0), Ok(()));
    assert_eq!(PermissiveGuard::check(3, 0), Ok(()));
    assert_eq!(PermissiveGuard::check(4, 0), Ok(()));
}

#[test]
fn permissive_guard_accepts_everything() {
    for len in 0..40usize {
        for size in 0..9usize {
            assert_eq!(PermissiveGuard::check(len, size), Ok(()));
        }
    }
}

#[test]
fn pedantic_guard_characterisation() {
    // Shorter than one element: not enough bytes.
    assert_eq!(
        PedanticGuard::check(0, 2),
        Err(GuardError {
            required: 2,
            actual: 0,
            reason: ErrorReason::NotEnoughBytes,
        })
    );
    assert_eq!(
        PedanticGuard::check(1, 2),
        Err(GuardError {
            required: 2,
            actual: 1,
            reason: ErrorReason::NotEnoughBytes,
        })
    );
    // Long enough but not a whole number of elements: inexact byte count.
    assert_eq!(
        PedanticGuard::check(3, 2),
        Err(GuardError {
            required: 2,
            actual: 3,
            reason: ErrorReason::InexactByteCount,
        })
    );
    assert_eq!(
        PedanticGuard::check(7, 2),
        Err(GuardError {
            required: 2,
            actual: 7,
            reason: ErrorReason::InexactByteCount,
        })
    );
    // A whole positive number of elements: accepted.
    assert_eq!(PedanticGuard::check(2, 2), Ok(()));
    assert_eq!(PedanticGuard::check(6, 2), Ok(()));
}

#[test]
fn single_value_guard_characterisation() {
    for len in 0..17usize {
        let r = SingleValueGuard::check(len, 4);
        if len == 4 {
            assert_eq!(r, Ok(()));
        } else {
            assert_eq!(
                r,
                Err(GuardError {
                    required: 4,
                    actual: len,
                    reason: ErrorReason::InexactByteCount,
                })
            );
        }
    }
}

#[test]
fn all_or_nothing_guard_characterisation() {
    assert_eq!(AllOrNothingGuard::check(0, 4), Ok(()));
    assert_eq!(AllOrNothingGuard::check(4, 4), Ok(()));
    assert_eq!(AllOrNothingGuard::check(8, 4), Ok(()));
    assert_eq!(
        AllOrNothingGuard::check(6, 4),
        Err(GuardError {
            required: 4,
            actual: 6,
            reason: ErrorReason::InexactByteCount,
        })
    );
}

#[test]
fn single_many_guard_characterisation() {
    assert_eq!(
        SingleManyGuard::check(0, 2),
        Err(GuardError {
            required: 2,
            actual: 0,
            reason: ErrorReason::NotEnoughBytes,
        })
    );
    assert_eq!(
        SingleManyGuard::check(1, 2),
        Err(GuardError {
            required: 2,
            actual: 1,
            reason: ErrorReason::NotEnoughBytes,
        })
    );
    assert_eq!(SingleManyGuard::check(2, 2), Ok(()));
    assert_eq!(SingleManyGuard::check(3, 2), Ok(()));
}
