use vstd::prelude::*;

verus! {

/// Tells read-write locks apart from plain exclusive locks.
pub trait IsRWLock {
    /// Whether the implementing lock kind admits shared readers.
    spec fn rwlock_spec() -> bool;

    fn is_rwlock() -> (r: bool)
        ensures
            r == Self::rwlock_spec(),
    ;
}

/// Marker for read-write locks.
pub struct RWLockMarker;

/// Marker for plain exclusive locks (spinlocks and mutexes).
pub struct RegularLockMarker;

impl IsRWLock for RWLockMarker {
    open spec fn rwlock_spec() -> bool {
        true
    }

    fn is_rwlock() -> (r: bool) {
        true
    }
}

impl IsRWLock for RegularLockMarker {
    open spec fn rwlock_spec() -> bool {
        false
    }

    fn is_rwlock() -> (r: bool) {
        false
    }
}

/// Records whether a held lock was taken for reading or for writing.
pub struct LockType {
    is_read: bool,
}

impl LockType {
    /// Whether the lock is held for reading.
    pub closed spec fn spec_is_read(&self) -> bool {
        self.is_read
    }

    /// The state of a lock taken for reading when `is_read`, else for writing.
    pub fn new(is_read: bool) -> (r: LockType)
        ensures
            r.spec_is_read() == is_read,
    {
        LockType { is_read }
    }

    /// Returns true if the lock is a read lock, false if it is a write lock.
    pub fn is_read_lock(&self) -> (r: bool)
        ensures
            r == self.spec_is_read(),
    {
        self.is_read
    }
}

} // verus!
