//! Lock domains and the cells they guard.
//!
//! A lock domain stands for the lock of one document. Every cell remembers the
//! domain that made it, and gives its content out only against a guard of that
//! same domain. The cell checks which domain a guard comes from; that no write
//! guard is alive beside other guards is the duty of whoever schedules the
//! traversals.
use vstd::prelude::*;

verus! {

/// A lock domain: a shared read/write lock that many cells can belong to.
///
/// A domain is known by its identity. Copies of a `SharedRwLock` are handles
/// to one domain, and two handles are the same domain exactly when their
/// identities are equal.
#[derive(Clone, Copy, Debug, PartialEq, Eq, Structural)]
pub struct SharedRwLock {
    id: u64,
}

/// Proof of shared access to the cells of one lock domain.
pub struct SharedRwLockReadGuard<'a> {
    lock: &'a SharedRwLock,
}

/// Proof of exclusive access to the cells of one lock domain.
pub struct SharedRwLockWriteGuard<'a> {
    lock: &'a SharedRwLock,
}

/// A value that is readable and writable only with a guard of the lock domain
/// that wrapped it.
#[derive(Debug)]
pub struct Locked<T> {
    pub(crate) shared_lock: SharedRwLock,
    pub(crate) data: T,
}

/// A source of lock domains: every domain that it makes has an identity that
/// none of the domains it made before has.
#[derive(Debug)]
pub struct LockDomains {
    next: u64,
}

impl LockDomains {
    /// How many domains the source has made.
    pub closed spec fn made(&self) -> nat {
        self.next as nat
    }

    /// Whether the source has made the domain with the given identity.
    pub open spec fn has_made(&self, domain: u64) -> bool {
        domain < self.made()
    }

    /// A source that has made no domain yet.
    pub fn new() -> (domains: LockDomains)
        ensures
            domains.made() == 0,
    {
        LockDomains { next: 0 }
    }

    /// A new lock domain, unless the identities have run out. Its identity
    /// is one that this source had not made before, and that it has made from
    /// now on, beside those it had made.
    pub fn create(&mut self) -> (lock: Option<SharedRwLock>)
        ensures
            match lock {
                Some(lock) => !old(self).has_made(lock.domain()) && final(self).has_made(lock.domain())
                    && final(self).made() == old(self).made() + 1,
                None => old(self).made() == u64::MAX && final(self).made() == old(self).made(),
            },
    {
        if self.next == u64::MAX {
            None
        } else {
            let lock = SharedRwLock { id: self.next };
            self.next = self.next + 1;
            Some(lock)
        }
    }
}

impl SharedRwLock {
    /// The identity of the domain.
    pub closed spec fn domain(&self) -> u64 {
        self.id
    }

    /// A handle to the lock domain with the given identity. Domains with
    /// identities that differ from each other come from `LockDomains`.
    pub fn new(id: u64) -> (lock: SharedRwLock)
        ensures
            lock.domain() == id,
    {
        SharedRwLock { id }
    }

    /// The identity of the domain.
    pub fn id(&self) -> (id: u64)
        ensures
            id == self.domain(),
    {
        self.id
    }

    /// Whether both handles name one domain.
    pub fn same_lock_as(&self, other: &SharedRwLock) -> (same: bool)
        ensures
            same == (self.domain() == other.domain()),
    {
        self.id == other.id
    }

    /// Wrap the given data to make its access protected by this lock.
    pub fn wrap<T>(&self, data: T) -> (cell: Locked<T>)
        ensures
            cell.domain() == self.domain(),
            cell.value() == data,
    {
        Locked { shared_lock: SharedRwLock { id: self.id }, data }
    }

    /// Obtain the lock for reading.
    pub fn read(&self) -> (guard: SharedRwLockReadGuard<'_>)
        ensures
            guard.domain() == self.domain(),
    {
        SharedRwLockReadGuard { lock: self }
    }

    /// Obtain the lock for writing.
    pub fn write(&self) -> (guard: SharedRwLockWriteGuard<'_>)
        ensures
            guard.domain() == self.domain(),
    {
        SharedRwLockWriteGuard { lock: self }
    }
}

impl<'a> SharedRwLockReadGuard<'a> {
    /// The identity of the domain that issued this guard.
    pub closed spec fn domain(&self) -> u64 {
        self.lock.domain()
    }

    /// Whether this guard was issued by the given lock domain.
    pub fn is_from(&self, lock: &SharedRwLock) -> (same: bool)
        ensures
            same == (self.domain() == lock.domain()),
    {
        self.lock.id == lock.id
    }
}

impl<'a> SharedRwLockWriteGuard<'a> {
    /// The identity of the domain that issued this guard.
    pub closed spec fn domain(&self) -> u64 {
        self.lock.domain()
    }

    /// Whether this guard was issued by the given lock domain.
    pub fn is_from(&self, lock: &SharedRwLock) -> (same: bool)
        ensures
            same == (self.domain() == lock.domain()),
    {
        self.lock.id == lock.id
    }
}

impl<T> Locked<T> {
    /// The identity of the domain that owns this cell.
    pub open(crate) spec fn domain(&self) -> u64 {
        self.shared_lock.domain()
    }

    /// What the cell holds.
    pub open(crate) spec fn value(&self) -> T {
        self.data
    }

    /// Whether this cell belongs to the given lock domain.
    pub fn same_lock_as(&self, lock: &SharedRwLock) -> (same: bool)
        ensures
            same == (self.domain() == lock.domain()),
    {
        self.shared_lock.same_lock_as(lock)
    }

    /// Whether the guard opens this cell.
    pub fn is_guarded_by(&self, guard: &SharedRwLockReadGuard) -> (same: bool)
        ensures
            same == (self.domain() == guard.domain()),
    {
        guard.is_from(&self.shared_lock)
    }

    /// Access the data for reading.
    ///
    /// The guard must come from the domain of this cell: to present a guard of
    /// another domain is an error of the caller, and no value is given for it.
    pub fn read_with<'a>(&'a self, guard: &'a SharedRwLockReadGuard) -> (data: &'a T)
        requires
            self.domain() == guard.domain(),
        ensures
            *data == self.value(),
    {
        &self.data
    }

    /// Access the data for reading, if the guard comes from the domain of this
    /// cell. A guard of any other domain gets nothing.
    pub fn try_read_with<'a>(&'a self, guard: &'a SharedRwLockReadGuard) -> (data: Option<&'a T>)
        ensures
            self.domain() == guard.domain() ==> data == Some(&self.value()),
            self.domain() != guard.domain() ==> data is None,
    {
        if guard.is_from(&self.shared_lock) {
            Some(&self.data)
        } else {
            None
        }
    }

    /// Access the data for writing.
    ///
    /// The guard must come from the domain of this cell. What the caller
    /// leaves behind the returned reference is the new content of the cell,
    /// which stays in its domain.
    pub fn write_with<'a>(&'a mut self, guard: &'a mut SharedRwLockWriteGuard) -> (data: &'a mut T)
        requires
            old(self).domain() == old(guard).domain(),
        ensures
            *data == old(self).value(),
            final(self).value() == *final(data),
            final(self).domain() == old(self).domain(),
            final(guard).domain() == old(guard).domain(),
    {
        &mut self.data
    }

    /// Replace the data, if the guard comes from the domain of this cell.
    /// With a guard of any other domain the cell is left as it is and the
    /// value comes back.
    pub fn try_write_with(&mut self, guard: &mut SharedRwLockWriteGuard, value: T) -> (refused: Option<T>)
        ensures
            final(self).domain() == old(self).domain(),
            final(guard).domain() == old(guard).domain(),
            old(self).domain() == old(guard).domain() ==> refused is None && final(self).value() == value,
            old(self).domain() != old(guard).domain() ==> refused == Some(value) && final(self).value()
                == old(self).value(),
    {
        if guard.is_from(&self.shared_lock) {
            self.data = value;
            None
        } else {
            Some(value)
        }
    }
}

} // verus!
