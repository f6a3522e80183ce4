//! Error codes and small helper types shared with the host layer.

use core::marker::PhantomData;
use vstd::prelude::*;

verus! {

/// No such file or directory; also reported for an unusable listing cursor.
pub const ENOENT: i32 = 2;

/// I/O-class failure, such as a corrupt record reached through a directory.
pub const EIO: i32 = 5;

/// Validation failure, such as a superblock with the wrong magic number.
pub const EINVAL: i32 = 22;

/// Resource exhaustion: no free inode or data block is left.
pub const ENOSPC: i32 = 28;

/// An index or range outside the declared capacity.
pub const ERANGE: i32 = 34;

/// A name longer than the directory entry filename buffer.
pub const ENAMETOOLONG: i32 = 36;

/// A typed error code returned by every fallible operation of this core.
#[derive(Clone, Copy, Debug, PartialEq, Eq, Structural)]
pub struct Error(pub i32);

/// A value together with a marker for the semaphore class that guards it.
pub struct Locked<T, L> {
    inner: T,
    lock: PhantomData<L>,
}

impl<T, L> Locked<T, L> {
    /// The guarded value.
    pub closed spec fn spec_inner(&self) -> T {
        self.inner
    }

    pub fn new(inner: T) -> (r: Self)
        ensures
            r.spec_inner() == inner,
    {
        Self { inner, lock: PhantomData }
    }

    pub fn get(&self) -> (r: &T)
        ensures
            *r == self.spec_inner(),
    {
        &self.inner
    }
}

/// Marker for read-side semaphore protection.
pub struct ReadSem;

/// Marker for write-side semaphore protection.
pub struct WriteSem;

} // verus!
