//! The host layer's superblock wrapper, with a type-state marker that tells
//! whether the per-mount data is initialized.

use core::marker::PhantomData;
use crate::kernel_fs::FileSystem;
use crate::kernel_inode::{INodeState, New as NewINode};
use crate::kernel_types::Error;
use vstd::prelude::*;

verus! {

/// Marker trait for superblock states whose per-mount data is initialized.
pub trait DataInited {

}

/// How a filesystem sits on its backing store.
pub enum Type {
    Independent,
    BlockDev,
}

/// Type-state marker: a superblock still being filled at mount time.
pub struct New;

/// Type-state marker: a superblock whose mount has completed.
pub struct Ready;

impl DataInited for Ready {

}

/// Host-private superblock internals; empty at this layer.
pub struct Inner;

/// The host's superblock wrapper around a filesystem's per-mount data.
pub struct SuperBlock<T: FileSystem, S> {
    magic: usize,
    data: T::Data,
    state: PhantomData<S>,
}

impl<T: FileSystem> SuperBlock<T, New> {
    /// The magic number recorded for this mount.
    pub closed spec fn spec_magic(&self) -> usize {
        self.magic
    }

    /// The per-mount data.
    pub closed spec fn spec_data(&self) -> T::Data {
        self.data
    }

    pub fn new(data: T::Data) -> (r: Self)
        ensures
            r.spec_magic() == 0,
            r.spec_data() == data,
    {
        Self { magic: 0, data, state: PhantomData }
    }

    pub fn magic(&self) -> (r: usize)
        ensures
            r == self.spec_magic(),
    {
        self.magic
    }

    pub fn set_magic(&mut self, magic: usize)
        ensures
            final(self).spec_magic() == magic,
            final(self).spec_data() == old(self).spec_data(),
    {
        self.magic = magic;
    }

    /// Consumes the mount-time superblock and marks it ready for use.
    pub fn ready(self) -> (r: SuperBlock<T, Ready>)
        ensures
            r.ready_magic() == self.spec_magic(),
            r.ready_data() == self.spec_data(),
    {
        SuperBlock { magic: self.magic, data: self.data, state: PhantomData }
    }
}

impl<T: FileSystem> SuperBlock<T, Ready> {
    /// The magic number recorded for this mount.
    pub closed spec fn ready_magic(&self) -> usize {
        self.magic
    }

    /// The per-mount data.
    pub closed spec fn ready_data(&self) -> T::Data {
        self.data
    }
}

impl<T: FileSystem, S: DataInited> SuperBlock<T, S> {
    /// Looks inode `ino` up in the host's cache, or hands back a fresh,
    /// uninitialized handle for it; nothing is cached at this layer, so the
    /// fresh handle is what every call returns.
    pub fn get_or_create_inode(ino: usize) -> (r: Result<INodeState<T>, Error>)
        ensures
            r matches Ok(st) && st matches INodeState::Uninitilized(n) && n.ino == ino
                && n.data is None,
    {
        Ok(INodeState::Uninitilized(NewINode::new(ino, None)))
    }
}

} // verus!
