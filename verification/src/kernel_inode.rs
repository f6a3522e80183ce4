//! Host-layer inode handles and the mapper that exposes device blocks as
//! in-memory bytes.

use crate::kernel_fs::{FileSystem, Offset};
use crate::kernel_types::{Error, ERANGE};
use vstd::prelude::*;

verus! {

/// An inode handle as the host hands it back: either one that already
/// exists in its cache, or a fresh one still to be initialized.
#[verifier::reject_recursive_types(T)]
pub enum INodeState<T: FileSystem> {
    Existing(INode<T>),
    Uninitilized(New<T>),
}

/// An initialized inode handle.
#[verifier::reject_recursive_types(T)]
pub struct INode<T: FileSystem> {
    pub ino: usize,
    pub data: Option<T::INodeData>,
}

impl<T: FileSystem> INode<T> {
    pub fn new(ino: usize, data: Option<T::INodeData>) -> (r: Self)
        ensures
            r.ino == ino,
            r.data == data,
    {
        Self { ino, data }
    }
}

/// An inode handle not yet initialized by the filesystem.
#[verifier::reject_recursive_types(T)]
pub struct New<T: FileSystem> {
    pub ino: usize,
    pub data: Option<T::INodeData>,
}

impl<T: FileSystem> New<T> {
    pub fn new(ino: usize, data: Option<T::INodeData>) -> (r: Self)
        ensures
            r.ino == ino,
            r.data == data,
    {
        Self { ino, data }
    }
}

/// Maps a byte range of the device backing one inode into memory.
#[verifier::reject_recursive_types(T)]
pub struct Mapper<T: FileSystem> {
    pub inode: INode<T>,
    pub begin: Offset,
    pub end: Offset,
}

/// One in-memory snapshot of a mapped page.
pub struct Mapped {
    data: Vec<u8>,
    len: usize,
}

impl Mapped {
    /// The mapped bytes.
    pub closed spec fn spec_data(&self) -> Seq<u8> {
        self.data@
    }

    /// How many of the bytes are meaningful.
    pub closed spec fn spec_len(&self) -> int {
        self.len as int
    }
}

impl<T: FileSystem> Mapper<T> {
    /// Hands out one page of the mapped range as an in-memory snapshot; an
    /// offset outside `[begin, end)` is rejected.
    pub fn mapped_folio(&self, offset: Offset) -> (r: Result<Mapped, Error>)
        ensures
            match r {
                Ok(m) => self.begin <= offset < self.end && m.spec_len() == 4096
                    && m.spec_data().len() == 4096,
                Err(e) => e == Error(ERANGE) && (offset < self.begin || offset >= self.end),
            },
    {
        if offset < self.begin || offset >= self.end {
            return Err(Error(ERANGE));
        }
        let mut data: Vec<u8> = Vec::new();
        let mut i: usize = 0;
        while i < 4096
            invariant
                i <= 4096,
                data@.len() == i,
            decreases 4096 - i,
        {
            data.push(0u8);
            i = i + 1;
        }
        Ok(Mapped { data, len: 4096 })
    }
}

} // verus!
