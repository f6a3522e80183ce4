//! The host layer's view of a filesystem: the trait a concrete filesystem
//! implements so the host can mount it.

use crate::kernel_inode::Mapper;
use crate::kernel_sb::{New, SuperBlock};
use crate::kernel_types::Error;
use vstd::prelude::*;

verus! {

/// An open file handle; carries no state at this layer.
pub struct File;

/// A byte offset into a device or file.
pub type Offset = i64;

/// A mountable filesystem: per-mount data, per-inode data, and the hook that
/// validates a device and builds the per-mount data.
pub trait FileSystem: Sized {
    /// Per-mount state, built once at mount time.
    type Data;

    /// Per-inode state the filesystem attaches to each inode.
    type INodeData;

    /// Reads and validates the on-device superblock, returning the per-mount
    /// data, or an error when the device is not acceptable.
    fn fill_super(sb: &mut SuperBlock<Self, New>, mapper: Option<Mapper<Self>>) -> Result<
        Self::Data,
        Error,
    >;
}

} // verus!
