//! Compiled-in geometry of the filesystem: block size, record sizes, and the
//! table capacities that follow from them.

use vstd::prelude::*;

verus! {

/// Bytes of the filename buffer inside a directory entry: a 128-byte record
/// minus the 8-byte inode number and the 1-byte active flag.
pub const EZFS_FILENAME_BUF_SIZE: usize = 128 - 8 - 1;

/// Longest storable name: one byte of the buffer is reserved for a NUL.
pub const EZFS_FILENAME_LENGTH: usize = EZFS_FILENAME_BUF_SIZE - 1;

/// Value the superblock's magic field must hold for a mount to be accepted.
pub const EZFS_MAGIC_NUMBER: usize = 0x00004118;

/// Logical block size of the device, in bytes.
pub const EZFS_BLOCK_SIZE: usize = 4096;

/// Inode numbers are 1-indexed; the root directory is inode 1.
pub const EZFS_ROOT_INODE_NUMBER: usize = 1;

/// Device block holding the superblock record.
pub const EZFS_SUPERBLOCK_DATABLOCK_NUMBER: usize = 0;

/// Device block holding the inode store.
pub const EZFS_INODE_STORE_DATABLOCK_NUMBER: usize = 1;

/// Device block holding the root directory's entries.
pub const EZFS_ROOT_DATABLOCK_NUMBER: usize = 2;

/// Size in bytes of one on-disk inode record: mode (2, padded to 4), uid (4),
/// gid (4, padded to 8), three 8-byte timestamps, nlink (4, padded to 8),
/// data block number (8), file size (8), block count (8).
pub const EZFS_INODE_SIZE: usize = 72;

/// Size in bytes of one on-disk directory entry record: inode number (8),
/// active flag (1), filename buffer (119).
pub const EZFS_DENTRY_SIZE: usize = 128;

/// The inode store occupies exactly one block, which bounds the inode count.
pub const EZFS_MAX_INODES: usize = EZFS_BLOCK_SIZE / EZFS_INODE_SIZE;

/// Compiled-in maximum number of data blocks the allocator will ever manage.
pub const EZFS_MAX_DATA_BLKS: usize = EZFS_MAX_INODES * 256;

/// A directory's entries live in its single data block, which bounds them.
pub const EZFS_MAX_CHILDREN: usize = EZFS_BLOCK_SIZE / EZFS_DENTRY_SIZE;

/// 32-bit words in the free-inode bitmap.
pub const EZFS_INODE_BITMAP_WORDS: usize = EZFS_MAX_INODES / 32 + 1;

/// 32-bit words in each data-block bitmap.
pub const EZFS_DATA_BITMAP_WORDS: usize = EZFS_MAX_DATA_BLKS / 32 + 1;

} // verus!
