//! Core of a minimal single-device filesystem: the fixed on-disk layout
//! (superblock, inode table, directory blocks), bitmap-based allocation of
//! inodes and data blocks, and the directory lookup / listing protocol.

pub mod bitmap;
pub mod defs;
pub mod dir;
pub mod ezfs;
pub mod inode;
pub mod sb;
pub mod kernel_fs;
pub mod kernel_inode;
pub mod kernel_sb;
pub mod kernel_types;
