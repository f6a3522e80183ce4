//! On-disk inode records, and the inode store: the whole of block 1 viewed
//! as a fixed array of such records.

use crate::defs::{EZFS_INODE_SIZE, EZFS_MAX_INODES};
use vstd::bytes::{
    spec_u16_from_le_bytes, spec_u32_from_le_bytes, spec_u64_from_le_bytes, u16_from_le_bytes,
    u32_from_le_bytes, u64_from_le_bytes,
};
use vstd::prelude::*;
use vstd::slice::slice_subrange;

verus! {

/// One on-disk inode record: ownership, timestamps, and the single data
/// block this inode owns.
#[derive(Copy, Clone, PartialEq, Eq, Structural, Debug)]
pub struct EzfsInode {
    pub mode: u16,
    pub uid: u32,
    pub gid: u32,
    /// Access time, in seconds.
    pub i_atime: i64,
    /// Modification time, in seconds.
    pub i_mtime: i64,
    /// Change time, in seconds.
    pub i_ctime: i64,
    pub nlink: u32,
    pub data_blk_num: u64,
    pub file_size: u64,
    pub nblocks: u64,
}

/// The record decoded from `bytes`, one field at a time, little-endian, at
/// the offsets of the on-disk layout.
pub open spec fn spec_inode_from_bytes(bytes: Seq<u8>) -> EzfsInode
    recommends
        bytes.len() >= EZFS_INODE_SIZE,
{
    EzfsInode {
        mode: spec_u16_from_le_bytes(bytes.subrange(0, 2)),
        uid: spec_u32_from_le_bytes(bytes.subrange(4, 8)),
        gid: spec_u32_from_le_bytes(bytes.subrange(8, 12)),
        i_atime: spec_u64_from_le_bytes(bytes.subrange(16, 24)) as i64,
        i_mtime: spec_u64_from_le_bytes(bytes.subrange(24, 32)) as i64,
        i_ctime: spec_u64_from_le_bytes(bytes.subrange(32, 40)) as i64,
        nlink: spec_u32_from_le_bytes(bytes.subrange(40, 44)),
        data_blk_num: spec_u64_from_le_bytes(bytes.subrange(48, 56)),
        file_size: spec_u64_from_le_bytes(bytes.subrange(56, 64)),
        nblocks: spec_u64_from_le_bytes(bytes.subrange(64, 72)),
    }
}

impl EzfsInode {
    pub fn mode(&self) -> (r: u16)
        ensures
            r == self.mode,
    {
        self.mode
    }

    pub fn uid(&self) -> (r: u32)
        ensures
            r == self.uid,
    {
        self.uid
    }

    pub fn gid(&self) -> (r: u32)
        ensures
            r == self.gid,
    {
        self.gid
    }

    pub fn nlink(&self) -> (r: u32)
        ensures
            r == self.nlink,
    {
        self.nlink
    }

    pub fn data_blk_num(&self) -> (r: u64)
        ensures
            r == self.data_blk_num,
    {
        self.data_blk_num
    }

    pub fn file_size(&self) -> (r: u64)
        ensures
            r == self.file_size,
    {
        self.file_size
    }

    pub fn nblocks(&self) -> (r: u64)
        ensures
            r == self.nblocks,
    {
        self.nblocks
    }

    /// Decodes one record from the front of `bytes`, field by field: the
    /// audited transmutation step at the table boundary.
    pub fn from_bytes(bytes: &[u8]) -> (r: EzfsInode)
        requires
            bytes@.len() >= EZFS_INODE_SIZE,
        ensures
            r == spec_inode_from_bytes(bytes@),
    {
        let atime = u64_from_le_bytes(slice_subrange(bytes, 16, 24));
        let mtime = u64_from_le_bytes(slice_subrange(bytes, 24, 32));
        let ctime = u64_from_le_bytes(slice_subrange(bytes, 32, 40));
        EzfsInode {
            mode: u16_from_le_bytes(slice_subrange(bytes, 0, 2)),
            uid: u32_from_le_bytes(slice_subrange(bytes, 4, 8)),
            gid: u32_from_le_bytes(slice_subrange(bytes, 8, 12)),
            i_atime: #[verifier::truncate] (atime as i64),
            i_mtime: #[verifier::truncate] (mtime as i64),
            i_ctime: #[verifier::truncate] (ctime as i64),
            nlink: u32_from_le_bytes(slice_subrange(bytes, 40, 44)),
            data_blk_num: u64_from_le_bytes(slice_subrange(bytes, 48, 56)),
            file_size: u64_from_le_bytes(slice_subrange(bytes, 56, 64)),
            nblocks: u64_from_le_bytes(slice_subrange(bytes, 64, 72)),
        }
    }
}

/// A whole block interpreted as the fixed array of all inode records,
/// indexed by inode number minus one.
pub struct InodeStore {
    inodes: Vec<EzfsInode>,
}

impl View for InodeStore {
    type V = Seq<EzfsInode>;

    closed spec fn view(&self) -> Seq<EzfsInode> {
        self.inodes@
    }
}

impl InodeStore {
    /// A store always holds exactly the compiled-in number of records.
    pub open spec fn wf(&self) -> bool {
        self@.len() == EZFS_MAX_INODES
    }

    /// Materializes the store from the bytes of the inode-table block; fails
    /// when fewer bytes than the store's size were handed in. Record `k` is
    /// decoded from the `k`-th 72-byte slice.
    pub fn from_bytes(bytes: &[u8]) -> (r: Option<InodeStore>)
        ensures
            match r {
                Some(store) => bytes@.len() >= EZFS_MAX_INODES * EZFS_INODE_SIZE && store.wf()
                    && forall|k: int|
                    0 <= k < EZFS_MAX_INODES ==> store@[k] == spec_inode_from_bytes(
                        bytes@.subrange(k * EZFS_INODE_SIZE, (k + 1) * EZFS_INODE_SIZE),
                    ),
                None => bytes@.len() < EZFS_MAX_INODES * EZFS_INODE_SIZE,
            },
    {
        if bytes.len() < EZFS_MAX_INODES * EZFS_INODE_SIZE {
            return None;
        }
        let mut inodes: Vec<EzfsInode> = Vec::new();
        let mut k: usize = 0;
        while k < EZFS_MAX_INODES
            invariant
                k <= EZFS_MAX_INODES,
                bytes@.len() >= EZFS_MAX_INODES * EZFS_INODE_SIZE,
                inodes@.len() == k,
                forall|j: int|
                    0 <= j < k ==> inodes@[j] == spec_inode_from_bytes(
                        bytes@.subrange(j * EZFS_INODE_SIZE, (j + 1) * EZFS_INODE_SIZE),
                    ),
            decreases EZFS_MAX_INODES - k,
        {
            let rec = slice_subrange(bytes, k * EZFS_INODE_SIZE, (k + 1) * EZFS_INODE_SIZE);
            inodes.push(EzfsInode::from_bytes(rec));
            k = k + 1;
        }
        Some(InodeStore { inodes })
    }

    /// The record of inode number `index + 1`.
    pub fn get(&self, index: usize) -> (r: &EzfsInode)
        requires
            index < self@.len(),
        ensures
            *r == self@[index as int],
    {
        &self.inodes[index]
    }

    /// Wraps a full table of records as a store; fails when the count is not
    /// exactly the table capacity.
    pub fn new(inodes: Vec<EzfsInode>) -> (r: Option<InodeStore>)
        ensures
            match r {
                Some(store) => inodes@.len() == EZFS_MAX_INODES && store@ == inodes@,
                None => inodes@.len() != EZFS_MAX_INODES,
            },
    {
        if inodes.len() != EZFS_MAX_INODES {
            return None;
        }
        Some(InodeStore { inodes })
    }
}

} // verus!
