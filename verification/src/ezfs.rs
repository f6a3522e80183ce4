//! The filesystem driver: mount-time validation and the first-fit allocator
//! for inodes and data blocks, layered on the superblock's bitmaps.

use crate::defs::{
    EZFS_MAGIC_NUMBER, EZFS_MAX_DATA_BLKS, EZFS_MAX_INODES,
};
use crate::kernel_fs::FileSystem;
use crate::kernel_inode::Mapper;
use crate::kernel_sb::{New, SuperBlock};
use crate::kernel_types::{Error, EINVAL, ENOSPC, ERANGE};
use crate::sb::{EzfsSuperblock, EzfsSuperblockDisk};
use vstd::prelude::*;

verus! {

/// The driver type the host layer mounts.
pub struct RustEzFs;

/// The number of usable data blocks of a device: what is left after the
/// superblock and inode-table blocks, capped at the compiled-in maximum.
pub open spec fn spec_max_blocks(disk_blocks: u64) -> u64
    recommends
        disk_blocks >= 2,
{
    if disk_blocks - 2 < EZFS_MAX_DATA_BLKS {
        (disk_blocks - 2) as u64
    } else {
        EZFS_MAX_DATA_BLKS as u64
    }
}

impl RustEzFs {
    /// How many data blocks the allocator may hand out on this device:
    /// never more than the compiled-in maximum, and never more than the
    /// device holds beyond its two reserved blocks.
    pub fn get_max_blocks(sb: &EzfsSuperblock) -> (r: u64)
        requires
            sb.disk_blocks >= 2,
        ensures
            r == spec_max_blocks(sb.disk_blocks),
            r <= EZFS_MAX_DATA_BLKS,
            r <= sb.disk_blocks - 2,
    {
        let avail = sb.disk_blocks - 2;
        if avail < EZFS_MAX_DATA_BLKS as u64 {
            avail
        } else {
            EZFS_MAX_DATA_BLKS as u64
        }
    }

    /// Hands out the lowest free inode number, marking it allocated: the
    /// first-fit scan and the bitmap update happen on one snapshot of the
    /// free-inode state, so two sequential calls can never return the same
    /// number. Fails only when every inode is taken.
    pub fn allocate_inode(sb: &mut EzfsSuperblock) -> (r: Result<usize, Error>)
        requires
            old(sb).wf(),
        ensures
            final(sb).wf(),
            final(sb).version == old(sb).version,
            final(sb).magic == old(sb).magic,
            final(sb).disk_blocks == old(sb).disk_blocks,
            final(sb).mapper == old(sb).mapper,
            final(sb).data.free_data_blocks == old(sb).data.free_data_blocks,
            final(sb).data.zero_data_blocks == old(sb).data.zero_data_blocks,
            match r {
                Ok(ino) => 1 <= ino <= EZFS_MAX_INODES && !old(sb).data.free_inodes@[ino - 1] && (
                forall|j: int| 0 <= j < ino - 1 ==> old(sb).data.free_inodes@[j]) && final(sb).data.free_inodes@ == old(sb).data.free_inodes@.update(ino - 1, true),
                Err(e) => e == Error(ENOSPC) && final(sb).data.free_inodes == old(sb).data.free_inodes && (forall|j: int|
                    0 <= j < EZFS_MAX_INODES ==> old(sb).data.free_inodes@[j]),
            },
    {
        let mut idx: usize = 0;
        while idx < EZFS_MAX_INODES
            invariant
                old(sb).wf(),
                *sb == *old(sb),
                idx <= EZFS_MAX_INODES,
                forall|j: int| 0 <= j < idx ==> old(sb).data.free_inodes@[j],
            decreases EZFS_MAX_INODES - idx,
        {
            if !sb.data.free_inodes.is_set(idx as u64).unwrap() {
                let set_result = sb.data.free_inodes.set_bit(idx as u64);
                proof {
                    assert(set_result == Ok::<(), Error>(()));
                }
                return Ok(idx + 1);
            }
            idx = idx + 1;
        }
        Err(Error(ENOSPC))
    }

    /// Whether inode number `ino` is currently allocated, read straight off
    /// the free-inode bitmap — no separate bookkeeping is kept. A number
    /// beyond the bitmap's capacity is an out-of-range error.
    pub fn inode_allocated(sb: &EzfsSuperblock, ino: usize) -> (r: Result<bool, Error>)
        requires
            ino >= 1,
        ensures
            ino - 1 < sb.data.free_inodes@.len() ==> r == Ok::<bool, Error>(
                sb.data.free_inodes@[ino - 1],
            ),
            ino - 1 >= sb.data.free_inodes@.len() ==> r == Err::<bool, Error>(Error(ERANGE)),
    {
        sb.data.free_inodes.is_set((ino - 1) as u64)
    }

    /// Releases inode number `ino`: clears its bit, leaving every other
    /// inode's state unchanged; releasing an already-free inode succeeds
    /// and is a no-op. A number beyond the bitmap's capacity is an
    /// out-of-range error and changes nothing.
    pub fn deallocate_inode(sb: &mut EzfsSuperblock, ino: usize) -> (r: Result<(), Error>)
        requires
            old(sb).wf(),
            ino >= 1,
        ensures
            final(sb).wf(),
            final(sb).version == old(sb).version,
            final(sb).magic == old(sb).magic,
            final(sb).disk_blocks == old(sb).disk_blocks,
            final(sb).mapper == old(sb).mapper,
            final(sb).data.free_data_blocks == old(sb).data.free_data_blocks,
            final(sb).data.zero_data_blocks == old(sb).data.zero_data_blocks,
            ino - 1 < old(sb).data.free_inodes@.len() ==> r == Ok::<(), Error>(()) && final(sb).data.free_inodes@ == old(sb).data.free_inodes@.update(ino - 1, false),
            ino - 1 >= old(sb).data.free_inodes@.len() ==> r == Err::<(), Error>(Error(ERANGE))
                && final(sb).data.free_inodes@ == old(sb).data.free_inodes@,
    {
        sb.data.free_inodes.clear_bit((ino - 1) as u64)
    }

    /// Hands out the lowest free data block, marking it allocated; the
    /// returned number is relative to the start of the usable data region.
    /// Fails only when every usable block is taken.
    pub fn allocate_data_block(sb: &mut EzfsSuperblock) -> (r: Result<u64, Error>)
        requires
            old(sb).wf(),
            old(sb).disk_blocks >= 2,
        ensures
            final(sb).wf(),
            final(sb).version == old(sb).version,
            final(sb).magic == old(sb).magic,
            final(sb).disk_blocks == old(sb).disk_blocks,
            final(sb).mapper == old(sb).mapper,
            final(sb).data.free_inodes == old(sb).data.free_inodes,
            final(sb).data.zero_data_blocks == old(sb).data.zero_data_blocks,
            match r {
                Ok(bn) => bn < spec_max_blocks(old(sb).disk_blocks) && !old(sb).data.free_data_blocks@[bn as int] && (forall|j: int|
                    0 <= j < bn ==> old(sb).data.free_data_blocks@[j]) && final(sb).data.free_data_blocks@ == old(sb).data.free_data_blocks@.update(bn as int, true),
                Err(e) => e == Error(ENOSPC) && final(sb).data.free_data_blocks == old(sb).data.free_data_blocks && (forall|j: int|
                    0 <= j < spec_max_blocks(old(sb).disk_blocks) ==> old(sb).data.free_data_blocks@[j]),
            },
    {
        let bound = RustEzFs::get_max_blocks(sb);
        let mut bn: u64 = 0;
        while bn < bound
            invariant
                old(sb).wf(),
                *sb == *old(sb),
                bound == spec_max_blocks(old(sb).disk_blocks),
                bound <= EZFS_MAX_DATA_BLKS,
                bn <= bound,
                forall|j: int| 0 <= j < bn ==> old(sb).data.free_data_blocks@[j],
            decreases bound - bn,
        {
            if !sb.data.free_data_blocks.is_set(bn).unwrap() {
                let set_result = sb.data.free_data_blocks.set_bit(bn);
                proof {
                    assert(set_result == Ok::<(), Error>(()));
                }
                return Ok(bn);
            }
            bn = bn + 1;
        }
        Err(Error(ENOSPC))
    }

    /// Releases every data block in `[start, end)`: each of their bits is
    /// cleared and every block outside the range keeps its state. A range
    /// reaching past the device's usable blocks is rejected whole, changing
    /// nothing — never silently clamped.
    pub fn deallocate_data_blocks(sb: &mut EzfsSuperblock, start: u64, end: u64) -> (r: Result<
        (),
        Error,
    >)
        requires
            old(sb).wf(),
            old(sb).disk_blocks >= 2,
        ensures
            final(sb).wf(),
            final(sb).version == old(sb).version,
            final(sb).magic == old(sb).magic,
            final(sb).disk_blocks == old(sb).disk_blocks,
            final(sb).mapper == old(sb).mapper,
            final(sb).data.free_inodes == old(sb).data.free_inodes,
            final(sb).data.zero_data_blocks == old(sb).data.zero_data_blocks,
            match r {
                Ok(()) => end <= spec_max_blocks(old(sb).disk_blocks) && final(sb).data.free_data_blocks@.len() == old(sb).data.free_data_blocks@.len() && (forall|
                    i: int,
                |
                    0 <= i < old(sb).data.free_data_blocks@.len() ==> final(sb).data.free_data_blocks@[i] == (old(sb).data.free_data_blocks@[i] && !(start
                        <= i < end))),
                Err(e) => e == Error(ERANGE) && end > spec_max_blocks(old(sb).disk_blocks) && final(sb).data.free_data_blocks == old(sb).data.free_data_blocks,
            },
    {
        let bound = RustEzFs::get_max_blocks(sb);
        if end > bound {
            return Err(Error(ERANGE));
        }
        let mut i: u64 = start;
        if i >= end {
            proof {
                assert(forall|j: int|
                    0 <= j < old(sb).data.free_data_blocks@.len() ==> sb.data.free_data_blocks@[j]
                        == (old(sb).data.free_data_blocks@[j] && !(start <= j < end)));
            }
            return Ok(());
        }
        while i < end
            invariant
                old(sb).wf(),
                sb.wf(),
                sb.version == old(sb).version,
                sb.magic == old(sb).magic,
                sb.disk_blocks == old(sb).disk_blocks,
                sb.mapper == old(sb).mapper,
                sb.data.free_inodes == old(sb).data.free_inodes,
                sb.data.zero_data_blocks == old(sb).data.zero_data_blocks,
                start <= i <= end,
                end <= spec_max_blocks(old(sb).disk_blocks),
                old(sb).disk_blocks >= 2,
                forall|j: int|
                    0 <= j < old(sb).data.free_data_blocks@.len() ==> sb.data.free_data_blocks@[j]
                        == (old(sb).data.free_data_blocks@[j] && !(start <= j < i)),
            decreases end - i,
        {
            let clear_result = sb.data.free_data_blocks.clear_bit(i);
            proof {
                assert(clear_result == Ok::<(), Error>(()));
            }
            i = i + 1;
        }
        Ok(())
    }

    /// Validates an on-disk superblock and builds the per-mount state: the
    /// mount is accepted exactly when a mapper was handed in and the
    /// record's magic field holds the expected constant; any other record
    /// is rejected and the host superblock is left untouched.
    pub fn fill_super(
        sb: &mut SuperBlock<RustEzFs, New>,
        mapper: Option<Mapper<RustEzFs>>,
        disk_sb: EzfsSuperblockDisk,
    ) -> (r: Result<EzfsSuperblock, Error>)
        requires
            disk_sb.wf(),
        ensures
            match r {
                Ok(ezfs_sb) => mapper is Some && disk_sb.magic == EZFS_MAGIC_NUMBER && ezfs_sb.wf()
                    && ezfs_sb.version == disk_sb.version && ezfs_sb.magic == disk_sb.magic
                    && ezfs_sb.disk_blocks == disk_sb.disk_blocks && ezfs_sb.mapper
                    == mapper.unwrap() && final(sb).spec_magic() == EZFS_MAGIC_NUMBER && final(sb).spec_data() == old(sb).spec_data(),
                Err(e) => e == Error(EINVAL) && (mapper is None || disk_sb.magic
                    != EZFS_MAGIC_NUMBER) && *final(sb) == *old(sb),
            },
    {
        let mapper = match mapper {
            Some(m) => m,
            None => {
                return Err(Error(EINVAL));
            },
        };
        if disk_sb.magic() != EZFS_MAGIC_NUMBER as u64 {
            return Err(Error(EINVAL));
        }
        let ezfs_sb = EzfsSuperblock::new(disk_sb, mapper);
        sb.set_magic(EZFS_MAGIC_NUMBER);
        Ok(ezfs_sb)
    }
}

/// Two successful sequential allocations on one superblock never hand out
/// the same number: an allocation's contract leaves the bit of the number
/// it returned set, and the next call returns a number whose bit was still
/// clear in exactly the state the first call left behind.
pub proof fn lemma_sequential_allocations_distinct(
    bits0: Seq<bool>,
    k1: int,
    bits1: Seq<bool>,
    k2: int,
)
    requires
        0 <= k1 < bits0.len(),
        !bits0[k1],
        bits1 == bits0.update(k1, true),
        0 <= k2 < bits1.len(),
        !bits1[k2],
    ensures
        k1 != k2,
{
}

/// An allocation is reflected by its bitmap: the state an allocation of
/// resource `k` leaves behind reads `k` as taken, and the state a release
/// of `k` leaves behind reads it as free — and `inode_allocated` answers
/// exactly what this bitmap reads.
pub proof fn lemma_allocation_reflected(bits: Seq<bool>, k: int)
    requires
        0 <= k < bits.len(),
    ensures
        bits.update(k, true)[k] == true,
        bits.update(k, false)[k] == false,
{
}

impl FileSystem for RustEzFs {
    type Data = crate::sb::EzfsSuperblockData;

    type INodeData = crate::inode::EzfsInode;

    /// Mounts the device behind `mapper`. Reading the superblock record off
    /// the device is the host's concern, and the host does not wire that
    /// read up yet: without the record no mount can validate, so this path
    /// rejects every mount. The checked path is `RustEzFs::fill_super`,
    /// which takes the record as an argument.
    fn fill_super(
        _sb: &mut SuperBlock<RustEzFs, New>,
        _mapper: Option<Mapper<RustEzFs>>,
    ) -> Result<crate::sb::EzfsSuperblockData, Error> {
        Err(Error(EINVAL))
    }
}

} // verus!
