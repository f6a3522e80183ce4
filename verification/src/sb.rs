//! The superblock: the on-disk record read from block 0, and the in-memory
//! superblock that owns the three allocation bitmaps for the mount's
//! lifetime.

use crate::bitmap::{bits_match_words, Bitmap};
use crate::defs::{
    EZFS_BLOCK_SIZE, EZFS_DATA_BITMAP_WORDS, EZFS_INODE_BITMAP_WORDS,
};
use crate::ezfs::RustEzFs;
use crate::kernel_inode::Mapper;
use vstd::bytes::{spec_u32_from_le_bytes, spec_u64_from_le_bytes, u32_from_le_bytes, u64_from_le_bytes};
use vstd::prelude::*;
use vstd::slice::slice_subrange;

verus! {

/// Byte offset of the free-inode bitmap inside the superblock record.
pub const EZFS_SB_FREE_INODES_OFFSET: usize = 24;

/// Byte offset of the free-data-block bitmap inside the superblock record.
pub const EZFS_SB_FREE_DATA_OFFSET: usize = EZFS_SB_FREE_INODES_OFFSET + 4
    * EZFS_INODE_BITMAP_WORDS;

/// Byte offset of the lazily-zeroed-block bitmap inside the record.
pub const EZFS_SB_ZERO_DATA_OFFSET: usize = EZFS_SB_FREE_DATA_OFFSET + 4 * EZFS_DATA_BITMAP_WORDS;

/// The superblock record as stored in block 0: device geometry and the
/// word arrays of the three bitmaps, padded to exactly one block on disk.
pub struct EzfsSuperblockDisk {
    pub version: u64,
    pub magic: u64,
    pub disk_blocks: u64,
    pub free_inodes: Vec<u32>,
    pub free_data_blocks: Vec<u32>,
    pub zero_data_blocks: Vec<u32>,
}

impl EzfsSuperblockDisk {
    /// Each bitmap's word array has its fixed on-disk size.
    pub open spec fn wf(&self) -> bool {
        &&& self.free_inodes@.len() == EZFS_INODE_BITMAP_WORDS
        &&& self.free_data_blocks@.len() == EZFS_DATA_BITMAP_WORDS
        &&& self.zero_data_blocks@.len() == EZFS_DATA_BITMAP_WORDS
    }

    pub fn magic(&self) -> (r: u64)
        ensures
            r == self.magic,
    {
        self.magic
    }

    /// Materializes the record from the bytes of block 0; fails unless
    /// exactly one block was handed in, since the record is padded to fill
    /// it. Fields are decoded little-endian at their fixed offsets.
    pub fn from_bytes(bytes: &[u8]) -> (r: Option<EzfsSuperblockDisk>)
        ensures
            match r {
                Some(sb) => bytes@.len() == EZFS_BLOCK_SIZE && sb.wf() && sb.version
                    == spec_u64_from_le_bytes(bytes@.subrange(0, 8)) && sb.magic
                    == spec_u64_from_le_bytes(bytes@.subrange(8, 16)) && sb.disk_blocks
                    == spec_u64_from_le_bytes(bytes@.subrange(16, 24)) && words_decoded(
                    sb.free_inodes@,
                    bytes@,
                    EZFS_SB_FREE_INODES_OFFSET as int,
                ) && words_decoded(sb.free_data_blocks@, bytes@, EZFS_SB_FREE_DATA_OFFSET as int)
                    && words_decoded(sb.zero_data_blocks@, bytes@, EZFS_SB_ZERO_DATA_OFFSET as int),
                None => bytes@.len() != EZFS_BLOCK_SIZE,
            },
    {
        if bytes.len() != EZFS_BLOCK_SIZE {
            return None;
        }
        Some(
            EzfsSuperblockDisk {
                version: u64_from_le_bytes(slice_subrange(bytes, 0, 8)),
                magic: u64_from_le_bytes(slice_subrange(bytes, 8, 16)),
                disk_blocks: u64_from_le_bytes(slice_subrange(bytes, 16, 24)),
                free_inodes: decode_words(
                    bytes,
                    EZFS_SB_FREE_INODES_OFFSET,
                    EZFS_INODE_BITMAP_WORDS,
                ),
                free_data_blocks: decode_words(
                    bytes,
                    EZFS_SB_FREE_DATA_OFFSET,
                    EZFS_DATA_BITMAP_WORDS,
                ),
                zero_data_blocks: decode_words(
                    bytes,
                    EZFS_SB_ZERO_DATA_OFFSET,
                    EZFS_DATA_BITMAP_WORDS,
                ),
            },
        )
    }
}

impl Default for EzfsSuperblockDisk {
    /// A blank record: zero geometry and every bitmap word zero.
    fn default() -> (r: Self)
        ensures
            r.wf(),
            r.version == 0,
            r.magic == 0,
            r.disk_blocks == 0,
            forall|k: int| 0 <= k < r.free_inodes@.len() ==> r.free_inodes@[k] == 0,
            forall|k: int| 0 <= k < r.free_data_blocks@.len() ==> r.free_data_blocks@[k] == 0,
            forall|k: int| 0 <= k < r.zero_data_blocks@.len() ==> r.zero_data_blocks@[k] == 0,
    {
        EzfsSuperblockDisk {
            version: 0,
            magic: 0,
            disk_blocks: 0,
            free_inodes: zero_words(EZFS_INODE_BITMAP_WORDS),
            free_data_blocks: zero_words(EZFS_DATA_BITMAP_WORDS),
            zero_data_blocks: zero_words(EZFS_DATA_BITMAP_WORDS),
        }
    }
}

/// Whether `words` are exactly the 32-bit little-endian words stored at
/// byte offset `off` of `bytes`.
pub open spec fn words_decoded(words: Seq<u32>, bytes: Seq<u8>, off: int) -> bool {
    forall|k: int|
        0 <= k < words.len() ==> words[k] == spec_u32_from_le_bytes(
            #[trigger] bytes.subrange(off + 4 * k, off + 4 * k + 4),
        )
}

/// Decodes `count` little-endian 32-bit words starting at byte `off`.
fn decode_words(bytes: &[u8], off: usize, count: usize) -> (r: Vec<u32>)
    requires
        off + 4 * count <= bytes@.len(),
    ensures
        r@.len() == count,
        words_decoded(r@, bytes@, off as int),
{
    let n = bytes.len();
    let mut words: Vec<u32> = Vec::new();
    let mut k: usize = 0;
    while k < count
        invariant
            k <= count,
            n == bytes@.len(),
            off + 4 * count <= n,
            words@.len() == k,
            forall|j: int|
                0 <= j < k ==> words@[j] == spec_u32_from_le_bytes(
                    #[trigger] bytes@.subrange(off + 4 * j, off + 4 * j + 4),
                ),
        decreases count - k,
    {
        words.push(u32_from_le_bytes(slice_subrange(bytes, off + 4 * k, off + 4 * k + 4)));
        k = k + 1;
    }
    words
}

/// A vector of `count` zero words.
fn zero_words(count: usize) -> (r: Vec<u32>)
    ensures
        r@.len() == count,
        forall|k: int| 0 <= k < count ==> r@[k] == 0,
{
    let mut words: Vec<u32> = Vec::new();
    let mut k: usize = 0;
    while k < count
        invariant
            k <= count,
            words@.len() == k,
            forall|j: int| 0 <= j < k ==> words@[j] == 0,
        decreases count - k,
    {
        words.push(0u32);
        k = k + 1;
    }
    words
}

/// The bitmaps of one superblock, owned and mutated together so every
/// allocator call sees one consistent snapshot of free space.
pub struct EzfsSuperblockData {
    pub free_inodes: Bitmap,
    pub free_data_blocks: Bitmap,
    pub zero_data_blocks: Bitmap,
}

/// The in-memory superblock: immutable geometry read at mount time, the
/// three allocation bitmaps, and the mapper for the backing device.
pub struct EzfsSuperblock {
    pub version: u64,
    pub magic: u64,
    pub disk_blocks: u64,
    pub data: EzfsSuperblockData,
    pub mapper: Mapper<RustEzFs>,
}

impl EzfsSuperblock {
    /// Each bitmap covers its fixed range of resources.
    pub open spec fn wf(&self) -> bool {
        &&& self.data.free_inodes@.len() == 32 * EZFS_INODE_BITMAP_WORDS
        &&& self.data.free_data_blocks@.len() == 32 * EZFS_DATA_BITMAP_WORDS
        &&& self.data.zero_data_blocks@.len() == 32 * EZFS_DATA_BITMAP_WORDS
    }

    /// Builds the in-memory superblock from a validated on-disk record,
    /// unpacking the three bitmaps and taking ownership of the mapper.
    pub fn new(disk_sb: EzfsSuperblockDisk, mapper: Mapper<RustEzFs>) -> (r: EzfsSuperblock)
        requires
            disk_sb.wf(),
        ensures
            r.wf(),
            r.version == disk_sb.version,
            r.magic == disk_sb.magic,
            r.disk_blocks == disk_sb.disk_blocks,
            r.mapper == mapper,
            bits_match_words(r.data.free_inodes@, disk_sb.free_inodes@),
            bits_match_words(r.data.free_data_blocks@, disk_sb.free_data_blocks@),
            bits_match_words(r.data.zero_data_blocks@, disk_sb.zero_data_blocks@),
    {
        EzfsSuperblock {
            version: disk_sb.version,
            magic: disk_sb.magic,
            disk_blocks: disk_sb.disk_blocks,
            data: EzfsSuperblockData {
                free_inodes: Bitmap::new(disk_sb.free_inodes),
                free_data_blocks: Bitmap::new(disk_sb.free_data_blocks),
                zero_data_blocks: Bitmap::new(disk_sb.zero_data_blocks),
            },
            mapper,
        }
    }

    pub fn magic(&self) -> (r: u64)
        ensures
            r == self.magic,
    {
        self.magic
    }
}

} // verus!
