use ezfs::bitmap::Bitmap;
use ezfs::defs::{EZFS_DATA_BITMAP_WORDS, EZFS_INODE_BITMAP_WORDS, EZFS_MAX_DATA_BLKS};
use ezfs::ezfs::RustEzFs;
use ezfs::kernel_inode::{INode, Mapper};
use ezfs::kernel_types::{Error, ENOSPC, ERANGE};
use ezfs::sb::{EzfsSuperblock, EzfsSuperblockData};

fn fresh_superblock(disk_blocks: u64) -> EzfsSuperblock {
    EzfsSuperblock {
        version: 1,
        magic: 0x4118,
        disk_blocks,
        data: EzfsSuperblockData {
            free_inodes: Bitmap::new(vec![0u32; EZFS_INODE_BITMAP_WORDS]),
            free_data_blocks: Bitmap::new(vec![0u32; EZFS_DATA_BITMAP_WORDS]),
            zero_data_blocks: Bitmap::new(vec![0u32; EZFS_DATA_BITMAP_WORDS]),
        },
        mapper: Mapper { inode: INode { ino: 0, data: None }, begin: 0, end: 4096 },
    }
}

#[test]
fn max_blocks_small_device() {
    let sb = fresh_superblock(64);
    assert_eq!(RustEzFs::get_max_blocks(&sb), 62);
}

#[test]
fn max_blocks_capped_at_compiled_in_maximum() {
    let sb = fresh_superblock(1_000_000);
    assert_eq!(RustEzFs::get_max_blocks(&sb), EZFS_MAX_DATA_BLKS as u64);
    assert_eq!(EZFS_MAX_DATA_BLKS, 56 * 256);
}

#[test]
fn max_blocks_never_exceeds_disk_blocks_minus_two() {
    for disk_blocks in [2u64, 3, 10, 64, 20_000, 1 << 40] {
        let sb = fresh_superblock(disk_blocks);
        let m = RustEzFs::get_max_blocks(&sb);
        assert!(m <= disk_blocks - 2);
        assert!(m <= EZFS_MAX_DATA_BLKS as u64);
    }
}

#[test]
fn first_fit_allocates_one_two_three_then_reuses() {
    let mut sb = fresh_superblock(64);
    assert_eq!(RustEzFs::allocate_inode(&mut sb), Ok(1));
    assert_eq!(RustEzFs::allocate_inode(&mut sb), Ok(2));
    assert_eq!(RustEzFs::allocate_inode(&mut sb), Ok(3));
    assert_eq!(RustEzFs::deallocate_inode(&mut sb, 2), Ok(()));
    assert_eq!(RustEzFs::allocate_inode(&mut sb), Ok(2));
}

#[test]
fn sequential_inode_allocations_are_distinct() {
    let mut sb = fresh_superblock(64);
    sb.data.free_inodes = Bitmap::new(vec![0b1101_0110u32, 3u32]);
    let a = RustEzFs::allocate_inode(&mut sb).unwrap();
    let b = RustEzFs::allocate_inode(&mut sb).unwrap();
    assert_ne!(a, b);
}

#[test]
fn inode_exhaustion_reports_no_space() {
    let mut sb = fresh_superblock(64);
    sb.data.free_inodes = Bitmap::new(vec![0xffff_ffffu32; EZFS_INODE_BITMAP_WORDS]);
    assert_eq!(RustEzFs::allocate_inode(&mut sb), Err(Error(ENOSPC)));
}

#[test]
fn allocation_is_reflected_by_inode_allocated() {
    let mut sb = fresh_superblock(64);
    let ino = RustEzFs::allocate_inode(&mut sb).unwrap();
    assert_eq!(RustEzFs::inode_allocated(&sb, ino), Ok(true));
    assert_eq!(RustEzFs::deallocate_inode(&mut sb, ino), Ok(()));
    assert_eq!(RustEzFs::inode_allocated(&sb, ino), Ok(false));
}

#[test]
fn deallocating_a_free_inode_is_not_an_error() {
    let mut sb = fresh_superblock(64);
    assert_eq!(RustEzFs::inode_allocated(&sb, 5), Ok(false));
    assert_eq!(RustEzFs::deallocate_inode(&mut sb, 5), Ok(()));
    assert_eq!(RustEzFs::inode_allocated(&sb, 5), Ok(false));
}

#[test]
fn inode_number_past_bitmap_capacity_is_out_of_range() {
    let mut sb = fresh_superblock(64);
    let capacity = 32 * EZFS_INODE_BITMAP_WORDS;
    assert_eq!(RustEzFs::inode_allocated(&sb, capacity + 1), Err(Error(ERANGE)));
    assert_eq!(RustEzFs::deallocate_inode(&mut sb, capacity + 1), Err(Error(ERANGE)));
}

#[test]
fn data_block_allocation_is_first_fit_and_bounded() {
    let mut sb = fresh_superblock(4);
    assert_eq!(RustEzFs::allocate_data_block(&mut sb), Ok(0));
    assert_eq!(RustEzFs::allocate_data_block(&mut sb), Ok(1));
    assert_eq!(RustEzFs::allocate_data_block(&mut sb), Err(Error(ENOSPC)));
}

#[test]
fn sequential_data_block_allocations_are_distinct() {
    let mut sb = fresh_superblock(64);
    let a = RustEzFs::allocate_data_block(&mut sb).unwrap();
    let b = RustEzFs::allocate_data_block(&mut sb).unwrap();
    assert_ne!(a, b);
}

#[test]
fn range_deallocation_clears_exactly_the_range() {
    let mut sb = fresh_superblock(64);
    for _ in 0..6 {
        RustEzFs::allocate_data_block(&mut sb).unwrap();
    }
    assert_eq!(RustEzFs::deallocate_data_blocks(&mut sb, 1, 4), Ok(()));
    assert_eq!(sb.data.free_data_blocks.is_set(0), Ok(true));
    assert_eq!(sb.data.free_data_blocks.is_set(1), Ok(false));
    assert_eq!(sb.data.free_data_blocks.is_set(2), Ok(false));
    assert_eq!(sb.data.free_data_blocks.is_set(3), Ok(false));
    assert_eq!(sb.data.free_data_blocks.is_set(4), Ok(true));
    assert_eq!(sb.data.free_data_blocks.is_set(5), Ok(true));
}

#[test]
fn range_past_max_blocks_is_rejected_whole() {
    let mut sb = fresh_superblock(10);
    RustEzFs::allocate_data_block(&mut sb).unwrap();
    assert_eq!(RustEzFs::deallocate_data_blocks(&mut sb, 0, 9), Err(Error(ERANGE)));
    assert_eq!(sb.data.free_data_blocks.is_set(0), Ok(true));
}

#[test]
fn empty_range_deallocation_changes_nothing() {
    let mut sb = fresh_superblock(64);
    RustEzFs::allocate_data_block(&mut sb).unwrap();
    assert_eq!(RustEzFs::deallocate_data_blocks(&mut sb, 3, 3), Ok(()));
    assert_eq!(sb.data.free_data_blocks.is_set(0), Ok(true));
}
