use ezfs::defs::{
    EZFS_BLOCK_SIZE, EZFS_DENTRY_SIZE, EZFS_INODE_SIZE, EZFS_MAX_CHILDREN, EZFS_MAX_INODES,
};
use ezfs::dir::{DirEntryStore, EzfsDirEntry};
use ezfs::inode::{EzfsInode, InodeStore};
use ezfs::sb::{
    EzfsSuperblockDisk, EZFS_SB_FREE_DATA_OFFSET, EZFS_SB_FREE_INODES_OFFSET,
    EZFS_SB_ZERO_DATA_OFFSET,
};

fn put_u64(bytes: &mut [u8], off: usize, v: u64) {
    bytes[off..off + 8].copy_from_slice(&v.to_le_bytes());
}

fn put_u32(bytes: &mut [u8], off: usize, v: u32) {
    bytes[off..off + 4].copy_from_slice(&v.to_le_bytes());
}

fn put_u16(bytes: &mut [u8], off: usize, v: u16) {
    bytes[off..off + 2].copy_from_slice(&v.to_le_bytes());
}

fn inode_record(mode: u16, uid: u32, data_blk: u64, file_size: u64) -> [u8; EZFS_INODE_SIZE] {
    let mut rec = [0u8; EZFS_INODE_SIZE];
    put_u16(&mut rec, 0, mode);
    put_u32(&mut rec, 4, uid);
    put_u32(&mut rec, 8, 100);
    put_u64(&mut rec, 16, 1_700_000_000);
    put_u64(&mut rec, 24, 1_700_000_001);
    put_u64(&mut rec, 32, 1_700_000_002);
    put_u32(&mut rec, 40, 2);
    put_u64(&mut rec, 48, data_blk);
    put_u64(&mut rec, 56, file_size);
    put_u64(&mut rec, 64, 1);
    rec
}

#[test]
fn inode_fields_decode_at_their_offsets() {
    let rec = inode_record(0x81a4, 1000, 7, 123);
    let inode = EzfsInode::from_bytes(&rec);
    assert_eq!(inode.mode(), 0x81a4);
    assert_eq!(inode.uid(), 1000);
    assert_eq!(inode.gid(), 100);
    assert_eq!(inode.nlink(), 2);
    assert_eq!(inode.data_blk_num(), 7);
    assert_eq!(inode.file_size(), 123);
    assert_eq!(inode.nblocks(), 1);
    assert_eq!(inode.i_atime, 1_700_000_000);
    assert_eq!(inode.i_mtime, 1_700_000_001);
    assert_eq!(inode.i_ctime, 1_700_000_002);
}

#[test]
fn inode_store_holds_one_block_of_records() {
    assert_eq!(EZFS_MAX_INODES, 56);
    assert_eq!(EZFS_MAX_INODES * EZFS_INODE_SIZE, 4032);
    let mut block = vec![0u8; EZFS_BLOCK_SIZE];
    let rec = inode_record(0x4180, 0, 2, 4096);
    block[3 * EZFS_INODE_SIZE..4 * EZFS_INODE_SIZE].copy_from_slice(&rec);
    let store = InodeStore::from_bytes(&block).unwrap();
    assert_eq!(store.get(3).mode(), 0x4180);
    assert_eq!(store.get(3).data_blk_num(), 2);
    assert_eq!(store.get(0).mode(), 0);
}

#[test]
fn short_inode_table_is_rejected() {
    let block = vec![0u8; EZFS_MAX_INODES * EZFS_INODE_SIZE - 1];
    assert!(InodeStore::from_bytes(&block).is_none());
}

#[test]
fn dentry_fields_decode_at_their_offsets() {
    let mut rec = [0u8; EZFS_DENTRY_SIZE];
    put_u64(&mut rec, 0, 5);
    rec[8] = 1;
    rec[9..12].copy_from_slice(b"foo");
    let mut block = vec![0u8; EZFS_BLOCK_SIZE];
    block[..EZFS_DENTRY_SIZE].copy_from_slice(&rec);
    let store = DirEntryStore::from_bytes(&block).unwrap();
    let e = store.get(0);
    assert_eq!(e.inode_no(), 5);
    assert!(e.is_active());
    assert_eq!(e.filename(), b"foo".to_vec());
    assert!(!store.get(1).is_active());
}

#[test]
fn short_directory_block_is_rejected() {
    assert_eq!(EZFS_MAX_CHILDREN, 32);
    let block = vec![0u8; EZFS_MAX_CHILDREN * EZFS_DENTRY_SIZE - 1];
    assert!(DirEntryStore::from_bytes(&block).is_none());
}

#[test]
fn dentry_builder_pads_and_trims_names() {
    let e = EzfsDirEntry::new(9, 1, b"hello").unwrap();
    assert_eq!(e.inode_no(), 9);
    assert!(e.is_active());
    assert_eq!(e.filename.len(), 119);
    assert_eq!(e.filename(), b"hello".to_vec());
}

#[test]
fn dentry_builder_rejects_over_long_names() {
    let long = vec![b'x'; 119];
    assert!(EzfsDirEntry::new(1, 1, &long).is_err());
    let just_fits = vec![b'x'; 118];
    let e = EzfsDirEntry::new(1, 1, &just_fits).unwrap();
    assert_eq!(e.filename(), just_fits);
}

#[test]
fn superblock_record_decodes_geometry_and_bitmaps() {
    let mut block = vec![0u8; EZFS_BLOCK_SIZE];
    put_u64(&mut block, 0, 3);
    put_u64(&mut block, 8, 0x4118);
    put_u64(&mut block, 16, 64);
    put_u32(&mut block, 24, 0b101);
    let sb = EzfsSuperblockDisk::from_bytes(&block).unwrap();
    assert_eq!(sb.version, 3);
    assert_eq!(sb.magic(), 0x4118);
    assert_eq!(sb.disk_blocks, 64);
    assert_eq!(sb.free_inodes[0], 0b101);
    assert_eq!(sb.free_inodes[1], 0);
    assert!(sb.free_data_blocks.iter().all(|&w| w == 0));
}

#[test]
fn superblock_bitmap_regions_sit_at_their_offsets() {
    assert_eq!(EZFS_SB_FREE_INODES_OFFSET, 24);
    assert_eq!(EZFS_SB_FREE_DATA_OFFSET, 32);
    assert_eq!(EZFS_SB_ZERO_DATA_OFFSET, 1828);
    let mut block = vec![0u8; EZFS_BLOCK_SIZE];
    put_u32(&mut block, EZFS_SB_FREE_DATA_OFFSET, 0xff);
    put_u32(&mut block, EZFS_SB_ZERO_DATA_OFFSET, 1);
    let sb = EzfsSuperblockDisk::from_bytes(&block).unwrap();
    assert_eq!(sb.free_data_blocks[0], 0xff);
    assert_eq!(sb.zero_data_blocks[0], 1);
    assert_eq!(sb.free_inodes[0], 0);
}

#[test]
fn superblock_record_must_fill_one_block() {
    assert!(EzfsSuperblockDisk::from_bytes(&vec![0u8; EZFS_BLOCK_SIZE - 1]).is_none());
    assert!(EzfsSuperblockDisk::from_bytes(&vec![0u8; EZFS_BLOCK_SIZE + 1]).is_none());
}

#[test]
fn default_superblock_record_is_blank() {
    let sb = EzfsSuperblockDisk::default();
    assert_eq!(sb.version, 0);
    assert_eq!(sb.magic(), 0);
    assert_eq!(sb.disk_blocks, 0);
    assert!(sb.free_inodes.iter().all(|&w| w == 0));
    assert!(sb.free_data_blocks.iter().all(|&w| w == 0));
    assert!(sb.zero_data_blocks.iter().all(|&w| w == 0));
}
