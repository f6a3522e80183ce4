//! On-disk directory entries, the directory-entry store (a directory's
//! single data block viewed as a fixed array of entries), and the directory
//! protocol: name lookup and resumable listing.

use crate::defs::{
    EZFS_DENTRY_SIZE, EZFS_FILENAME_BUF_SIZE, EZFS_FILENAME_LENGTH, EZFS_MAX_CHILDREN,
    EZFS_MAX_INODES,
};
use crate::inode::{EzfsInode, InodeStore};
use crate::kernel_types::{Error, EIO, ENAMETOOLONG, ENOENT};
use vstd::bytes::{spec_u64_from_le_bytes, u64_from_le_bytes};
use vstd::prelude::*;
use vstd::slice::{slice_subrange, slice_to_vec};

verus! {

/// The index of the first NUL byte of `f` at or after `i`, or `f.len()` when
/// none follows.
pub open spec fn first_nul(f: Seq<u8>, i: int) -> int
    decreases f.len() - i,
{
    if i < 0 || i >= f.len() {
        f.len() as int
    } else if f[i] == 0 {
        i
    } else {
        first_nul(f, i + 1)
    }
}

/// The stored name: the filename buffer up to its first NUL byte.
pub open spec fn spec_filename(f: Seq<u8>) -> Seq<u8> {
    f.subrange(0, first_nul(f, 0))
}

/// `first_nul` is the bound `k` exactly when every byte before `k` is
/// non-NUL and `k` is a NUL or the end.
proof fn lemma_first_nul(f: Seq<u8>, i: int, k: int)
    requires
        0 <= i <= k <= f.len(),
        forall|j: int| i <= j < k ==> f[j] != 0,
        k == f.len() || f[k] == 0,
    ensures
        first_nul(f, i) == k,
    decreases k - i,
{
    if i < k {
        lemma_first_nul(f, i + 1, k);
    }
}

/// One on-disk directory entry: a name mapped to an inode number, with a
/// tombstone flag; an inactive entry is a reusable slot invisible to lookup.
pub struct EzfsDirEntry {
    pub inode_no: u64,
    pub active: u8,
    /// Fixed filename buffer, NUL-terminated or NUL-padded.
    pub filename: Vec<u8>,
}

/// Whether `e` is exactly the entry encoded at the front of `bytes`: inode
/// number, active flag, then the filename buffer.
pub open spec fn dentry_decoded(e: EzfsDirEntry, bytes: Seq<u8>) -> bool
    recommends
        bytes.len() >= EZFS_DENTRY_SIZE,
{
    &&& e.inode_no == spec_u64_from_le_bytes(bytes.subrange(0, 8))
    &&& e.active == bytes[8]
    &&& e.filename@ == bytes.subrange(9, 9 + EZFS_FILENAME_BUF_SIZE)
}

impl EzfsDirEntry {
    /// The filename buffer always holds exactly its fixed size.
    pub open spec fn wf(&self) -> bool {
        self.filename@.len() == EZFS_FILENAME_BUF_SIZE
    }

    pub fn inode_no(&self) -> (r: u64)
        ensures
            r == self.inode_no,
    {
        self.inode_no
    }

    /// Whether the entry is live; zero marks a tombstone.
    pub fn is_active(&self) -> (r: bool)
        ensures
            r == (self.active != 0),
    {
        self.active != 0
    }

    /// The stored name: the buffer's bytes up to its first NUL.
    pub fn filename(&self) -> (r: Vec<u8>)
        ensures
            r@ == spec_filename(self.filename@),
    {
        let mut i: usize = 0;
        while i < self.filename.len() && self.filename[i] != 0
            invariant
                i <= self.filename@.len(),
                forall|j: int| 0 <= j < i ==> self.filename@[j] != 0,
            decreases self.filename@.len() - i,
        {
            i = i + 1;
        }
        proof {
            lemma_first_nul(self.filename@, 0, i as int);
        }
        slice_to_vec(slice_subrange(self.filename.as_slice(), 0, i))
    }

    /// Builds an entry from its parts, padding the name with NULs; a name
    /// longer than the storable maximum is rejected.
    pub fn new(inode_no: u64, active: u8, name: &[u8]) -> (r: Result<EzfsDirEntry, Error>)
        ensures
            match r {
                Ok(e) => name@.len() <= EZFS_FILENAME_LENGTH && e.wf() && e.inode_no == inode_no
                    && e.active == active && e.filename@ == name@ + Seq::new(
                    (EZFS_FILENAME_BUF_SIZE - name@.len()) as nat,
                    |j: int| 0u8,
                ),
                Err(e) => e == Error(ENAMETOOLONG) && name@.len() > EZFS_FILENAME_LENGTH,
            },
    {
        if name.len() > EZFS_FILENAME_LENGTH {
            return Err(Error(ENAMETOOLONG));
        }
        let mut filename = slice_to_vec(name);
        while filename.len() < EZFS_FILENAME_BUF_SIZE
            invariant
                name@.len() <= filename@.len() <= EZFS_FILENAME_BUF_SIZE,
                filename@.subrange(0, name@.len() as int) == name@,
                forall|j: int| name@.len() <= j < filename@.len() ==> filename@[j] == 0,
            decreases EZFS_FILENAME_BUF_SIZE - filename@.len(),
        {
            filename.push(0u8);
        }
        proof {
            assert(filename@ =~= name@ + Seq::new(
                (EZFS_FILENAME_BUF_SIZE - name@.len()) as nat,
                |j: int| 0u8,
            ));
        }
        Ok(EzfsDirEntry { inode_no, active, filename })
    }
}

/// A name without NUL bytes survives the builder's padding: trimming the
/// buffer that `EzfsDirEntry::new` leaves behind gives back exactly the
/// name that went in.
pub proof fn lemma_store_then_read_name(name: Seq<u8>, buf: Seq<u8>)
    requires
        name.len() <= EZFS_FILENAME_LENGTH,
        forall|j: int| 0 <= j < name.len() ==> name[j] != 0,
        buf == name + Seq::new((EZFS_FILENAME_BUF_SIZE - name.len()) as nat, |j: int| 0u8),
    ensures
        spec_filename(buf) == name,
{
    lemma_first_nul(buf, 0, name.len() as int);
    assert(buf.subrange(0, name.len() as int) =~= name);
}

/// A directory's data block interpreted as the fixed array of its entry
/// slots, in canonical table order.
pub struct DirEntryStore {
    dir_entries: Vec<EzfsDirEntry>,
}

impl View for DirEntryStore {
    type V = Seq<EzfsDirEntry>;

    closed spec fn view(&self) -> Seq<EzfsDirEntry> {
        self.dir_entries@
    }
}

/// Whether a live entry carries exactly the asked-for name.
pub open spec fn entry_matches(e: EzfsDirEntry, name: Seq<u8>) -> bool {
    e.active != 0 && spec_filename(e.filename@) == name
}

impl DirEntryStore {
    /// A store always holds exactly one block's worth of entry slots.
    pub open spec fn wf(&self) -> bool {
        self@.len() == EZFS_MAX_CHILDREN && forall|j: int|
            0 <= j < self@.len() ==> self@[j].wf()
    }

    /// Materializes the store from the bytes of a directory's data block;
    /// fails when fewer bytes than the store's size were handed in. Entry `k`
    /// is decoded from the `k`-th 128-byte slice.
    pub fn from_bytes(bytes: &[u8]) -> (r: Option<DirEntryStore>)
        ensures
            match r {
                Some(store) => bytes@.len() >= EZFS_MAX_CHILDREN * EZFS_DENTRY_SIZE && store.wf()
                    && forall|k: int|
                    0 <= k < EZFS_MAX_CHILDREN ==> dentry_decoded(
                        #[trigger] store@[k],
                        bytes@.subrange(k * EZFS_DENTRY_SIZE, (k + 1) * EZFS_DENTRY_SIZE),
                    ),
                None => bytes@.len() < EZFS_MAX_CHILDREN * EZFS_DENTRY_SIZE,
            },
    {
        if bytes.len() < EZFS_MAX_CHILDREN * EZFS_DENTRY_SIZE {
            return None;
        }
        let mut dir_entries: Vec<EzfsDirEntry> = Vec::new();
        let mut k: usize = 0;
        while k < EZFS_MAX_CHILDREN
            invariant
                k <= EZFS_MAX_CHILDREN,
                bytes@.len() >= EZFS_MAX_CHILDREN * EZFS_DENTRY_SIZE,
                dir_entries@.len() == k,
                forall|j: int|
                    0 <= j < k ==> dentry_decoded(
                        #[trigger] dir_entries@[j],
                        bytes@.subrange(j * EZFS_DENTRY_SIZE, (j + 1) * EZFS_DENTRY_SIZE),
                    ) && dir_entries@[j].wf(),
            decreases EZFS_MAX_CHILDREN - k,
        {
            let rec = slice_subrange(bytes, k * EZFS_DENTRY_SIZE, (k + 1) * EZFS_DENTRY_SIZE);
            let entry = EzfsDirEntry {
                inode_no: u64_from_le_bytes(slice_subrange(rec, 0, 8)),
                active: rec[8],
                filename: slice_to_vec(slice_subrange(rec, 9, 9 + EZFS_FILENAME_BUF_SIZE)),
            };
            proof {
                let b = bytes@.subrange(
                    k as int * EZFS_DENTRY_SIZE,
                    (k as int + 1) * EZFS_DENTRY_SIZE,
                );
                assert(b.subrange(0, 8) =~= rec@.subrange(0, 8));
                assert(b.subrange(9, 9 + EZFS_FILENAME_BUF_SIZE) =~= rec@.subrange(
                    9,
                    9 + EZFS_FILENAME_BUF_SIZE,
                ));
            }
            dir_entries.push(entry);
            k = k + 1;
        }
        Some(DirEntryStore { dir_entries })
    }

    /// The entry in table slot `index`.
    pub fn get(&self, index: usize) -> (r: &EzfsDirEntry)
        requires
            index < self@.len(),
        ensures
            *r == self@[index as int],
    {
        &self.dir_entries[index]
    }

    /// Wraps a full table of entry slots as a store; fails when the count is
    /// not exactly the table capacity or some slot's buffer is malformed.
    pub fn new(dir_entries: Vec<EzfsDirEntry>) -> (r: Option<DirEntryStore>)
        ensures
            match r {
                Some(store) => store@ == dir_entries@ && store.wf(),
                None => dir_entries@.len() != EZFS_MAX_CHILDREN || exists|j: int|
                    0 <= j < dir_entries@.len() && !dir_entries@[j].wf(),
            },
    {
        if dir_entries.len() != EZFS_MAX_CHILDREN {
            return None;
        }
        let mut j: usize = 0;
        while j < dir_entries.len()
            invariant
                j <= dir_entries@.len(),
                forall|i: int| 0 <= i < j ==> dir_entries@[i].wf(),
            decreases dir_entries@.len() - j,
        {
            if dir_entries[j].filename.len() != EZFS_FILENAME_BUF_SIZE {
                return None;
            }
            j = j + 1;
        }
        Some(DirEntryStore { dir_entries })
    }

    /// Resolves `name` to an inode number: the first live entry in table
    /// order whose stored name matches, byte for byte; "not found" is a
    /// successful answer, and only an over-long name is an error.
    pub fn lookup(&self, name: &[u8]) -> (r: Result<Option<u64>, Error>)
        ensures
            match r {
                Ok(found) => name@.len() <= EZFS_FILENAME_BUF_SIZE && match found {
                    Some(ino) => exists|i: int|
                        0 <= i < self@.len() && entry_matches(#[trigger] self@[i], name@) && ino
                            == self@[i].inode_no && forall|j: int|
                            0 <= j < i ==> !entry_matches(#[trigger] self@[j], name@),
                    None => forall|i: int|
                        0 <= i < self@.len() ==> !entry_matches(#[trigger] self@[i], name@),
                },
                Err(e) => e == Error(ENAMETOOLONG) && name@.len() > EZFS_FILENAME_BUF_SIZE,
            },
    {
        if name.len() > EZFS_FILENAME_BUF_SIZE {
            return Err(Error(ENAMETOOLONG));
        }
        let mut i: usize = 0;
        while i < self.dir_entries.len()
            invariant
                i <= self@.len(),
                name@.len() <= EZFS_FILENAME_BUF_SIZE,
                forall|j: int| 0 <= j < i ==> !entry_matches(#[trigger] self@[j], name@),
            decreases self@.len() - i,
        {
            let entry = &self.dir_entries[i];
            if entry.is_active() {
                let stored = entry.filename();
                if bytes_eq(stored.as_slice(), name) {
                    proof {
                        assert(entry_matches(self@[i as int], name@));
                    }
                    return Ok(Some(entry.inode_no()));
                }
            }
            i = i + 1;
        }
        Ok(None)
    }
}

/// The kind of object a directory entry points at, read off the type bits
/// of the referenced inode's mode field.
#[derive(Clone, Copy, Debug, PartialEq, Eq, Structural)]
pub enum DirEntryType {
    Unknown,
    Fifo,
    CharDev,
    Directory,
    BlockDev,
    Regular,
    Symlink,
    Socket,
}

/// The entry kind the high four mode bits encode.
pub open spec fn spec_type_of_mode(mode: u16) -> DirEntryType {
    let fmt = mode & 0xf000;
    if fmt == 0x1000 {
        DirEntryType::Fifo
    } else if fmt == 0x2000 {
        DirEntryType::CharDev
    } else if fmt == 0x4000 {
        DirEntryType::Directory
    } else if fmt == 0x6000 {
        DirEntryType::BlockDev
    } else if fmt == 0x8000 {
        DirEntryType::Regular
    } else if fmt == 0xa000 {
        DirEntryType::Symlink
    } else if fmt == 0xc000 {
        DirEntryType::Socket
    } else {
        DirEntryType::Unknown
    }
}

/// Classifies an inode's mode field as an entry kind.
pub fn type_of_mode(mode: u16) -> (r: DirEntryType)
    ensures
        r == spec_type_of_mode(mode),
{
    let fmt = mode & 0xf000;
    if fmt == 0x1000 {
        DirEntryType::Fifo
    } else if fmt == 0x2000 {
        DirEntryType::CharDev
    } else if fmt == 0x4000 {
        DirEntryType::Directory
    } else if fmt == 0x6000 {
        DirEntryType::BlockDev
    } else if fmt == 0x8000 {
        DirEntryType::Regular
    } else if fmt == 0xa000 {
        DirEntryType::Symlink
    } else if fmt == 0xc000 {
        DirEntryType::Socket
    } else {
        DirEntryType::Unknown
    }
}

/// One item a directory listing emits: a name, the inode it maps to, and
/// the kind of object that inode describes.
#[derive(Debug)]
pub struct DirListEntry {
    pub name: Vec<u8>,
    pub inode_no: u64,
    pub etype: DirEntryType,
}

impl View for DirListEntry {
    type V = (Seq<u8>, u64, DirEntryType);

    closed spec fn view(&self) -> (Seq<u8>, u64, DirEntryType) {
        (self.name@, self.inode_no, self.etype)
    }
}

/// The items of a listing, each seen as its view.
pub open spec fn listed_views(items: Seq<DirListEntry>) -> Seq<(Seq<u8>, u64, DirEntryType)> {
    items.map_values(|it: DirListEntry| it@)
}

/// Appending an item appends its view.
proof fn lemma_listed_views_push(items: Seq<DirListEntry>, x: DirListEntry)
    ensures
        listed_views(items.push(x)) == listed_views(items).push(x@),
{
    assert(listed_views(items.push(x)) =~~= listed_views(items).push(x@));
}

/// Whether a live entry's inode number names a slot of the inode table.
pub open spec fn valid_ino(e: EzfsDirEntry) -> bool {
    1 <= e.inode_no <= EZFS_MAX_INODES
}

/// The item a live entry is emitted as: its trimmed name, its inode number,
/// and the kind read from the referenced inode's mode field.
pub open spec fn spec_item(e: EzfsDirEntry, inodes: Seq<EzfsInode>) -> (Seq<u8>, u64, DirEntryType)
    recommends
        valid_ino(e),
        inodes.len() == EZFS_MAX_INODES,
{
    (spec_filename(e.filename@), e.inode_no, spec_type_of_mode(inodes[e.inode_no - 1].mode))
}

/// The items a forward scan emits between table slots `i` (inclusive) and
/// `end` (exclusive): the live entries, in table order, tombstones skipped.
pub open spec fn spec_items(
    entries: Seq<EzfsDirEntry>,
    inodes: Seq<EzfsInode>,
    i: int,
    end: int,
) -> Seq<(Seq<u8>, u64, DirEntryType)>
    decreases end - i,
{
    if i < 0 || i >= end || end > entries.len() {
        Seq::empty()
    } else if entries[i].active != 0 {
        seq![spec_item(entries[i], inodes)] + spec_items(entries, inodes, i + 1, end)
    } else {
        spec_items(entries, inodes, i + 1, end)
    }
}

/// Extending a scan by one slot appends that slot's item when it is live
/// and nothing otherwise.
proof fn lemma_items_snoc(entries: Seq<EzfsDirEntry>, inodes: Seq<EzfsInode>, i: int, end: int)
    requires
        0 <= i <= end < entries.len(),
    ensures
        spec_items(entries, inodes, i, end + 1) == spec_items(entries, inodes, i, end) + (
        if entries[end].active != 0 {
            seq![spec_item(entries[end], inodes)]
        } else {
            Seq::<(Seq<u8>, u64, DirEntryType)>::empty()
        }),
    decreases end - i,
{
    let tail = if entries[end].active != 0 {
        seq![spec_item(entries[end], inodes)]
    } else {
        Seq::<(Seq<u8>, u64, DirEntryType)>::empty()
    };
    if i < end {
        lemma_items_snoc(entries, inodes, i + 1, end);
        if entries[i].active != 0 {
            assert(seq![spec_item(entries[i], inodes)] + (spec_items(entries, inodes, i + 1, end)
                + tail) =~= (seq![spec_item(entries[i], inodes)] + spec_items(
                entries,
                inodes,
                i + 1,
                end,
            )) + tail);
        }
    } else {
        assert(spec_items(entries, inodes, end + 1, end + 1) =~= Seq::<
            (Seq<u8>, u64, DirEntryType),
        >::empty());
        assert(spec_items(entries, inodes, i, end + 1) =~= spec_items(entries, inodes, i, end)
            + tail);
    }
}

/// Every live entry in `[start, end)` carries a usable inode number.
pub open spec fn live_inos_valid(entries: Seq<EzfsDirEntry>, start: int, end: int) -> bool {
    forall|j: int|
        start <= j < end && (#[trigger] entries[j]).active != 0 ==> valid_ino(entries[j])
}

/// What a successful forward scan from slot `start`, with room for `budget`
/// more items, hands back: the live entries of `[start, stop)` in table
/// order; the scan ran to the table's end unless the room ran out, and then
/// `stop` sits immediately past the last emitted entry.
pub open spec fn scan_ok(
    entries: Seq<EzfsDirEntry>,
    inodes: Seq<EzfsInode>,
    start: int,
    budget: int,
    items: Seq<(Seq<u8>, u64, DirEntryType)>,
    stop: int,
) -> bool {
    &&& start <= stop <= entries.len()
    &&& items == spec_items(entries, inodes, start, stop)
    &&& live_inos_valid(entries, start, stop)
    &&& items.len() <= budget
    &&& (items.len() < budget ==> stop == entries.len())
    &&& (items.len() == budget && budget > 0 ==> stop > start && entries[stop - 1].active != 0)
    &&& (budget == 0 ==> stop == start)
}

/// A forward scan from `start` with room for `budget` items fails: before
/// the room runs out it reaches a live entry whose inode number names no
/// slot of the inode table.
pub open spec fn scan_hits_bad_ino(
    entries: Seq<EzfsDirEntry>,
    inodes: Seq<EzfsInode>,
    start: int,
    budget: int,
) -> bool {
    exists|j: int|
        start <= j < entries.len() && (#[trigger] entries[j]).active != 0 && !valid_ino(entries[j])
            && live_inos_valid(entries, start, j) && spec_items(entries, inodes, start, j).len()
            < budget
}

/// The pseudo-entries still owed at cursor position `pos`: "." and ".." are
/// synthesized at positions 0 and 1 and never stored on disk.
pub open spec fn dot_items(dir_ino: u64, parent_ino: u64, pos: u64) -> Seq<
    (Seq<u8>, u64, DirEntryType),
> {
    if pos == 0 {
        seq![
            (seq![46u8], dir_ino, DirEntryType::Directory),
            (seq![46u8, 46u8], parent_ino, DirEntryType::Directory),
        ]
    } else if pos == 1 {
        seq![(seq![46u8, 46u8], parent_ino, DirEntryType::Directory)]
    } else {
        Seq::empty()
    }
}

/// The table slot a cursor resumes scanning at.
pub open spec fn cursor_slot(pos: u64) -> int {
    if pos < 2 {
        0
    } else {
        (pos - 2) / (EZFS_DENTRY_SIZE as int)
    }
}

/// Whether a cursor is one of the legal resume points: inside the dot
/// positions, or an exact multiple of the record size past them.
pub open spec fn cursor_aligned(pos: u64) -> bool {
    pos < 2 || (pos - 2) % (EZFS_DENTRY_SIZE as int) == 0
}

/// What a successful `list` call with cursor `pos` and room for `budget`
/// items hands back: the pseudo-entries still owed, then the live entries
/// scanned forward from the cursor's slot, and the cursor to resume at.
pub open spec fn list_success(
    entries: Seq<EzfsDirEntry>,
    inodes: Seq<EzfsInode>,
    dir_ino: u64,
    parent_ino: u64,
    pos: u64,
    budget: int,
    items: Seq<(Seq<u8>, u64, DirEntryType)>,
    next: int,
) -> bool {
    let d = dot_items(dir_ino, parent_ino, pos);
    if budget < d.len() {
        items == d.take(budget) && next == pos + budget
    } else if !cursor_aligned(pos) {
        false
    } else {
        let from = if pos < 2 {
            2
        } else {
            pos as int
        };
        let slot = cursor_slot(pos);
        if slot >= EZFS_MAX_CHILDREN {
            items == d && next == from
        } else {
            &&& items.len() >= d.len()
            &&& items.take(d.len() as int) == d
            &&& exists|stop: int|
                #[trigger] scan_ok(
                    entries,
                    inodes,
                    slot,
                    budget - d.len(),
                    items.skip(d.len() as int),
                    stop,
                ) && next == 2 + stop * (EZFS_DENTRY_SIZE as int)
        }
    }
}

impl DirEntryStore {
    /// Emits up to `budget` children of a directory, resuming at the opaque
    /// byte cursor `pos` and returning the cursor for the next call, so a
    /// listing can continue loss-lessly across calls. Positions 0 and 1
    /// synthesize "." and ".."; each later legal cursor is `2` plus a whole
    /// number of records, and any other value is rejected. Each live entry
    /// is emitted with the kind stored in the inode it references; a live
    /// entry whose inode number is outside the table stops the listing with
    /// an I/O error.
    pub fn list(
        &self,
        inodes: &InodeStore,
        dir_ino: u64,
        parent_ino: u64,
        pos: u64,
        budget: usize,
    ) -> (r: Result<(Vec<DirListEntry>, u64), Error>)
        requires
            self.wf(),
            inodes.wf(),
        ensures
            match r {
                Ok(out) => list_success(
                    self@,
                    inodes@,
                    dir_ino,
                    parent_ino,
                    pos,
                    budget as int,
                    listed_views(out.0@),
                    out.1 as int,
                ),
                Err(e) => (e == Error(ENOENT) && !cursor_aligned(pos)) || (e == Error(EIO)
                    && cursor_aligned(pos) && budget >= dot_items(dir_ino, parent_ino, pos).len()
                    && cursor_slot(pos) < EZFS_MAX_CHILDREN && scan_hits_bad_ino(
                    self@,
                    inodes@,
                    cursor_slot(pos),
                    budget - dot_items(dir_ino, parent_ino, pos).len(),
                )),
            },
    {
        let ghost d = dot_items(dir_ino, parent_ino, pos);
        let mut items: Vec<DirListEntry> = Vec::new();
        let mut cur: u64 = pos;
        if cur == 0 {
            if items.len() >= budget {
                proof {
                    assert(listed_views(items@) =~~= d.take(budget as int));
                }
                return Ok((items, cur));
            }
            let mut name: Vec<u8> = Vec::new();
            name.push(46u8);
            items.push(DirListEntry { name, inode_no: dir_ino, etype: DirEntryType::Directory });
            cur = 1;
        }
        if cur == 1 {
            if items.len() >= budget {
                proof {
                    assert(listed_views(items@) =~~= d.take(budget as int));
                }
                return Ok((items, cur));
            }
            let mut name: Vec<u8> = Vec::new();
            name.push(46u8);
            name.push(46u8);
            items.push(DirListEntry { name, inode_no: parent_ino, etype: DirEntryType::Directory });
            cur = 2;
        }
        let disk_pos = cur - 2;
        if disk_pos % (EZFS_DENTRY_SIZE as u64) != 0 {
            return Err(Error(ENOENT));
        }
        let slot64 = disk_pos / (EZFS_DENTRY_SIZE as u64);
        proof {
            assert(slot64 == cursor_slot(pos));
            assert(listed_views(items@) =~~= d);
        }
        if slot64 >= EZFS_MAX_CHILDREN as u64 {
            return Ok((items, cur));
        }
        let ghost slot = slot64 as int;
        let mut i: usize = slot64 as usize;
        while i < self.dir_entries.len()
            invariant
                self.wf(),
                inodes.wf(),
                d == dot_items(dir_ino, parent_ino, pos),
                budget >= d.len(),
                cursor_aligned(pos),
                slot == cursor_slot(pos),
                0 <= slot < EZFS_MAX_CHILDREN,
                slot <= i as int <= EZFS_MAX_CHILDREN,
                listed_views(items@) == d + spec_items(
                    self@,
                    inodes@,
                    slot,
                    i as int,
                ),
                live_inos_valid(self@, slot, i as int),
                items@.len() <= budget,
                items@.len() == budget ==> ((i as int == slot && budget == d.len()) || (i as int
                    > slot && self@[i as int - 1].active != 0)),
            decreases self@.len() - i,
        {
            if items.len() >= budget {
                proof {
                    let tl = lemma_list_exit(
                        self@,
                        inodes@,
                        d,
                        slot,
                        budget as int,
                        listed_views(items@),
                        i as int,
                    );
                    assert(EZFS_MAX_CHILDREN == 32 && EZFS_DENTRY_SIZE == 128);
                    assert((i as u64) * (EZFS_DENTRY_SIZE as u64) <= 4096) by (nonlinear_arith)
                        requires
                            i as u64 <= 32 && EZFS_DENTRY_SIZE as u64 == 128,
                    ;
                }
                return Ok((items, 2 + (i as u64) * (EZFS_DENTRY_SIZE as u64)));
            }
            let entry = &self.dir_entries[i];
            if entry.is_active() {
                if entry.inode_no() < 1 || entry.inode_no() > EZFS_MAX_INODES as u64 {
                    proof {
                        assert((#[trigger] self@[i as int]).active != 0 && !valid_ino(
                            self@[i as int],
                        ));
                        assert(listed_views(items@).len() == items@.len());
                        assert((d + spec_items(self@, inodes@, slot, i as int)).len() == d.len()
                            + spec_items(self@, inodes@, slot, i as int).len());
                        assert(spec_items(self@, inodes@, slot, i as int).len() == items@.len()
                            - d.len());
                    }
                    return Err(Error(EIO));
                }
                let node = inodes.get((entry.inode_no() - 1) as usize);
                let listed = DirListEntry {
                    name: entry.filename(),
                    inode_no: entry.inode_no(),
                    etype: type_of_mode(node.mode()),
                };
                proof {
                    assert(listed@ == spec_item(self@[i as int], inodes@));
                }
                let ghost pre = items@;
                items.push(listed);
                proof {
                    lemma_items_snoc(self@, inodes@, slot, i as int);
                    lemma_listed_views_push(pre, listed);
                    assert(listed_views(items@) == listed_views(pre).push(listed@));
                    assert(listed_views(items@) =~= d + spec_items(
                        self@,
                        inodes@,
                        slot,
                        i as int + 1,
                    ));
                }
            } else {
                proof {
                    lemma_items_snoc(self@, inodes@, slot, i as int);
                    assert(listed_views(items@) =~= d + spec_items(
                        self@,
                        inodes@,
                        slot,
                        i as int + 1,
                    ));
                }
            }
            i = i + 1;
        }
        proof {
            let tl = lemma_list_exit(
                self@,
                inodes@,
                d,
                slot,
                budget as int,
                listed_views(items@),
                i as int,
            );
        }
        Ok((items, 2 + (i as u64) * (EZFS_DENTRY_SIZE as u64)))
    }
}

/// At either way out of the scan loop, the accumulated items and the slot
/// reached satisfy the contract of a successful scan resumed after the
/// pseudo-entries.
proof fn lemma_list_exit(
    entries: Seq<EzfsDirEntry>,
    inodes: Seq<EzfsInode>,
    d: Seq<(Seq<u8>, u64, DirEntryType)>,
    slot: int,
    budget: int,
    mapped: Seq<(Seq<u8>, u64, DirEntryType)>,
    i: int,
) -> (tail: Seq<(Seq<u8>, u64, DirEntryType)>)
    requires
        budget >= d.len(),
        0 <= slot <= i <= entries.len(),
        mapped == d + spec_items(entries, inodes, slot, i),
        live_inos_valid(entries, slot, i),
        mapped.len() <= budget,
        mapped.len() == budget ==> ((i == slot && budget == d.len()) || (i > slot && entries[i
            - 1].active != 0)),
        mapped.len() == budget || i == entries.len(),
    ensures
        tail == mapped.skip(d.len() as int),
        mapped.take(d.len() as int) == d,
        scan_ok(entries, inodes, slot, budget - d.len(), tail, i),
{
    let tail = mapped.skip(d.len() as int);
    assert(tail =~~= spec_items(entries, inodes, slot, i));
    assert(mapped.take(d.len() as int) =~~= d);
    if budget == d.len() && i > slot {
        // all room went to the pseudo-entries, yet a slot before `i` was
        // emitted: then the scanned items could not be empty
        assert(tail.len() == 0);
        assert(mapped.len() == budget);
        assert(entries[i - 1].active != 0);
        lemma_items_snoc(entries, inodes, slot, i - 1);
        assert(false);
    }
    tail
}
fn bytes_eq(a: &[u8], b: &[u8]) -> (r: bool)
    ensures
        r == (a@ == b@),
{
    if a.len() != b.len() {
        proof {
            assert(a@.len() != b@.len());
        }
        return false;
    }
    let mut i: usize = 0;
    while i < a.len()
        invariant
            i <= a@.len(),
            a@.len() == b@.len(),
            forall|j: int| 0 <= j < i ==> a@[j] == b@[j],
        decreases a@.len() - i,
    {
        if a[i] != b[i] {
            return false;
        }
        i = i + 1;
    }
    proof {
        assert(a@ =~= b@);
    }
    true
}

} // verus!
