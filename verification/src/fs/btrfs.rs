//! Btrfs on-disk structures.

use vstd::prelude::*;

verus! {

/// A 16-byte universally unique identifier.
pub type UUID = [u8; 16];

/// A checksum of one 4 KiB block.
pub type CSumItem = [u8; 4];

/// A key as stored on disk.
pub type DiskKey = Key;

/// Location, properties and usage of a block group.
#[derive(Clone, Copy, Debug)]
pub struct BlockGroupItem {
    /// Space used in this block group.
    pub used: u64,
    /// Object id of the chunk backing this block group.
    pub chunk_objectid: u64,
    flags: u64,
}

/// The type of storage a block group offers.
#[derive(Clone, Copy, Debug, PartialEq, Eq, Structural)]
pub enum BlockGroupItemAllocationType {
    Data,
    System,
    Metadata,
}

impl BlockGroupItemAllocationType {
    /// The flag bit.
    pub fn code(&self) -> (r: u64)
        ensures
            r == match *self {
                BlockGroupItemAllocationType::Data => 0x1u64,
                BlockGroupItemAllocationType::System => 0x2,
                BlockGroupItemAllocationType::Metadata => 0x4,
            },
    {
        match self {
            BlockGroupItemAllocationType::Data => 0x1,
            BlockGroupItemAllocationType::System => 0x2,
            BlockGroupItemAllocationType::Metadata => 0x4,
        }
    }
}

/// The replication policy of a block group.
#[derive(Clone, Copy, Debug, PartialEq, Eq, Structural)]
pub enum BlockGroupItemReplicationPolicy {
    /// Striping (RAID-0).
    Raid0,
    /// Mirror on a separate device (RAID-1).
    Raid1,
    /// Mirror on a single device.
    Dup,
    /// Striping and mirroring (RAID-10).
    Raid10,
    /// Parity striping, single-disk fault tolerance.
    Raid5,
    /// Parity striping, double-disk fault tolerance.
    Raid6,
}

impl BlockGroupItemReplicationPolicy {
    /// The flag bit.
    pub fn code(&self) -> (r: u64)
        ensures
            r == match *self {
                BlockGroupItemReplicationPolicy::Raid0 => 0x08u64,
                BlockGroupItemReplicationPolicy::Raid1 => 0x10,
                BlockGroupItemReplicationPolicy::Dup => 0x20,
                BlockGroupItemReplicationPolicy::Raid10 => 0x40,
                BlockGroupItemReplicationPolicy::Raid5 => 0x80,
                BlockGroupItemReplicationPolicy::Raid6 => 0x100,
            },
    {
        match self {
            BlockGroupItemReplicationPolicy::Raid0 => 0x08,
            BlockGroupItemReplicationPolicy::Raid1 => 0x10,
            BlockGroupItemReplicationPolicy::Dup => 0x20,
            BlockGroupItemReplicationPolicy::Raid10 => 0x40,
            BlockGroupItemReplicationPolicy::Raid5 => 0x80,
            BlockGroupItemReplicationPolicy::Raid6 => 0x100,
        }
    }
}

/// Mapping of a logical byte range to stripes on backing devices.
#[derive(Clone, Copy, Debug)]
pub struct Chunk {
    /// Size of this chunk in bytes.
    pub length: u64,
    /// Object id of the root referencing this chunk.
    pub owner: u64,
    /// Replication stripe length.
    pub stripe_len: u64,
    /// Block group flags.
    pub flags: u64,
    /// Optimal I/O alignment.
    pub io_align: u32,
    /// Optimal I/O width.
    pub io_width: u32,
    /// Minimal I/O size.
    pub sector_size: u32,
    /// Number of replication stripes.
    pub num_stripes: u16,
    /// The first stripe.
    pub stripe: Stripe,
}

/// A physical extent on a backing device that belongs to a chunk.
#[derive(Clone, Copy, Debug)]
pub struct DevExtent {
    /// Object id of the owning chunk tree.
    pub chunk_tree: u64,
    /// Object id of the referencing chunk item.
    pub chunk_objectid: u64,
    /// Offset of the referencing chunk item.
    pub chunk_offset: u64,
    /// Length of this extent in bytes.
    pub length: u64,
    /// UUID of the owning chunk tree.
    pub chunk_tree_uuid: [u8; 16],
}

/// A complete block device.
#[derive(Clone, Copy, Debug)]
pub struct DevItem {
    /// Internal device id.
    pub devid: u64,
    /// Size of the device.
    pub total_bytes: u64,
    /// Bytes used.
    pub bytes_used: u64,
    /// Optimal I/O alignment.
    pub io_align: u32,
    /// Optimal I/O width.
    pub io_width: u32,
    /// Minimal I/O size.
    pub sector_size: u32,
    /// Type and information about this device.
    pub dev_type: u64,
    /// Expected generation.
    pub generation: u64,
    /// Starting byte of this partition.
    pub start_offset: u64,
    /// Grouping information.
    pub dev_group: u32,
    /// Seek speed, 0 to 100.
    pub seek_speed: u8,
    /// Bandwidth, 0 to 100.
    pub bandwidth: u8,
    /// Device UUID.
    pub uuid: [u8; 16],
    /// UUID of the owning file system.
    pub fsid: [u8; 16],
}

/// Error statistics of a device.
#[derive(Clone, Copy, Debug)]
pub struct DevStatsItem {
    /// Write errors.
    pub write_errs: u64,
    /// Read errors.
    pub read_errs: u64,
    /// Flush errors.
    pub flush_errs: u64,
    /// Corruption errors.
    pub corruption_err: u64,
    /// Blocks not written.
    pub generation_err: u64,
}

/// State needed to resume a device replacement.
#[derive(Clone, Copy, Debug)]
pub struct DevReplaceItem {
    /// Source device id.
    pub src_devid: u64,
    cursor_left: u64,
    cursor_right: u64,
    cont_reading_from_srcdev_mode: u64,
    /// State of the replacement.
    pub replace_state: IoctlDevReplaceState,
    time_started: u64,
    time_stopped: u64,
    /// Uncorrectable read errors.
    pub num_uncorrectable_read_errors: u64,
}

/// State of a device replacement.
#[derive(Clone, Copy, Debug, PartialEq, Eq, Structural)]
pub enum IoctlDevReplaceState {
    Started,
}

/// Header of a directory entry item.
#[derive(Clone, Copy, Debug)]
pub struct DirItem {
    /// Key of the item this entry names.
    pub location: DiskKey,
    /// Transaction that created this entry.
    pub transid: u64,
    /// Length of the extended attribute data.
    pub data_len: u16,
    /// Length of the name.
    pub name_len: u16,
    /// Type of the target.
    pub file_type: FileType,
}

/// Directory entry types (the readdir d_type values).
#[derive(Clone, Copy, Debug, PartialEq, Eq, Structural)]
pub enum FileType {
    /// Unknown type.
    Unknown,
    /// Regular file.
    RegFile,
    /// Directory.
    Dir,
    /// Character device.
    ChrDev,
    /// Block device.
    BlkDev,
    /// FIFO.
    Fifo,
    /// Socket.
    Sock,
    /// Symbolic link.
    Symlink,
    /// Extended attribute item.
    Xattr,
}

impl FileType {
    /// The on-disk value.
    pub fn code(&self) -> (r: u8)
        ensures
            r == match *self {
                FileType::Unknown => 0u8,
                FileType::RegFile => 1,
                FileType::Dir => 2,
                FileType::ChrDev => 3,
                FileType::BlkDev => 4,
                FileType::Fifo => 5,
                FileType::Sock => 6,
                FileType::Symlink => 7,
                FileType::Xattr => 8,
            },
    {
        match self {
            FileType::Unknown => 0,
            FileType::RegFile => 1,
            FileType::Dir => 2,
            FileType::ChrDev => 3,
            FileType::BlkDev => 4,
            FileType::Fifo => 5,
            FileType::Sock => 6,
            FileType::Symlink => 7,
            FileType::Xattr => 8,
        }
    }
}

/// Header at the start of every tree block.
#[derive(Clone, Copy, Debug)]
pub struct Header {
    /// Virtual address of the block.
    pub bytenr: u32,
    /// Object id of the owning tree.
    pub owner: u8,
}

/// Locates an item in a tree: object id, type and offset.
#[derive(Clone, Copy, Debug)]
pub struct Key {
    objectid: u64,
    key_type: u8,
    offset: u64,
}

/// The stat data of an inode.
#[derive(Clone, Copy, Debug)]
pub struct INodeItem {
    generated: u64,
    transid: u64,
    size: u64,
    nbytes: u64,
    block_group: u64,
    nlink: u32,
    uid: u32,
    gid: u32,
    mode: u32,
    rdev: u64,
    flags: u64,
    sequence: u64,
    reserved: [u64; 4],
    atime: Timespec,
    ctime: Timespec,
    mtime: Timespec,
    otime: Timespec,
}

/// Inode flags.
#[derive(Clone, Copy, Debug, PartialEq, Eq, Structural)]
pub enum INodeFlags {
    /// No checksums on this inode.
    NoDataSum,
    /// No copy-on-write for data extents.
    NoDataCow,
    /// Read-only.
    ReadOnly,
    /// Do not compress.
    NoCompress,
    /// Has preallocated extents.
    Prealloc,
    /// Synchronous operations.
    ISync,
    /// Immutable.
    Immutable,
    /// Append-only.
    Append,
    /// Not a candidate for dump(8).
    NoDump,
    /// Do not update atime.
    NoATime,
    /// Synchronous directory operations.
    DirSync,
    /// Compression enabled.
    Compress,
}

impl INodeFlags {
    /// The flag bit.
    pub fn code(&self) -> (r: u64)
        ensures
            r == match *self {
                INodeFlags::NoDataSum => 0x1u64,
                INodeFlags::NoDataCow => 0x2,
                INodeFlags::ReadOnly => 0x4,
                INodeFlags::NoCompress => 0x8,
                INodeFlags::Prealloc => 0x10,
                INodeFlags::ISync => 0x20,
                INodeFlags::Immutable => 0x40,
                INodeFlags::Append => 0x80,
                INodeFlags::NoDump => 0x100,
                INodeFlags::NoATime => 0x200,
                INodeFlags::DirSync => 0x400,
                INodeFlags::Compress => 0x800,
            },
    {
        match self {
            INodeFlags::NoDataSum => 0x1,
            INodeFlags::NoDataCow => 0x2,
            INodeFlags::ReadOnly => 0x4,
            INodeFlags::NoCompress => 0x8,
            INodeFlags::Prealloc => 0x10,
            INodeFlags::ISync => 0x20,
            INodeFlags::Immutable => 0x40,
            INodeFlags::Append => 0x80,
            INodeFlags::NoDump => 0x100,
            INodeFlags::NoATime => 0x200,
            INodeFlags::DirSync => 0x400,
            INodeFlags::Compress => 0x800,
        }
    }
}

/// A point in time.
#[derive(Clone, Copy, Debug)]
pub struct Timespec {
    /// Seconds.
    pub seconds: i64,
    /// Nanoseconds.
    pub nanoseconds: i32,
}

/// The root of a btree.
#[derive(Clone, Copy, Debug)]
pub struct RootItem {
    /// Inode stat data.
    pub inode: INodeItem,
    /// Transaction that created this root.
    pub generation: u64,
    /// Object id of the root directory.
    pub root_dirid: u64,
    /// Disk offset of the root node.
    pub bytnr: u64,
    /// Unused.
    pub byte_limit: u64,
    /// Unused.
    pub bytes_used: u64,
    /// Last snapshot transaction.
    pub last_snapshot: u64,
    /// Flags.
    pub flags: u64,
    /// Reference count.
    pub refs: u32,
    /// Key of the last dropped item.
    pub drop_progress: DiskKey,
    /// Tree level of drop_progress.
    pub drop_level: u8,
    /// Height of the tree.
    pub level: u8,
    /// Validity of the following fields.
    pub generation_v2: u64,
    /// Subvolume UUID.
    pub uuid: [u8; 16],
    /// Parent UUID.
    pub parent_uuid: [u8; 16],
    /// Received UUID.
    pub received_uuid: [u8; 16],
    /// Last modifying transaction.
    pub ctransid: u64,
    /// Creating transaction.
    pub otransid: u64,
    /// Sending transaction.
    pub stransid: u64,
    /// Receiving transaction.
    pub rtransid: u64,
    /// Time of ctransid.
    pub ctime: Timespec,
    /// Time of otransid.
    pub otime: Timespec,
    /// Time of stransid.
    pub stime: Timespec,
    /// Time of rtransid.
    pub rtime: Timespec,
    reserved: [u64; 8],
}

/// Backing storage of a chunk on one device.
#[derive(Clone, Copy, Debug)]
pub struct Stripe {
    /// Device id.
    pub devid: u64,
    /// Start of the stripe in bytes.
    pub offset: u64,
    /// UUID of the device.
    pub dev_uuid: [u8; 16],
}

/// The superblock.
#[derive(Clone, Copy, Debug)]
pub struct SuperBlock {
    /// Checksum of everything past this field.
    pub csum: [u8; 20],
    /// File system UUID.
    pub fsid: [u8; 10],
    /// Physical address of this block.
    pub bytenr: u64,
    flags: u64,
    /// Magic.
    pub magc: u64,
    /// Generation.
    pub generation: u64,
    /// Logical address of the root tree root.
    pub root: u64,
    /// Logical address of the chunk tree root.
    pub chunk_root: u64,
    /// Logical address of the log tree root.
    pub log_root: u64,
    /// Log root transaction.
    pub log_root_transid: u64,
    /// Total bytes.
    pub total_bytes: u64,
    /// Bytes used.
    pub bytes_used: u64,
    /// Root directory object id.
    pub root_dir_objectid: u64,
    /// Sector size.
    pub sector_size: u64,
    /// Node size.
    pub node_size: u64,
    /// Unused.
    pub leaf_size: u64,
    /// Stripe size.
    pub stripe_size: u64,
    /// Size of the system chunk array.
    pub sys_chunk_array_size: u64,
    /// Chunk root generation.
    pub chunk_root_generation: u64,
    /// Compatible flags.
    pub compat_flags: u64,
    /// Flags needed to write.
    pub compat_ro_flags: u64,
    /// Flags needed to use the file system.
    pub incompat_flags: u64,
    /// Checksum type.
    pub csum_type: u64,
    /// Root level.
    pub root_level: u8,
    /// Chunk root level.
    pub chunk_root_level: u8,
    /// Log root level.
    pub log_root_level: u8,
    /// Device item of this device.
    pub dev_item: DevItem,
    /// Label.
    pub label: [u8; 100],
    /// Cache generation.
    pub cache_generation: u64,
    /// UUID tree generation.
    pub uuid_tree_generation: u64,
    /// Reserved.
    pub reserved: [u64; 30],
    /// Key and chunk item pairs of the system chunks.
    pub sys_chunk_array: [u8; 800],
}

} // verus!
