//! Ext2 on-disk structures: the superblock, inodes and directory entries.

use vstd::prelude::*;

verus! {

/// The base superblock, found 1024 bytes from the start of the volume.
#[derive(Clone, Copy, Debug)]
pub struct SuperBlock {
    /// Total number of inodes in the file system.
    pub total_inodes: u32,
    /// Total number of blocks in the file system.
    pub total_blocks: u32,
    /// Number of blocks reserved for the superuser.
    pub reserved_blocks: u32,
    /// Number of unallocated blocks.
    pub unalloc_blocks: u32,
    /// Number of unallocated inodes.
    pub unalloc_inodes: u32,
    /// Block number of the block holding the superblock.
    pub super_block: u32,
    /// log2(block size) - 10.
    pub block_size: u32,
    /// log2(fragment size) - 10.
    pub fragment_size: u32,
    /// Number of blocks in each block group.
    pub blocks_per_group: u32,
    /// Number of fragments in each block group.
    pub fragments_per_group: u32,
    /// Number of inodes in each block group.
    pub inodes_per_group: u32,
    /// Last mount time (POSIX time).
    pub mount_time: u32,
    /// Last written time (POSIX time).
    pub write_time: u32,
    /// Mounts since the last consistency check.
    pub fsck_mounts: u16,
    /// Mounts allowed before a consistency check must be done.
    pub fsck_mounts_allowed: u16,
    /// Ext2 signature (0xef53).
    pub signature: u16,
    /// File system state.
    pub fs_state: FileSystemState,
    /// What to do when an error is detected.
    pub err_handle: ErrorHandle,
    /// Minor portion of the version.
    pub min_ver: u16,
    /// POSIX time of the last consistency check.
    pub fsck_time: u32,
    /// Interval between forced consistency checks.
    pub fsck_time_allowed: u32,
    /// Operating system that created the file system.
    pub os_id: u32,
    /// Major portion of the version.
    pub maj_ver: u32,
    /// User that may use the reserved blocks.
    pub uid_reserved_blocks: u16,
    /// Group that may use the reserved blocks.
    pub gid_reserved_blocks: u16,
}

/// State of the file system.
#[derive(Clone, Copy, Debug, PartialEq, Eq, Structural)]
pub enum FileSystemState {
    Clean,
    Error,
}

impl FileSystemState {
    /// The on-disk value.
    pub fn code(&self) -> (r: u16)
        ensures
            r == match *self {
                FileSystemState::Clean => 1u16,
                FileSystemState::Error => 2,
            },
    {
        match self {
            FileSystemState::Clean => 1,
            FileSystemState::Error => 2,
        }
    }
}

/// What to do when an error is detected.
#[derive(Clone, Copy, Debug, PartialEq, Eq, Structural)]
pub enum ErrorHandle {
    /// Ignore the error (continue on).
    Ignore,
    /// Remount the file system read-only.
    RemountReadOnly,
    /// Kernel panic.
    Panic,
}

impl ErrorHandle {
    /// The on-disk value.
    pub fn code(&self) -> (r: u16)
        ensures
            r == match *self {
                ErrorHandle::Ignore => 1u16,
                ErrorHandle::RemountReadOnly => 2,
                ErrorHandle::Panic => 3,
            },
    {
        match self {
            ErrorHandle::Ignore => 1,
            ErrorHandle::RemountReadOnly => 2,
            ErrorHandle::Panic => 3,
        }
    }
}

/// Operating system from which the file system was created.
#[derive(Clone, Copy, Debug, PartialEq, Eq, Structural)]
pub enum OSId {
    Linux,
    GNUHurd,
    /// MASIX.
    Masix,
    FreeBSD,
    /// Other BSD4.4-Lite derivatives.
    Lite,
}

impl OSId {
    /// The on-disk value.
    pub fn code(&self) -> (r: u32)
        ensures
            r == match *self {
                OSId::Linux => 0u32,
                OSId::GNUHurd => 1,
                OSId::Masix => 2,
                OSId::FreeBSD => 3,
                OSId::Lite => 4,
            },
    {
        match self {
            OSId::Linux => 0,
            OSId::GNUHurd => 1,
            OSId::Masix => 2,
            OSId::FreeBSD => 3,
            OSId::Lite => 4,
        }
    }
}

/// Extended superblock fields (present from major version 1).
#[derive(Clone, Copy, Debug)]
pub struct ExtSuperBlock {}

/// Where a block group's bookkeeping structures are located.
#[derive(Clone, Copy, Debug)]
pub struct BlockGroupDescriptor {}

/// An inode.
#[derive(Clone, Copy, Debug)]
pub struct INode {
    /// Type and permissions.
    pub types_and_permissions: u16,
    /// User ID.
    pub uid: u16,
    /// Lower 32 bits of the size in bytes.
    pub li_size_bytes: u32,
    /// Last access time.
    pub atime: u32,
    /// Creation time.
    pub ctime: u32,
    /// Last modification time.
    pub mtime: u32,
    /// Deletion time.
    pub dtime: u32,
    /// Group ID.
    pub gid: u16,
    /// Count of hard links to this inode.
    pub hard_link_count: u16,
    /// Count of disk sectors in use.
    pub disk_sectors: u32,
    /// Flags.
    pub flags: u32,
    /// Operating-system specific.
    pub _reserved: u32,
    /// Direct block pointer 0.
    pub direct_block_ptr0: u32,
    /// Direct block pointer 1.
    pub direct_block_ptr1: u32,
    /// Direct block pointer 2.
    pub direct_block_ptr2: u32,
    /// Direct block pointer 3.
    pub direct_block_ptr3: u32,
    /// Direct block pointer 4.
    pub direct_block_ptr4: u32,
    /// Direct block pointer 5.
    pub direct_block_ptr5: u32,
    /// Direct block pointer 6.
    pub direct_block_ptr6: u32,
    /// Direct block pointer 7.
    pub direct_block_ptr7: u32,
    /// Direct block pointer 8.
    pub direct_block_ptr8: u32,
    /// Direct block pointer 9.
    pub direct_block_ptr9: u32,
    /// Direct block pointer 10.
    pub direct_block_ptr10: u32,
    /// Direct block pointer 11.
    pub direct_block_ptr11: u32,
    /// Singly indirect block pointer.
    pub single_indirect_block_ptr: u32,
    /// Doubly indirect block pointer.
    pub double_indirect_block_ptr: u32,
    /// Triply indirect block pointer.
    pub triple_indirect_block_ptr: u32,
    /// Generation number.
    pub generation: u32,
    /// Extended attribute block.
    pub file_acl: u32,
    /// Upper 32 bits of the file size.
    pub file_size: u32,
    /// Directory ACL.
    pub directory_acl: u32,
    /// Fragment number.
    pub fragment: u8,
    /// Fragment size.
    pub fragment_size: u8,
    /// High 16 bits of the type and permissions.
    pub hi_types_and_permissions: u16,
    /// High 16 bits of the user ID.
    pub hi_uid: u16,
    /// High 16 bits of the group ID.
    pub hi_gid: u16,
    /// User ID of the author.
    pub uid_author: u32,
}

/// A directory entry: a name and inode pair.
#[derive(Clone, Copy, Debug)]
pub struct DirEnt {
    /// Inode number.
    pub inode: u32,
    /// Total size of this entry.
    pub size: u16,
    /// Least-significant 8 bits of the name length.
    pub name_length: u8,
    /// Name characters.
    pub name_characters: [u8; 32],
}

} // verus!
