//! On-disk structures of the Btrfs and Ext2 file systems.

pub mod btrfs;
pub mod ext2;
