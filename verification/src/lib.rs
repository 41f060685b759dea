//! Verified core of a small bare-metal kernel for the Raspberry Pi 3:
//! byte decoding, on-disk structures (MBR, FAT32), SD host controller
//! decisions, VideoCore mailbox messages, framebuffer drawing, UART text
//! and assorted register arithmetic.

pub mod bitmath;
pub mod pci;
pub mod text;
pub mod fat;
pub mod mbr;
pub mod sdhci;
pub mod uart;
pub mod mailbox;
pub mod postman;
pub mod font;
pub mod exported_image;
pub mod rtl8139;
pub mod memory;
pub mod mmu;
pub mod time;
pub mod led;
pub mod dma;
pub mod gpio;
pub mod fs;
pub mod screen;
