//! The BCM2837 DMA engine: control blocks and the channel registers.

use vstd::prelude::*;
use crate::mailbox::vc::Framebuffer;

verus! {

pub const MMIO_BASE: u32 = 0x3F00_0000;
pub const DMA0_BASE: u32 = 0x3F00_7000;
/// The global enable register.
pub const DMA_ENABLE: u32 = 0x3F00_7FF0;
/// Offsets of the control/status and control-block-address registers.
pub const DMA_CS: u32 = 0x0;
pub const DMA_CBA: u32 = 0x4;

/// A transfer description, 32-byte aligned in memory.
#[derive(Clone, Copy, Debug, PartialEq, Eq, Structural)]
pub struct DmaControlBlock {
    pub ti: u32,
    pub src: u32,
    pub dst: u32,
    /// length in bytes
    pub len: u32,
    pub stride: u32,
    pub ncba: u32,
    pub reserved1: u32,
    pub reserved2: u32,
}

/// A DMA channel, by the address of its registers.
#[derive(Clone, Copy, Debug)]
pub struct DmaChannel {
    pub addr: u32,
}

/// Bus address of the SD host's data register.
pub const SDHCI_DATA_BUS_ADDRESS: u32 = 0x7E30_0020;

impl DmaControlBlock {
    /// The block that copies one 512-byte SD block from the host's data
    /// register to `dst`: destination increment, paced by the SD host's
    /// data request (peripheral 11) on the source side.
    pub open spec fn sd_block_read_spec(dst: u32) -> Self {
        DmaControlBlock {
            ti: 0x000B_0410,
            src: SDHCI_DATA_BUS_ADDRESS,
            dst,
            len: 512,
            stride: 0,
            ncba: 0,
            reserved1: 0,
            reserved2: 0,
        }
    }

    pub fn sd_block_read(dst: u32) -> (cb: Self)
        ensures
            cb == Self::sd_block_read_spec(dst),
    {
        DmaControlBlock {
            ti: 0x000B_0410,
            src: SDHCI_DATA_BUS_ADDRESS,
            dst,
            len: 512,
            stride: 0,
            ncba: 0,
            reserved1: 0,
            reserved2: 0,
        }
    }
}

/// Size of the off-screen buffer that is copied to the screen, in pixels.
pub const SCREEN_WIDTH: u32 = 640;
pub const SCREEN_HEIGHT: u32 = 480;

impl DmaControlBlock {
    /// The block that copies the 640 by 480 off-screen buffer at `src` to
    /// the framebuffer `fb`: source and destination increment and wide
    /// bursts, length in 2D mode (640 lines of 480), and a stride of a
    /// quarter of the pitch.
    pub open spec fn screen_copy_spec(src: u32, fb: Framebuffer) -> Self {
        DmaControlBlock {
            ti: 0x330,
            src,
            dst: fb.ptr,
            len: 0x0280_01E0,
            stride: fb.pitch / 4,
            ncba: 0,
            reserved1: 0,
            reserved2: 0,
        }
    }

    pub fn screen_copy(src: u32, fb: &Framebuffer) -> (cb: Self)
        ensures
            cb == Self::screen_copy_spec(src, *fb),
    {
        let p = fb.pitch;
        assert(p >> 2u32 == p / 4) by (bit_vector);
        DmaControlBlock {
            ti: 0x330,
            src,
            dst: fb.ptr,
            len: 0x0280_01E0,
            stride: fb.pitch >> 2u32,
            ncba: 0,
            reserved1: 0,
            reserved2: 0,
        }
    }
}

impl DmaChannel {
    /// Channel 0.
    pub fn channel0() -> (c: Self)
        ensures
            c.addr == DMA0_BASE,
    {
        DmaChannel { addr: DMA0_BASE }
    }

    /// Address of the control-block-address register.
    pub fn cba_register(&self) -> (r: u32)
        requires
            self.addr + DMA_CBA <= u32::MAX,
        ensures
            r == self.addr + DMA_CBA,
    {
        self.addr + DMA_CBA
    }

    /// Address of the control/status register.
    pub fn cs_register(&self) -> (r: u32)
        ensures
            r == self.addr,
    {
        self.addr + DMA_CS
    }

    /// Whether a transfer has ended: the END bit of the status register.
    pub fn transfer_ended(cs: u32) -> (r: bool)
        ensures
            r == (cs & 2 != 0),
    {
        cs & 0x2 != 0
    }
}

} // verus!
