//! The property channel of the VideoCore IV mailbox: tagged messages that
//! query and configure the display and allocate the framebuffer.

use vstd::prelude::*;

verus! {

pub const MMIO_BASE: u32 = 0x3F00_0000;
pub const MBOX_BASE: u32 = 0x3F00_B880;
pub const MBOX_READ: u32 = 0x3F00_B880;
pub const MBOX_STATUS: u32 = 0x3F00_B898;
pub const MBOX_WRITE: u32 = 0x3F00_B8A0;
pub const MBOX_FULL: u32 = 0x8000_0000;
pub const MBOX_EMPTY: u32 = 0x4000_0000;
pub const PROPERTY_CHANNEL: u8 = 8;

/* Framebuffer tags */
pub const ALLOC_FRAMEBUFFER_TAG: u32 = 0x40001;
pub const RELEASE_FRAMEBUFFER_TAG: u32 = 0x48001;
pub const BLANK_SCREEN_TAG: u32 = 0x40002;
pub const GET_DISP_SIZE_TAG: u32 = 0x40003;
pub const SET_BIT_DEPTH_TAG: u32 = 0x48005;
pub const GET_PITCH_TAG: u32 = 0x40008;

pub enum PowerDeviceId {
    SdCard,
    Uart0,
    Uart1,
    UsbHcd,
    I2C0,
    I2C1,
    I2C2,
    SPI,
    Ccp2tx,
}

impl PowerDeviceId {
    /// The device number the firmware uses.
    pub fn code(&self) -> (r: u32)
        ensures
            r == match *self {
                PowerDeviceId::SdCard => 0u32,
                PowerDeviceId::Uart0 => 1,
                PowerDeviceId::Uart1 => 2,
                PowerDeviceId::UsbHcd => 3,
                PowerDeviceId::I2C0 => 4,
                PowerDeviceId::I2C1 => 5,
                PowerDeviceId::I2C2 => 6,
                PowerDeviceId::SPI => 7,
                PowerDeviceId::Ccp2tx => 8,
            },
    {
        match self {
            PowerDeviceId::SdCard => 0,
            PowerDeviceId::Uart0 => 1,
            PowerDeviceId::Uart1 => 2,
            PowerDeviceId::UsbHcd => 3,
            PowerDeviceId::I2C0 => 4,
            PowerDeviceId::I2C1 => 5,
            PowerDeviceId::I2C2 => 6,
            PowerDeviceId::SPI => 7,
            PowerDeviceId::Ccp2tx => 8,
        }
    }
}

pub enum ClockId {
    Reserved,
    Emmc,
    Uart,
    Arm,
    Core,
    V3D,
    H264,
    ISP,
    Sdram,
    Pixel,
    Pwm,
    Emmc2,
}

impl ClockId {
    /// The clock number the firmware uses (0xB is not assigned).
    pub fn code(&self) -> (r: u32)
        ensures
            r == match *self {
                ClockId::Reserved => 0u32,
                ClockId::Emmc => 1,
                ClockId::Uart => 2,
                ClockId::Arm => 3,
                ClockId::Core => 4,
                ClockId::V3D => 5,
                ClockId::H264 => 6,
                ClockId::ISP => 7,
                ClockId::Sdram => 8,
                ClockId::Pixel => 9,
                ClockId::Pwm => 0xA,
                ClockId::Emmc2 => 0xC,
            },
    {
        match self {
            ClockId::Reserved => 0,
            ClockId::Emmc => 1,
            ClockId::Uart => 2,
            ClockId::Arm => 3,
            ClockId::Core => 4,
            ClockId::V3D => 5,
            ClockId::H264 => 6,
            ClockId::ISP => 7,
            ClockId::Sdram => 8,
            ClockId::Pixel => 9,
            ClockId::Pwm => 0xA,
            ClockId::Emmc2 => 0xC,
        }
    }
}

pub enum VoltageId {
    Reserved,
    Core,
    SdramC,
    SdramP,
    SdramI,
}

impl VoltageId {
    /// The voltage number the firmware uses.
    pub fn code(&self) -> (r: u32)
        ensures
            r == match *self {
                VoltageId::Reserved => 0u32,
                VoltageId::Core => 1,
                VoltageId::SdramC => 2,
                VoltageId::SdramP => 3,
                VoltageId::SdramI => 4,
            },
    {
        match self {
            VoltageId::Reserved => 0,
            VoltageId::Core => 1,
            VoltageId::SdramC => 2,
            VoltageId::SdramP => 3,
            VoltageId::SdramI => 4,
        }
    }
}

/// Flags of a GPU memory allocation.
pub enum MemoryFlags {
    /// can be resized to 0 at any time; for cached data
    Discardable,
    /// normal allocating alias; not for the ARM
    Normal,
    /// the 0xC alias, uncached
    Direct,
    /// the 0x8 alias, non-allocating in L2 but coherent
    Coherent,
    /// initialise the buffer to zeros
    Zero,
    /// do not initialise (the default is all ones)
    NoInit,
    /// likely to stay locked for a long time
    HintPermalock,
}

impl MemoryFlags {
    /// The flag bits the firmware uses.
    pub fn code(&self) -> (r: u32)
        ensures
            r == match *self {
                MemoryFlags::Discardable => 1u32,
                MemoryFlags::Normal => 0,
                MemoryFlags::Direct => 4,
                MemoryFlags::Coherent => 8,
                MemoryFlags::Zero => 0x10,
                MemoryFlags::NoInit => 0x20,
                MemoryFlags::HintPermalock => 0x40,
            },
    {
        match self {
            MemoryFlags::Discardable => 0x01,
            MemoryFlags::Normal => 0x00,
            MemoryFlags::Direct => 0x04,
            MemoryFlags::Coherent => 0x08,
            MemoryFlags::Zero => 0x10,
            MemoryFlags::NoInit => 0x20,
            MemoryFlags::HintPermalock => 0x40,
        }
    }
}

/// The VideoCore mailbox.
pub struct VCMailbox;

/// Whether the mailbox accepts a write: the status word is not exactly
/// the "full" flag.
pub fn mailbox_accepts(status: u32) -> (r: bool)
    ensures
        r == (status != MBOX_FULL),
{
    status != MBOX_FULL
}

/// Whether the reply mailbox may be read: the status word is exactly the
/// "empty" flag, as the driver tests it.
pub fn mailbox_readable(status: u32) -> (r: bool)
    ensures
        r == (status == MBOX_EMPTY),
{
    status == MBOX_EMPTY
}

/// A property-channel message with a single tag.
pub struct VCMail<T> {
    pub size: u32,
    pub request: u32,
    pub tag: u32,
    pub buffer_size: u32,
    pub request_size: u32,
    pub message: T,
    pub end: u32,
}

pub struct GetDisplaySize {
    pub horz_res: u32,
    pub vert_res: u32,
}

pub struct SetBitDepth {
    pub bit_depth: u32,
}

pub struct AllocateFramebuffer {
    /// the requested alignment; the reply puts the buffer's address here
    pub alignment: u32,
    pub fb_size: u32,
}

/// Bytes per line of the framebuffer.
pub struct GetPitch {
    pub pitch: u32,
}

/// No payload.
pub struct ReleaseFramebuffer;

pub type GetDisplaySizeMail = VCMail<GetDisplaySize>;
pub type SetBitDepthMail = VCMail<SetBitDepth>;
pub type AllocateFramebufferMail = VCMail<AllocateFramebuffer>;
pub type ReleaseFramebufferMail = VCMail<ReleaseFramebuffer>;
pub type GetPitchMail = VCMail<GetPitch>;
pub type BlankScreenMail = VCMail<u32>;

/// The mailbox word that sends a message at `ptr`: its address in the
/// uncached 0xC000_0000 alias.
pub open spec fn vc_message_address(ptr: u32) -> u32 {
    ptr | 0xC000_0000
}

impl VCMailbox {
    pub fn message_address(ptr: u32) -> (r: u32)
        ensures
            r == vc_message_address(ptr),
    {
        ptr | 0xC000_0000
    }

    /// The request that blanks (1) or unblanks (0) the screen; the reply's
    /// message is the resulting state.
    pub fn blank_screen(state: u32) -> (m: BlankScreenMail)
        ensures
            m == (VCMail { size: 24, request: 0, tag: BLANK_SCREEN_TAG, buffer_size: 4, request_size: 4, message: state, end: 0 }),
    {
        VCMail { size: 24, request: 0, tag: BLANK_SCREEN_TAG, buffer_size: 4, request_size: 4, message: state, end: 0 }
    }

    /// The request that releases the framebuffer.
    pub fn release_buffer() -> (m: ReleaseFramebufferMail)
        ensures
            m == (VCMail { size: 24, request: 0, tag: RELEASE_FRAMEBUFFER_TAG, buffer_size: 0, request_size: 0, message: ReleaseFramebuffer, end: 0 }),
    {
        VCMail { size: 24, request: 0, tag: RELEASE_FRAMEBUFFER_TAG, buffer_size: 0, request_size: 0, message: ReleaseFramebuffer, end: 0 }
    }

    /// The request for the physical display size; the reply holds it.
    pub fn get_display_size() -> (m: GetDisplaySizeMail)
        ensures
            m == (VCMail { size: 32, request: 0, tag: GET_DISP_SIZE_TAG, buffer_size: 8, request_size: 8, message: GetDisplaySize { horz_res: 0, vert_res: 0 }, end: 0 }),
    {
        VCMail {
            size: 32,
            request: 0,
            tag: GET_DISP_SIZE_TAG,
            buffer_size: 8,
            request_size: 8,
            message: GetDisplaySize { horz_res: 0, vert_res: 0 },
            end: 0,
        }
    }

    /// The request that sets the depth in bits per pixel.
    pub fn set_bitdepth(bitdepth: u32) -> (m: SetBitDepthMail)
        ensures
            m == (VCMail { size: 24, request: 0, tag: SET_BIT_DEPTH_TAG, buffer_size: 4, request_size: 4, message: SetBitDepth { bit_depth: bitdepth }, end: 0 }),
    {
        VCMail {
            size: 24,
            request: 0,
            tag: SET_BIT_DEPTH_TAG,
            buffer_size: 4,
            request_size: 4,
            message: SetBitDepth { bit_depth: bitdepth },
            end: 0,
        }
    }

    /// The request for the pitch (as the driver sends it, with a total
    /// size of 21 and an empty value buffer).
    pub fn get_pitch() -> (m: GetPitchMail)
        ensures
            m == (VCMail { size: 21, request: 0, tag: GET_PITCH_TAG, buffer_size: 0, request_size: 4, message: GetPitch { pitch: 0 }, end: 0 }),
    {
        VCMail {
            size: 21,
            request: 0,
            tag: GET_PITCH_TAG,
            buffer_size: 0,
            request_size: 4,
            message: GetPitch { pitch: 0 },
            end: 0,
        }
    }

    /// The request that allocates the framebuffer with an alignment; the
    /// reply's `alignment` field holds the buffer's address.
    pub fn allocate_framebuffer(alignment: u32) -> (m: AllocateFramebufferMail)
        ensures
            m == (VCMail { size: 32, request: 0, tag: ALLOC_FRAMEBUFFER_TAG, buffer_size: 8, request_size: 8, message: AllocateFramebuffer { alignment, fb_size: 0 }, end: 0 }),
    {
        VCMail {
            size: 32,
            request: 0,
            tag: ALLOC_FRAMEBUFFER_TAG,
            buffer_size: 8,
            request_size: 8,
            message: AllocateFramebuffer { alignment, fb_size: 0 },
            end: 0,
        }
    }
}

/// Depth the framebuffer is set to, in bits per pixel.
pub const FRAMEBUFFER_BIT_DEPTH: u32 = 32;

/// Alignment requested for the framebuffer.
pub const FRAMEBUFFER_ALIGNMENT: u32 = 16;

/// A linear framebuffer.
pub struct Framebuffer {
    /// ARM physical address of the first pixel
    pub ptr: u32,
    pub phy_size: (u32, u32),
    /// bytes per pixel
    pub bit_depth: u32,
    /// pixels per line
    pub pitch: u32,
}

/// The ARM physical address of a bus address (the two alias bits cleared).
pub open spec fn arm_address(bus: u32) -> u32 {
    bus & 0x3FFF_FFFF
}

/// Byte address of pixel (x, y).
pub open spec fn pixel_address_spec(fb: Framebuffer, x: u32, y: u32) -> int {
    fb.ptr + (x + y * fb.pitch) * fb.bit_depth
}

impl Framebuffer {
    /// The framebuffer described by the replies to `get_display_size`,
    /// `allocate_framebuffer` and `get_pitch`, set to 32 bits per pixel:
    /// the address without its alias bits, four bytes per pixel, and the
    /// pitch in pixels.
    pub fn new(phy_size: (u32, u32), ptr: u32, pitch: u32) -> (fb: Self)
        ensures
            fb.ptr == arm_address(ptr),
            fb.phy_size == phy_size,
            fb.bit_depth == 4,
            fb.pitch == pitch / 4,
    {
        let bit_depth: u32 = FRAMEBUFFER_BIT_DEPTH;
        assert(pitch >> 2u32 == pitch / 4) by (bit_vector);
        assert(32u32 >> 3u32 == 4) by (bit_vector);
        Framebuffer { ptr: ptr & 0x3FFF_FFFF, phy_size, bit_depth: bit_depth >> 3u32, pitch: pitch >> 2u32 }
    }

    /// Byte address of pixel (x, y), computed in 32 bits; the pixel index
    /// and the address must fit.
    pub fn pixel_address(&self, x: u32, y: u32) -> (r: u32)
        requires
            x + y * self.pitch <= u32::MAX,
            pixel_address_spec(*self, x, y) <= u32::MAX,
        ensures
            r == pixel_address_spec(*self, x, y),
    {
        let pixel_offset: u32 = (x + (y * self.pitch)) * self.bit_depth;
        self.ptr + pixel_offset
    }
}

/// Distinct pixels within a line's width have distinct addresses, each a
/// whole number of pixels past the start.
pub proof fn lemma_pixel_addresses_distinct(fb: Framebuffer, x1: u32, y1: u32, x2: u32, y2: u32)
    requires
        fb.bit_depth > 0,
        x1 < fb.pitch,
        x2 < fb.pitch,
        x1 != x2 || y1 != y2,
    ensures
        pixel_address_spec(fb, x1, y1) != pixel_address_spec(fb, x2, y2),
        (pixel_address_spec(fb, x1, y1) - fb.ptr) % (fb.bit_depth as int) == 0,
{
    let p = fb.pitch as int;
    let d = fb.bit_depth as int;
    let a1 = x1 + y1 * p;
    let a2 = x2 + y2 * p;
    assert(a1 != a2) by (nonlinear_arith)
        requires
            0 <= x1 < p,
            0 <= x2 < p,
            x1 != x2 || y1 != y2,
            a1 == x1 + y1 * p,
            a2 == x2 + y2 * p,
            y1 >= 0,
            y2 >= 0,
    ;
    assert(a1 * d != a2 * d) by (nonlinear_arith)
        requires
            a1 != a2,
            d > 0,
    ;
    assert((a1 * d) % d == 0) by (nonlinear_arith)
        requires
            d > 0,
    ;
}

} // verus!
