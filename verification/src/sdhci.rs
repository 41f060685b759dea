//! Driver logic for the Arasan SDHCI host controller of the Raspberry Pi 3
//! (EMMC at 0x3F30_0000), initialising an SD card and reading 512-byte
//! blocks.
//!
//! The driver alternates register accesses and decisions. The decisions
//! live here as state machines: each step takes the machine's stage and
//! what the last action produced (an [`SdEvent`]) and returns the next
//! stage and the next [`SdAction`] for the caller to perform on the
//! hardware.

use vstd::prelude::*;
use vstd::string::StringSliceAdditionalSpecFns;
use crate::bitmath::le32;
use crate::text::{hex_text, push_hex, push_str, text_of};
use crate::uart::ascii_or_dot;
use crate::dma::DmaControlBlock;

verus! {

pub const SD_OK: i32 = 0;
pub const SD_TIMEOUT: i32 = -1;
pub const SD_ERROR: i32 = -2;

/* Command flags */
pub const CMD_NEED_APP: u32 = 0x8000_0000;
pub const CMD_RSPNS_48: u32 = 0x0002_0000;
pub const CMD_ERRORS_MSK: u32 = 0xFFF9_C004;
pub const CMD_RCA_MSK: u32 = 0xFFFF_0000;

/* Commands */
pub const CMD_GO_IDLE: u32 = 0x0000_0000;
pub const CMD_ALL_SEND_CID: u32 = 0x0201_0000;
pub const CMD_SEND_REL_ADDR: u32 = 0x0302_0000;
pub const CMD_CARD_SELECT: u32 = 0x0703_0000;
pub const CMD_SEND_IF_COND: u32 = 0x0802_0000;
pub const CMD_STOP_TRANS: u32 = 0x0C03_0000;
pub const CMD_READ_SINGLE: u32 = 0x1122_0010;
pub const CMD_READ_MULTI: u32 = 0x1222_0032;
pub const CMD_SET_BLOCKCNT: u32 = 0x1702_0000;
pub const CMD_APP_CMD: u32 = 0x3700_0000;
pub const CMD_SET_BUS_WIDTH: u32 = 0x8602_0000;
pub const CMD_SEND_OP_COND: u32 = 0xA902_0000;
pub const CMD_SEND_SCR: u32 = 0xB322_0010;

/* Status register */
pub const SR_READ_AVAILABLE: u32 = 0x800;
pub const SR_DAT_INHIBIT: u32 = 0x002;
pub const SR_CMD_INHIBIT: u32 = 0x001;
pub const SR_APP_CMD: u32 = 0x020;

/* Interrupt register */
pub const INT_DATA_TIMEOUT: u32 = 0x0010_0000;
pub const INT_CMD_TIMEOUT: u32 = 0x0001_0000;
pub const INT_READ_RDY: u32 = 0x0000_0020;
pub const INT_CMD_DONE: u32 = 0x0000_0001;
pub const INT_ERR_MASK: u32 = 0x017E_8000;

/* Control registers */
pub const C0_SPI_MODE_EN: u32 = 0x0010_0000;
pub const C0_HCTL_HS_EN: u32 = 0x0000_0004;
pub const C0_HCTL_DWIDTH: u32 = 0x0000_0002;
pub const C1_SRST_DATA: u32 = 0x0400_0000;
pub const C1_SRST_CMD: u32 = 0x0200_0000;
pub const C1_SRST_HC: u32 = 0x0100_0000;
pub const C1_TOUNIT_DIS: u32 = 0x000F_0000;
pub const C1_TOUNIT_MAX: u32 = 0x000E_0000;
pub const C1_CLK_GENSEL: u32 = 0x0000_0020;
pub const C1_CLK_EN: u32 = 0x0000_0004;
pub const C1_CLK_STABLE: u32 = 0x0000_0002;
pub const C1_CLK_INTLEN: u32 = 0x0000_0001;

/* Host specification version */
pub const HOST_SPEC_NUM: u32 = 0x00FF_0000;
pub const HOST_SPEC_NUM_SHIFT: u32 = 0x10;
pub const HOST_SPEC_V3: u32 = 0x2;
pub const HOST_SPEC_V2: u32 = 0x1;
pub const HOST_SPEC_V1: u32 = 0x0;

/* SD card configuration register */
pub const SCR_SD_BUS_WIDTH_4: u32 = 0x0000_0400;
pub const SCR_SUPP_SET_BLKCNT: u32 = 0x0200_0000;
pub const SCR_SUPP_CCS: u32 = 0x0000_0001;

/* ACMD41 */
pub const ACMD41_VOLTAGE: u32 = 0x00FF_8000;
pub const ACMD41_CMD_COMPLETE: u32 = 0x8000_0000;
pub const ACMD41_CMD_CCS: u32 = 0x4000_0000;
pub const ACMD41_ARG_HC: u32 = 0x51FF_8000;

/// Controller registers the driver touches.
#[derive(Clone, Copy, Debug, PartialEq, Eq, Structural)]
pub enum SdReg {
    Arg2,
    BlkSizeCnt,
    Arg1,
    CmdTm,
    Resp0,
    Resp1,
    Resp2,
    Resp3,
    Data,
    Status,
    Control0,
    Control1,
    Interrupt,
    IntMask,
    IntEn,
    Control2,
    SlotIsrVer,
}

/// What the caller performs next.
#[derive(Clone, Copy, Debug, PartialEq, Eq, Structural)]
pub enum SdAction {
    /// Read a register (and then wait the given milliseconds); the event's
    /// `value` is what was read.
    Read { reg: SdReg, then_wait_msec: u64 },
    /// Write a register (and then wait the given milliseconds).
    Write { reg: SdReg, value: u32, then_wait_msec: u64 },
    /// Wait, in milliseconds and CPU cycles.
    Wait { msec: u64, cycles: u32 },
    /// Route the card-detect, clock, command and data pins to the controller.
    GpioSetup,
    /// Run the card-reset machine; the event's `status` is its result.
    ResetCard,
    /// Run the clock machine for this frequency; the event's `status` is its result.
    SetClock(u32),
    /// Run the command machine; the event carries its result pair.
    Command(u32, u32),
    /// Run the status wait for this mask; the event's `status` is its result.
    AwaitStatus(u32),
    /// Run the interrupt wait for this mask; the event's `status` is its result.
    AwaitInterrupt(u32),
    /// Run this transfer on DMA channel 0 and wait for its end.
    DmaCopy(DmaControlBlock),
    /// The machine has finished with this result pair.
    Finish(i32, u32),
}

/// What the last action produced.
#[derive(Clone, Copy, Debug, PartialEq, Eq, Structural)]
pub struct SdEvent {
    pub status: i32,
    pub value: u32,
    pub extra: u32,
}

/// The operations of an SD host controller driver. An implementation talks
/// to the controller's registers; the decisions it takes are those of the
/// step functions below, which it runs against the hardware.
pub trait SDIO {
    fn init(&mut self) -> i32;

    fn readblock(&self, lba: usize) -> [u8; 512];

    fn status(mask: u32) -> i32;

    fn interrupt(mask: u32) -> i32;

    fn command(&self, mask: u32, arg: u32) -> (i32, u32);

    fn set_clock(&self, freq: u32) -> i32;
}

/// Driver state of one card.
pub struct RPISDIO {
    pub scr: [u64; 3],
    pub ocr: u64,
    /// relative card address
    pub rca: u64,
    pub err: u64,
    /// host controller specification version
    pub hv: u64,
    /// card capacity status, as the configuration register's bit
    pub ccs: u64,
}

impl RPISDIO {
    pub fn new() -> (s: Self)
        ensures
            s.scr@ == seq![0u64, 0u64, 0u64],
            s.ocr == 0,
            s.rca == 0,
            s.err == 0,
            s.hv == 0,
            s.ccs == 0,
    {
        let s = RPISDIO { scr: [0; 3], ocr: 0, rca: 0, err: 0, hv: 0, ccs: 0 };
        assert(s.scr@ =~= seq![0u64, 0u64, 0u64]);
        s
    }
}

/// Host specification version: bits 16..24 of the slot interrupt/version
/// register.
pub open spec fn host_spec_version(slotisr_ver: u32) -> u64 {
    ((slotisr_ver / 0x1_0000) % 0x100) as u64
}

pub fn host_version(slotisr_ver: u32) -> (hv: u64)
    ensures
        hv == host_spec_version(slotisr_ver),
{
    let v = (slotisr_ver & HOST_SPEC_NUM) >> HOST_SPEC_NUM_SHIFT;
    assert((slotisr_ver & 0x00FF_0000u32) >> 0x10u32 == (slotisr_ver / 0x1_0000) % 0x100) by (bit_vector);
    v as u64
}

// ---------------------------------------------------------------------
// Waiting for the status register.

/// The wait for a status mask to clear: at most 1000 polls, stopping early
/// on an error interrupt.
pub struct StatusWait {
    pub mask: u32,
    pub cnt: u32,
    pub stat: u32,
    pub int: u32,
}

impl StatusWait {
    pub open spec fn polling(self) -> bool {
        self.stat != 0 && self.int == 0 && self.cnt != 0
    }

    /// The result once polling stops: an error if the polls ran out or an
    /// error interrupt is pending.
    pub open spec fn result(self) -> i32 {
        if self.cnt == 0 || self.int != 0 {
            SD_ERROR
        } else {
            SD_OK
        }
    }

    pub fn new(mask: u32) -> (w: Self)
        ensures
            w == (StatusWait { mask, cnt: 1000, stat: 0xFFFF_FFFF, int: 0 }),
    {
        StatusWait { mask, cnt: 1000, stat: 0xFFFF_FFFF, int: 0 }
    }

    pub fn is_polling(&self) -> (b: bool)
        ensures
            b == self.polling(),
    {
        self.stat != 0 && self.int == 0 && self.cnt != 0
    }

    /// One poll, given the status and interrupt registers.
    pub fn observe(&mut self, status: u32, interrupt: u32)
        requires
            old(self).cnt > 0,
        ensures
            final(self).mask == old(self).mask,
            final(self).stat == status & old(self).mask,
            final(self).int == interrupt & INT_ERR_MASK,
            final(self).cnt == old(self).cnt - 1,
    {
        self.stat = status & self.mask;
        self.int = interrupt & INT_ERR_MASK;
        self.cnt = self.cnt - 1;
    }

    pub fn outcome(&self) -> (r: i32)
        ensures
            r == self.result(),
    {
        if self.cnt == 0 || self.int != 0 {
            SD_ERROR
        } else {
            SD_OK
        }
    }
}

// ---------------------------------------------------------------------
// Waiting for an interrupt.

/// The wait for an interrupt: at most 100 000 one-millisecond polls until
/// a bit of the mask or of the error mask is raised.
pub struct InterruptWait {
    pub mask: u32,
    pub int: u32,
    pub cnt: u32,
}

impl InterruptWait {
    pub open spec fn polling(self) -> bool {
        self.int & (self.mask | INT_ERR_MASK) == 0 && self.cnt != 0
    }

    /// Result of the wait and the value written back to the interrupt
    /// register, given the register's final value: a timeout when the polls
    /// ran out or a timeout bit is set, an error on any other error bit
    /// (both acknowledge everything pending), else success acknowledging
    /// the mask.
    pub open spec fn conclusion(self, final_int: u32) -> (i32, u32) {
        if self.cnt == 0 || final_int & INT_CMD_TIMEOUT != 0 || final_int & INT_DATA_TIMEOUT != 0 {
            (SD_TIMEOUT, final_int)
        } else if final_int & INT_ERR_MASK != 0 {
            (SD_ERROR, final_int)
        } else {
            (SD_OK, self.mask)
        }
    }

    pub fn new(mask: u32) -> (w: Self)
        ensures
            w == (InterruptWait { mask, int: 0, cnt: 100_000 }),
    {
        InterruptWait { mask, int: 0, cnt: 100_000 }
    }

    pub fn is_polling(&self) -> (b: bool)
        ensures
            b == self.polling(),
    {
        let int_mask: u32 = self.mask | INT_ERR_MASK;
        self.int & int_mask == 0 && self.cnt != 0
    }

    /// One poll (taken after a one-millisecond wait).
    pub fn observe(&mut self, interrupt: u32)
        requires
            old(self).cnt > 0,
        ensures
            *final(self) == (InterruptWait { int: interrupt, cnt: (old(self).cnt - 1) as u32, ..*old(self) }),
    {
        self.int = interrupt;
        self.cnt = self.cnt - 1;
    }

    pub fn conclude(&self, final_int: u32) -> (r: (i32, u32))
        ensures
            r == self.conclusion(final_int),
    {
        if self.cnt == 0 || final_int & INT_CMD_TIMEOUT != 0 || final_int & INT_DATA_TIMEOUT != 0 {
            (SD_TIMEOUT, final_int)
        } else if final_int & INT_ERR_MASK != 0 {
            (SD_ERROR, final_int)
        } else {
            (SD_OK, self.mask)
        }
    }
}

// ---------------------------------------------------------------------
// Resetting the card.

/// Control-1 value that requests a host-controller software reset.
pub fn reset_request(control1: u32) -> (r: u32)
    ensures
        r == control1 | C1_SRST_HC,
{
    control1 | C1_SRST_HC
}

/// The wait for the software reset to finish: up to 100 000 polls, each
/// after a ten-millisecond wait.
pub struct ResetWait {
    pub cnt: u32,
}

impl ResetWait {
    pub fn new() -> (w: Self)
        ensures
            w.cnt == 100_000,
    {
        ResetWait { cnt: 100_000 }
    }

    /// One poll of control register 1; says whether the wait is over:
    /// the reset bit has cleared or the polls ran out.
    pub fn observe(&mut self, control1: u32) -> (done: bool)
        requires
            old(self).cnt > 0,
        ensures
            final(self).cnt == old(self).cnt - 1,
            done == (control1 & C1_SRST_HC == 0 || final(self).cnt == 0),
    {
        self.cnt = self.cnt - 1;
        control1 & C1_SRST_HC == 0 || self.cnt == 0
    }

    /// An error when the last poll used up the count (even if the reset
    /// bit cleared on it), else success.
    pub fn outcome(&self) -> (r: i32)
        ensures
            r == if self.cnt == 0 { SD_ERROR } else { SD_OK },
    {
        if self.cnt == 0 {
            SD_ERROR
        } else {
            SD_OK
        }
    }
}

// ---------------------------------------------------------------------
// The SD clock.

/// Base clock of the controller, in hertz (rounded down).
pub const SD_BASE_CLOCK: u32 = 41_666_666;

/// The divisor bits written to control register 1 for a requested
/// frequency. The base clock divided by the frequency is `c`. A host of
/// specification 3 or later divides by `c` directly (10 bits: the low
/// eight in bits 8..16, the upper two in bits 6..8); an older host divides
/// by a power of two, here 1 when `c` is above one and 2^7 when it is one.
/// A divisor below 2 becomes 2.
pub open spec fn clock_divisor_spec(hv: u64, freq: u32) -> u32
    recommends
        0 < freq <= SD_BASE_CLOCK,
{
    let c = SD_BASE_CLOCK / freq;
    let x = (c - 1) as u32;
    let s: u32 = if x != 0 { 0 } else { 7 };
    let d0: u32 = if hv > HOST_SPEC_V2 { c } else { 1u32 << s };
    let d: u32 = if d0 <= 2 { 2 } else { d0 };
    let h: u32 = if hv > HOST_SPEC_V2 { (d & 0x300) >> 2u32 } else { 0 };
    ((d & 0xFF) << 8u32) | h
}

pub fn clock_divisor(hv: u64, freq: u32) -> (r: u32)
    requires
        0 < freq <= SD_BASE_CLOCK,
    ensures
        r == clock_divisor_spec(hv, freq),
{
    let c: u32 = SD_BASE_CLOCK / freq;
    assert(SD_BASE_CLOCK / freq >= 1) by (nonlinear_arith)
        requires
            0 < freq <= SD_BASE_CLOCK,
    ;
    let mut x: u32 = c - 1;
    let mut s: u32 = 32;
    let mut h: u32 = 0;
    let mut d: u32;
    if x != 0 {
        s = 0;
    } else {
        assert(x & 0xFFFF_0000 == 0 && x & 0xFF00_0000 == 0 && x & 0xF000_0000 == 0 && x
            & 0xC000_0000 == 0 && x & 0x8000_0000 == 0) by (bit_vector)
            requires
                x == 0,
        ;
        if x & 0xFFFF_0000 != 0 {
            x = x << 0x10u32;
            s = s - 0x10;
        }
        if x & 0xFF00_0000 != 0 {
            x = x << 0x08u32;
            s = s - 0x08;
        }
        if x & 0xF000_0000 != 0 {
            x = x << 0x04u32;
            s = s - 0x04;
        }
        if x & 0xC000_0000 != 0 {
            x = x << 0x02u32;
            s = s - 0x02;
        }
        if x & 0x8000_0000 != 0 {
            s = s - 0x01;
        }
        if s > 0 {
            s = s - 1;
        }
        if s > 7 {
            s = 7;
        }
    }
    if self_hv_above_v2(hv) {
        d = c;
    } else {
        d = 1u32 << s;
    }
    if d <= 2 {
        d = 2;
    }
    if self_hv_above_v2(hv) {
        h = (d & 0x300) >> 2u32;
    }
    d = ((d & 0xFF) << 8u32) | h;
    d
}

fn self_hv_above_v2(hv: u64) -> (b: bool)
    ensures
        b == (hv > HOST_SPEC_V2),
{
    hv > HOST_SPEC_V2 as u64
}

/// The divisor bits lie in bits 6..16 of control register 1, so writing
/// them over a value masked with 0xFFFF_003F changes nothing else.
pub proof fn lemma_clock_divisor_fields(hv: u64, freq: u32, control1: u32)
    requires
        0 < freq <= SD_BASE_CLOCK,
    ensures
        clock_divisor_spec(hv, freq) & 0xFFFF_003Fu32 == 0,
        ((control1 & 0xFFFF_003Fu32) | clock_divisor_spec(hv, freq)) & 0xFFFF_003Fu32 == control1
            & 0xFFFF_003Fu32,
{
    let c = SD_BASE_CLOCK / freq;
    let x = (c - 1) as u32;
    let s: u32 = if x != 0 { 0 } else { 7 };
    let d0: u32 = if hv > HOST_SPEC_V2 { c } else { 1u32 << s };
    let d: u32 = if d0 <= 2 { 2 } else { d0 };
    let h: u32 = if hv > HOST_SPEC_V2 { (d & 0x300) >> 2u32 } else { 0 };
    let r = ((d & 0xFF) << 8u32) | h;
    assert(h == 0 || h == (d & 0x300) >> 2u32);
    assert(((d & 0xFF) << 8u32) & 0xFFFF_003Fu32 == 0 && ((d & 0x300) >> 2u32) & 0xFFFF_003Fu32 == 0)
        by (bit_vector);
    assert(r & 0xFFFF_003Fu32 == 0) by (bit_vector)
        requires
            r == ((d & 0xFF) << 8u32) | h,
            h == 0 || h == (d & 0x300) >> 2u32,
    ;
    assert(((control1 & 0xFFFF_003Fu32) | r) & 0xFFFF_003Fu32 == control1 & 0xFFFF_003Fu32)
        by (bit_vector)
        requires
            r & 0xFFFF_003Fu32 == 0,
    ;
}

/// The divisor a specification 3 host reads from control register 1: the
/// low eight bits from bits 8..16 and the upper two from bits 6..8.
pub open spec fn divisor_of(bits: u32) -> u32 {
    ((bits >> 8u32) & 0xFF) | ((bits << 2u32) & 0x300)
}

/// On a specification 3 host the written bits name the ratio of the base
/// clock to the requested frequency (at least 2), as long as that ratio
/// fits the ten divisor bits.
pub proof fn lemma_clock_divisor_value(hv: u64, freq: u32)
    requires
        hv > HOST_SPEC_V2,
        0 < freq <= SD_BASE_CLOCK,
        SD_BASE_CLOCK / freq < 0x400,
    ensures
        divisor_of(clock_divisor_spec(hv, freq)) == if SD_BASE_CLOCK / freq <= 2 {
            2
        } else {
            SD_BASE_CLOCK / freq
        },
{
    let c = SD_BASE_CLOCK / freq;
    let d: u32 = if c <= 2 { 2 } else { c };
    assert(d < 0x400);
    assert(((((d & 0xFF) << 8u32) | ((d & 0x300) >> 2u32)) >> 8u32) & 0xFF | (((((d & 0xFF) << 8u32)
        | ((d & 0x300) >> 2u32)) << 2u32) & 0x300) == d) by (bit_vector)
        requires
            d < 0x400,
    ;
}

/// Stages of setting the SD clock.
#[derive(Clone, Copy, Debug)]
pub enum ClockStage {
    Begin,
    /// waiting for the command and data lines to be free, with polls left
    Inhibit { cnt: u32 },
    Disable,
    DivisorRead,
    DivisorWrite,
    EnableRead,
    EnableWrite,
    StableStart,
    /// waiting for the clock to be stable, with polls left
    Stable { cnt: u32 },
    Done,
}

/// One step of setting the clock to `freq` on a host of version `hv`: wait
/// (up to 10 000 polls, ten milliseconds apart) until no command or data
/// transfer inhibits the change, stop the clock, write the divisor bits,
/// start the clock, and wait (up to 10 000 polls) until it is stable.
pub open spec fn clock_next(hv: u64, freq: u32, st: ClockStage, ev: SdEvent) -> (ClockStage, SdAction) {
    let v = ev.value;
    match st {
        ClockStage::Begin => (
            ClockStage::Inhibit { cnt: 10_000 },
            SdAction::Read { reg: SdReg::Status, then_wait_msec: 10 },
        ),
        ClockStage::Inhibit { cnt } => if v & (SR_CMD_INHIBIT | SR_DAT_INHIBIT) != 0 && cnt != 0 {
            (
                ClockStage::Inhibit { cnt: (cnt - 1) as u32 },
                SdAction::Read { reg: SdReg::Status, then_wait_msec: 10 },
            )
        } else if cnt == 0 {
            (ClockStage::Done, SdAction::Finish(SD_TIMEOUT, 0))
        } else {
            (ClockStage::Disable, SdAction::Read { reg: SdReg::Control1, then_wait_msec: 0 })
        },
        ClockStage::Disable => (
            ClockStage::DivisorRead,
            SdAction::Write { reg: SdReg::Control1, value: v & !C1_CLK_EN, then_wait_msec: 10 },
        ),
        ClockStage::DivisorRead => (
            ClockStage::DivisorWrite,
            SdAction::Read { reg: SdReg::Control1, then_wait_msec: 0 },
        ),
        ClockStage::DivisorWrite => (
            ClockStage::EnableRead,
            SdAction::Write {
                reg: SdReg::Control1,
                value: (v & 0xFFFF_003F) | clock_divisor_spec(hv, freq),
                then_wait_msec: 10,
            },
        ),
        ClockStage::EnableRead => (
            ClockStage::EnableWrite,
            SdAction::Read { reg: SdReg::Control1, then_wait_msec: 0 },
        ),
        ClockStage::EnableWrite => (
            ClockStage::StableStart,
            SdAction::Write { reg: SdReg::Control1, value: v | C1_CLK_EN, then_wait_msec: 10 },
        ),
        ClockStage::StableStart => (
            ClockStage::Stable { cnt: 10_000 },
            SdAction::Read { reg: SdReg::Control1, then_wait_msec: 0 },
        ),
        ClockStage::Stable { cnt } => if v & C1_CLK_STABLE == 0 && cnt != 0 {
            (
                ClockStage::Stable { cnt: (cnt - 1) as u32 },
                SdAction::Read { reg: SdReg::Control1, then_wait_msec: 10 },
            )
        } else if cnt == 0 {
            (ClockStage::Done, SdAction::Finish(SD_TIMEOUT, 0))
        } else {
            (ClockStage::Done, SdAction::Finish(SD_OK, 0))
        },
        ClockStage::Done => (ClockStage::Done, SdAction::Finish(SD_TIMEOUT, 0)),
    }
}

impl RPISDIO {
    /// One step of `set_clock` (see [`clock_next`]).
    pub fn set_clock_step(&self, freq: u32, st: ClockStage, ev: SdEvent) -> (r: (ClockStage, SdAction))
        requires
            0 < freq <= SD_BASE_CLOCK,
        ensures
            r == clock_next(self.hv, freq, st, ev),
    {
        let v = ev.value;
        match st {
            ClockStage::Begin => (
                ClockStage::Inhibit { cnt: 10_000 },
                SdAction::Read { reg: SdReg::Status, then_wait_msec: 10 },
            ),
            ClockStage::Inhibit { cnt } => if v & (SR_CMD_INHIBIT | SR_DAT_INHIBIT) != 0 && cnt != 0 {
                (
                    ClockStage::Inhibit { cnt: cnt - 1 },
                    SdAction::Read { reg: SdReg::Status, then_wait_msec: 10 },
                )
            } else if cnt == 0 {
                (ClockStage::Done, SdAction::Finish(SD_TIMEOUT, 0))
            } else {
                (ClockStage::Disable, SdAction::Read { reg: SdReg::Control1, then_wait_msec: 0 })
            },
            ClockStage::Disable => (
                ClockStage::DivisorRead,
                SdAction::Write { reg: SdReg::Control1, value: v & !C1_CLK_EN, then_wait_msec: 10 },
            ),
            ClockStage::DivisorRead => (
                ClockStage::DivisorWrite,
                SdAction::Read { reg: SdReg::Control1, then_wait_msec: 0 },
            ),
            ClockStage::DivisorWrite => {
                let d = clock_divisor(self.hv, freq);
                (
                    ClockStage::EnableRead,
                    SdAction::Write {
                        reg: SdReg::Control1,
                        value: (v & 0xFFFF_003F) | d,
                        then_wait_msec: 10,
                    },
                )
            },
            ClockStage::EnableRead => (
                ClockStage::EnableWrite,
                SdAction::Read { reg: SdReg::Control1, then_wait_msec: 0 },
            ),
            ClockStage::EnableWrite => (
                ClockStage::StableStart,
                SdAction::Write { reg: SdReg::Control1, value: v | C1_CLK_EN, then_wait_msec: 10 },
            ),
            ClockStage::StableStart => (
                ClockStage::Stable { cnt: 10_000 },
                SdAction::Read { reg: SdReg::Control1, then_wait_msec: 0 },
            ),
            ClockStage::Stable { cnt } => if v & C1_CLK_STABLE == 0 && cnt != 0 {
                (
                    ClockStage::Stable { cnt: cnt - 1 },
                    SdAction::Read { reg: SdReg::Control1, then_wait_msec: 10 },
                )
            } else if cnt == 0 {
                (ClockStage::Done, SdAction::Finish(SD_TIMEOUT, 0))
            } else {
                (ClockStage::Done, SdAction::Finish(SD_OK, 0))
            },
            ClockStage::Done => (ClockStage::Done, SdAction::Finish(SD_TIMEOUT, 0)),
        }
    }
}

// ---------------------------------------------------------------------
// Sending a command.

/// Stages of sending one command.
#[derive(Clone, Copy, Debug)]
pub enum CommandStage {
    /// the application-command prefix was sent
    AppPrefix { code: u32, arg: u32 },
    /// waiting for the command line to be free
    Inhibit { code: u32, arg: u32 },
    /// pending interrupts were read, to be acknowledged
    AckPending { code: u32, arg: u32 },
    /// the argument is to be written
    ArgWrite { code: u32, arg: u32 },
    /// the command is to be written
    CmdWrite { code: u32, arg: u32 },
    /// the command was written
    Completion { code: u32, arg: u32 },
    /// waiting for the command-done interrupt
    Response { code: u32, arg: u32 },
    /// reading the first response word
    FirstWord { code: u32, arg: u32 },
    /// OR-ing in the other response words of CMD2; `next` is read next
    CidWords { resp: u32, next: u32 },
    Done,
}

/// Milliseconds to wait after writing a command: SEND_OP_COND (without its
/// application flag) 1000, SEND_IF_COND and a bare APP_CMD 100, others 0.
pub open spec fn command_settle_msec(code: u32) -> u64 {
    if code == CMD_SEND_OP_COND & !CMD_NEED_APP {
        1000
    } else if code == CMD_SEND_IF_COND || code == CMD_APP_CMD {
        100
    } else {
        0
    }
}

/// Error bits of a SEND_RELATIVE_ADDR response, rearranged to the card
/// status layout (bits 13, 14 and 15 of the response are status bits 19,
/// 22 and 23) and masked.
pub open spec fn rel_addr_errors(resp: u32) -> u32 {
    ((resp & 0x1fff) | ((resp & 0x2000) << 6u32) | ((resp & 0xC000) << 8u32)) & CMD_ERRORS_MSK
}

/// Result pair of a completed command from its first response word
/// (CMD2 is handled apart): GO_IDLE and a bare APP_CMD give nothing, an
/// APP_CMD with a 48-bit response gives its APP_CMD status bit,
/// SEND_OP_COND the whole word, SEND_IF_COND succeeds only when the card
/// echoes the argument, SEND_RELATIVE_ADDR gives the address half and its
/// rearranged error bits as the status, and any other command the error
/// bits of the response.
pub open spec fn command_result(code: u32, arg: u32, resp: u32) -> (i32, u32) {
    if code == CMD_GO_IDLE || code == CMD_APP_CMD {
        (SD_OK, 0)
    } else if code == (CMD_APP_CMD | CMD_RSPNS_48) {
        (SD_OK, resp & SR_APP_CMD)
    } else if code == CMD_SEND_OP_COND & !CMD_NEED_APP {
        (SD_OK, resp)
    } else if code == CMD_SEND_IF_COND {
        if resp == arg {
            (SD_OK, 0)
        } else {
            (SD_ERROR, 0)
        }
    } else if code == CMD_SEND_REL_ADDR {
        (rel_addr_errors(resp) as i32, resp & CMD_RCA_MSK)
    } else {
        (SD_OK, resp & CMD_ERRORS_MSK)
    }
}

/// The application-command prefix for the card: CMD55 with a 48-bit
/// response once the card has an address, a bare CMD55 before.
pub open spec fn app_prefix_code(rca: u64) -> u32 {
    if rca != 0 {
        CMD_APP_CMD | CMD_RSPNS_48
    } else {
        CMD_APP_CMD
    }
}

/// How a command starts: an application command is preceded by the
/// prefix, with the card's address as argument; any other command waits
/// for the command line.
pub open spec fn command_begin(rca: u64, code: u32, arg: u32) -> (CommandStage, SdAction) {
    if code & CMD_NEED_APP != 0 {
        (CommandStage::AppPrefix { code, arg }, SdAction::Command(app_prefix_code(rca), rca as u32))
    } else {
        (CommandStage::Inhibit { code, arg }, SdAction::AwaitStatus(SR_CMD_INHIBIT))
    }
}

/// One step of sending a command: after the optional prefix (which fails
/// when an addressed card answers it with zero), wait for the command
/// line, acknowledge pending interrupts, write the argument and the
/// command, wait for completion and decode the response.
pub open spec fn command_next(rca: u64, st: CommandStage, ev: SdEvent) -> (CommandStage, SdAction) {
    let v = ev.value;
    match st {
        CommandStage::AppPrefix { code, arg } => if rca != 0 && v == 0 {
            (CommandStage::Done, SdAction::Finish(SD_ERROR, 0))
        } else {
            (
                CommandStage::Inhibit { code: code & !CMD_NEED_APP, arg },
                SdAction::AwaitStatus(SR_CMD_INHIBIT),
            )
        },
        CommandStage::Inhibit { code, arg } => if ev.status != SD_OK {
            (CommandStage::Done, SdAction::Finish(SD_TIMEOUT, 0))
        } else {
            (
                CommandStage::AckPending { code, arg },
                SdAction::Read { reg: SdReg::Interrupt, then_wait_msec: 0 },
            )
        },
        CommandStage::AckPending { code, arg } => (
            CommandStage::ArgWrite { code, arg },
            SdAction::Write { reg: SdReg::Interrupt, value: v, then_wait_msec: 0 },
        ),
        CommandStage::ArgWrite { code, arg } => (
            CommandStage::CmdWrite { code, arg },
            SdAction::Write { reg: SdReg::Arg1, value: arg, then_wait_msec: 0 },
        ),
        CommandStage::CmdWrite { code, arg } => (
            CommandStage::Completion { code, arg },
            SdAction::Write { reg: SdReg::CmdTm, value: code, then_wait_msec: command_settle_msec(code) },
        ),
        CommandStage::Completion { code, arg } => (
            CommandStage::Response { code, arg },
            SdAction::AwaitInterrupt(INT_CMD_DONE),
        ),
        CommandStage::Response { code, arg } => if ev.status == SD_ERROR {
            (CommandStage::Done, SdAction::Finish(SD_ERROR, 0))
        } else if ev.status == SD_TIMEOUT {
            (CommandStage::Done, SdAction::Finish(SD_TIMEOUT, 0))
        } else {
            (
                CommandStage::FirstWord { code, arg },
                SdAction::Read { reg: SdReg::Resp0, then_wait_msec: 0 },
            )
        },
        CommandStage::FirstWord { code, arg } => if code == CMD_ALL_SEND_CID {
            (
                CommandStage::CidWords { resp: v, next: 3 },
                SdAction::Read { reg: SdReg::Resp3, then_wait_msec: 0 },
            )
        } else {
            let r = command_result(code, arg, v);
            (CommandStage::Done, SdAction::Finish(r.0, r.1))
        },
        CommandStage::CidWords { resp, next } => if next == 3 {
            (
                CommandStage::CidWords { resp: resp | v, next: 2 },
                SdAction::Read { reg: SdReg::Resp2, then_wait_msec: 0 },
            )
        } else if next == 2 {
            (
                CommandStage::CidWords { resp: resp | v, next: 1 },
                SdAction::Read { reg: SdReg::Resp1, then_wait_msec: 0 },
            )
        } else {
            (CommandStage::Done, SdAction::Finish(SD_OK, resp | v))
        },
        CommandStage::Done => (CommandStage::Done, SdAction::Finish(SD_ERROR, 0)),
    }
}

fn settle_msec(code: u32) -> (r: u64)
    ensures
        r == command_settle_msec(code),
{
    if code == CMD_SEND_OP_COND & !CMD_NEED_APP {
        1000
    } else if code == CMD_SEND_IF_COND || code == CMD_APP_CMD {
        100
    } else {
        0
    }
}

fn decode_response(code: u32, arg: u32, resp: u32) -> (r: (i32, u32))
    ensures
        r == command_result(code, arg, resp),
{
    if code == CMD_GO_IDLE || code == CMD_APP_CMD {
        (SD_OK, 0)
    } else if code == (CMD_APP_CMD | CMD_RSPNS_48) {
        (SD_OK, resp & SR_APP_CMD)
    } else if code == CMD_SEND_OP_COND & !CMD_NEED_APP {
        (SD_OK, resp)
    } else if code == CMD_SEND_IF_COND {
        if resp == arg {
            (SD_OK, 0)
        } else {
            (SD_ERROR, 0)
        }
    } else if code == CMD_SEND_REL_ADDR {
        let err = ((((resp & 0x1fff)) | ((resp & 0x2000) << 6u32) | ((resp & 0xC000) << 8u32))
            & CMD_ERRORS_MSK) as i32;
        (err, resp & CMD_RCA_MSK)
    } else {
        (SD_OK, resp & CMD_ERRORS_MSK)
    }
}

impl RPISDIO {
    /// How `command(code, arg)` starts (see [`command_begin`]).
    pub fn command_start(&self, code: u32, arg: u32) -> (r: (CommandStage, SdAction))
        ensures
            r == command_begin(self.rca, code, arg),
    {
        if code & CMD_NEED_APP != 0 {
            let prefix = if self.rca != 0 {
                CMD_APP_CMD | CMD_RSPNS_48
            } else {
                CMD_APP_CMD
            };
            (CommandStage::AppPrefix { code, arg }, SdAction::Command(prefix, self.rca as u32))
        } else {
            (CommandStage::Inhibit { code, arg }, SdAction::AwaitStatus(SR_CMD_INHIBIT))
        }
    }

    /// One step of `command` (see [`command_next`]).
    pub fn command_step(&self, st: CommandStage, ev: SdEvent) -> (r: (CommandStage, SdAction))
        ensures
            r == command_next(self.rca, st, ev),
    {
        let v = ev.value;
        match st {
            CommandStage::AppPrefix { code, arg } => if self.rca != 0 && v == 0 {
                (CommandStage::Done, SdAction::Finish(SD_ERROR, 0))
            } else {
                (
                    CommandStage::Inhibit { code: code & !CMD_NEED_APP, arg },
                    SdAction::AwaitStatus(SR_CMD_INHIBIT),
                )
            },
            CommandStage::Inhibit { code, arg } => if ev.status != SD_OK {
                (CommandStage::Done, SdAction::Finish(SD_TIMEOUT, 0))
            } else {
                (
                    CommandStage::AckPending { code, arg },
                    SdAction::Read { reg: SdReg::Interrupt, then_wait_msec: 0 },
                )
            },
            CommandStage::AckPending { code, arg } => (
                CommandStage::ArgWrite { code, arg },
                SdAction::Write { reg: SdReg::Interrupt, value: v, then_wait_msec: 0 },
            ),
            CommandStage::ArgWrite { code, arg } => (
                CommandStage::CmdWrite { code, arg },
                SdAction::Write { reg: SdReg::Arg1, value: arg, then_wait_msec: 0 },
            ),
            CommandStage::CmdWrite { code, arg } => (
                CommandStage::Completion { code, arg },
                SdAction::Write { reg: SdReg::CmdTm, value: code, then_wait_msec: settle_msec(code) },
            ),
            CommandStage::Completion { code, arg } => (
                CommandStage::Response { code, arg },
                SdAction::AwaitInterrupt(INT_CMD_DONE),
            ),
            CommandStage::Response { code, arg } => if ev.status == SD_ERROR {
                (CommandStage::Done, SdAction::Finish(SD_ERROR, 0))
            } else if ev.status == SD_TIMEOUT {
                (CommandStage::Done, SdAction::Finish(SD_TIMEOUT, 0))
            } else {
                (
                    CommandStage::FirstWord { code, arg },
                    SdAction::Read { reg: SdReg::Resp0, then_wait_msec: 0 },
                )
            },
            CommandStage::FirstWord { code, arg } => if code == CMD_ALL_SEND_CID {
                (
                    CommandStage::CidWords { resp: v, next: 3 },
                    SdAction::Read { reg: SdReg::Resp3, then_wait_msec: 0 },
                )
            } else {
                let r = decode_response(code, arg, v);
                (CommandStage::Done, SdAction::Finish(r.0, r.1))
            },
            CommandStage::CidWords { resp, next } => if next == 3 {
                (
                    CommandStage::CidWords { resp: resp | v, next: 2 },
                    SdAction::Read { reg: SdReg::Resp2, then_wait_msec: 0 },
                )
            } else if next == 2 {
                (
                    CommandStage::CidWords { resp: resp | v, next: 1 },
                    SdAction::Read { reg: SdReg::Resp1, then_wait_msec: 0 },
                )
            } else {
                (CommandStage::Done, SdAction::Finish(SD_OK, resp | v))
            },
            CommandStage::Done => (CommandStage::Done, SdAction::Finish(SD_ERROR, 0)),
        }
    }
}

// ---------------------------------------------------------------------
// Initialising the card.

/// The driver state as the contracts see it.
pub struct SdCardView {
    pub scr: Seq<u64>,
    pub ocr: u64,
    pub rca: u64,
    pub err: u64,
    pub hv: u64,
    pub ccs: u64,
}

impl View for RPISDIO {
    type V = SdCardView;

    open spec fn view(&self) -> SdCardView {
        SdCardView {
            scr: self.scr@,
            ocr: self.ocr,
            rca: self.rca,
            err: self.err,
            hv: self.hv,
            ccs: self.ccs,
        }
    }
}

/// Stages of initialising the card; each names what the last action was.
#[derive(Clone, Copy, Debug)]
pub enum InitStage {
    Start,
    GpioDone,
    VersionRead,
    ResetDone,
    ClockPause,
    ClockControlRead,
    ClockControlWritten,
    SlowClockDone,
    IntEnWritten,
    IntMaskWritten,
    IdleDone,
    IfCondDone,
    IfCondPaused { resp: u32 },
    /// SEND_OP_COND sent with `cnt` tries left before it
    OpCondDone { cnt: u32 },
    OpCondPaused { cnt: u32, resp: u32 },
    CidDone,
    RelAddrDone,
    FastClockDone,
    SelectDone,
    DataFree,
    BlockSizeRead,
    BlockSizeWritten,
    ScrSent,
    ReadReady,
    /// polling for configuration word `got`
    ScrPoll { got: u32 },
    ScrPollWait { got: u32 },
    ScrWord { got: u32 },
    BusWidthDone,
    WideBusRead,
    WideBusWritten,
    Finished,
}

/// The ACMD41 loop: while the card is not done powering up and tries are
/// left, send SEND_OP_COND (up to six times).
pub open spec fn op_cond_loop(sd: SdCardView, cnt: u32, resp: u32) -> (SdCardView, InitStage, SdAction) {
    if resp & ACMD41_CMD_COMPLETE == 0 && cnt != 0 {
        (sd, InitStage::OpCondDone { cnt }, SdAction::Command(CMD_SEND_OP_COND, ACMD41_ARG_HC))
    } else {
        op_cond_conclude(sd, cnt, resp)
    }
}

/// After the loop: a timeout when the card never reported power-up or the
/// tries ran out (even on a last successful try), an error when no voltage
/// window is reported; else the card's capacity flag is kept and the card
/// is asked for its identification.
pub open spec fn op_cond_conclude(sd: SdCardView, cnt: u32, resp: u32) -> (SdCardView, InitStage, SdAction) {
    if resp & ACMD41_CMD_COMPLETE == 0 || cnt == 0 {
        (sd, InitStage::Finished, SdAction::Finish(SD_TIMEOUT, 0))
    } else if resp & ACMD41_VOLTAGE == 0 {
        (sd, InitStage::Finished, SdAction::Finish(SD_ERROR, 0))
    } else {
        (
            if resp & ACMD41_CMD_CCS != 0 { SdCardView { ccs: SCR_SUPP_CCS as u64, ..sd } } else { sd },
            InitStage::CidDone,
            SdAction::Command(CMD_ALL_SEND_CID, 0),
        )
    }
}

/// After the configuration register was read: switch to a four-bit bus
/// when the card supports one, else finish.
pub open spec fn scr_decide(sd: SdCardView) -> (SdCardView, InitStage, SdAction) {
    if sd.scr[0] & (SCR_SD_BUS_WIDTH_4 as u64) != 0 {
        (sd, InitStage::BusWidthDone, SdAction::Command(CMD_SET_BUS_WIDTH, (sd.rca as u32) | 2))
    } else {
        init_finalize(sd)
    }
}

/// The configuration word keeps the card's capacity flag in its lowest bit
/// (the mask also clears its upper half), and initialisation succeeds.
pub open spec fn init_finalize(sd: SdCardView) -> (SdCardView, InitStage, SdAction) {
    (
        SdCardView { scr: sd.scr.update(0, (sd.scr[0] & 0xFFFF_FFFE) | sd.ccs), ..sd },
        InitStage::Finished,
        SdAction::Finish(SD_OK, 0),
    )
}

/// One step of initialising the card: the pins, the host version, a reset,
/// the identification clock of 400 kHz, interrupts, GO_IDLE, SEND_IF_COND,
/// the ACMD41 loop, identification and address, the 25 MHz clock, card
/// selection, the configuration register and the bus width. Each failure
/// ends initialisation with the failing step's result, except the two
/// waits, which end it with a timeout.
pub open spec fn init_next(sd: SdCardView, st: InitStage, ev: SdEvent) -> (SdCardView, InitStage, SdAction) {
    let v = ev.value;
    let ok = ev.status == SD_OK;
    match st {
        InitStage::Start => (sd, InitStage::GpioDone, SdAction::GpioSetup),
        InitStage::GpioDone => (sd, InitStage::VersionRead, SdAction::Read { reg: SdReg::SlotIsrVer, then_wait_msec: 0 }),
        InitStage::VersionRead => (SdCardView { hv: host_spec_version(v), ..sd }, InitStage::ResetDone, SdAction::ResetCard),
        InitStage::ResetDone => if !ok {
            (sd, InitStage::Finished, SdAction::Finish(ev.status, 0))
        } else {
            (sd, InitStage::ClockPause, SdAction::Wait { msec: 10, cycles: 0 })
        },
        InitStage::ClockPause => (sd, InitStage::ClockControlRead, SdAction::Read { reg: SdReg::Control1, then_wait_msec: 0 }),
        InitStage::ClockControlRead => (
            sd,
            InitStage::ClockControlWritten,
            SdAction::Write { reg: SdReg::Control1, value: v | C1_CLK_INTLEN | C1_TOUNIT_MAX, then_wait_msec: 10 },
        ),
        InitStage::ClockControlWritten => (sd, InitStage::SlowClockDone, SdAction::SetClock(400_000)),
        InitStage::SlowClockDone => if !ok {
            (sd, InitStage::Finished, SdAction::Finish(ev.status, 0))
        } else {
            (sd, InitStage::IntEnWritten, SdAction::Write { reg: SdReg::IntEn, value: 0xFFFF_FFFF, then_wait_msec: 0 })
        },
        InitStage::IntEnWritten => (sd, InitStage::IntMaskWritten, SdAction::Write { reg: SdReg::IntMask, value: 0x0FFF_FFFF, then_wait_msec: 0 }),
        InitStage::IntMaskWritten => (SdCardView { rca: 0, ..sd }, InitStage::IdleDone, SdAction::Command(CMD_GO_IDLE, 0)),
        InitStage::IdleDone => if !ok {
            (sd, InitStage::Finished, SdAction::Finish(ev.status, 0))
        } else {
            (sd, InitStage::IfCondDone, SdAction::Command(CMD_SEND_IF_COND, 0x1AA))
        },
        InitStage::IfCondDone => if !ok {
            (sd, InitStage::Finished, SdAction::Finish(ev.status, 0))
        } else {
            (sd, InitStage::IfCondPaused { resp: v }, SdAction::Wait { msec: 10, cycles: 0 })
        },
        InitStage::IfCondPaused { resp } => op_cond_loop(sd, 6, resp),
        InitStage::OpCondDone { cnt } => if ev.status == SD_ERROR {
            (sd, InitStage::Finished, SdAction::Finish(SD_ERROR, 0))
        } else {
            (
                sd,
                InitStage::OpCondPaused { cnt: if cnt > 0 { (cnt - 1) as u32 } else { 0 }, resp: v },
                SdAction::Wait { msec: 0, cycles: 400 },
            )
        },
        InitStage::OpCondPaused { cnt, resp } => op_cond_loop(sd, cnt, resp),
        InitStage::CidDone => (sd, InitStage::RelAddrDone, SdAction::Command(CMD_SEND_REL_ADDR, 0)),
        InitStage::RelAddrDone => if !ok {
            (SdCardView { rca: v as u64, ..sd }, InitStage::Finished, SdAction::Finish(ev.status, 0))
        } else {
            (SdCardView { rca: v as u64, ..sd }, InitStage::FastClockDone, SdAction::SetClock(25_000_000))
        },
        InitStage::FastClockDone => if !ok {
            (sd, InitStage::Finished, SdAction::Finish(ev.status, 0))
        } else {
            (sd, InitStage::SelectDone, SdAction::Command(CMD_CARD_SELECT, sd.rca as u32))
        },
        InitStage::SelectDone => if !ok {
            (sd, InitStage::Finished, SdAction::Finish(ev.status, 0))
        } else {
            (sd, InitStage::DataFree, SdAction::AwaitStatus(SR_DAT_INHIBIT))
        },
        InitStage::DataFree => if !ok {
            (sd, InitStage::Finished, SdAction::Finish(SD_TIMEOUT, 0))
        } else {
            (sd, InitStage::BlockSizeRead, SdAction::Read { reg: SdReg::BlkSizeCnt, then_wait_msec: 0 })
        },
        InitStage::BlockSizeRead => (
            sd,
            InitStage::BlockSizeWritten,
            SdAction::Write { reg: SdReg::BlkSizeCnt, value: v | 0x1_0000u32 | 8u32, then_wait_msec: 0 },
        ),
        InitStage::BlockSizeWritten => (sd, InitStage::ScrSent, SdAction::Command(CMD_SEND_SCR, 0)),
        InitStage::ScrSent => if !ok {
            (sd, InitStage::Finished, SdAction::Finish(ev.status, 0))
        } else {
            (sd, InitStage::ReadReady, SdAction::AwaitInterrupt(INT_READ_RDY))
        },
        InitStage::ReadReady => if !ok {
            (sd, InitStage::Finished, SdAction::Finish(SD_TIMEOUT, 0))
        } else {
            (sd, InitStage::ScrPoll { got: 0 }, SdAction::Read { reg: SdReg::Status, then_wait_msec: 0 })
        },
        InitStage::ScrPoll { got } => if v & SR_READ_AVAILABLE != 0 {
            (sd, InitStage::ScrWord { got }, SdAction::Read { reg: SdReg::Data, then_wait_msec: 0 })
        } else {
            (sd, InitStage::ScrPollWait { got }, SdAction::Wait { msec: 1, cycles: 0 })
        },
        InitStage::ScrPollWait { got } => (sd, InitStage::ScrPoll { got }, SdAction::Read { reg: SdReg::Status, then_wait_msec: 0 }),
        InitStage::ScrWord { got } => if got == 0 {
            (
                SdCardView { scr: sd.scr.update(0, v as u64), ..sd },
                InitStage::ScrPoll { got: 1 },
                SdAction::Read { reg: SdReg::Status, then_wait_msec: 0 },
            )
        } else {
            scr_decide(SdCardView { scr: sd.scr.update(1, v as u64), ..sd })
        },
        InitStage::BusWidthDone => if !ok {
            (sd, InitStage::Finished, SdAction::Finish(ev.status, 0))
        } else {
            (sd, InitStage::WideBusRead, SdAction::Read { reg: SdReg::Control0, then_wait_msec: 0 })
        },
        InitStage::WideBusRead => (
            sd,
            InitStage::WideBusWritten,
            SdAction::Write { reg: SdReg::Control0, value: v | C0_HCTL_DWIDTH, then_wait_msec: 0 },
        ),
        InitStage::WideBusWritten => init_finalize(sd),
        InitStage::Finished => (sd, InitStage::Finished, SdAction::Finish(SD_OK, 0)),
    }
}

impl RPISDIO {
    fn op_cond_loop_exec(&mut self, cnt: u32, resp: u32) -> (r: (InitStage, SdAction))
        ensures
            (final(self)@, r.0, r.1) == op_cond_loop(old(self)@, cnt, resp),
    {
        if resp & ACMD41_CMD_COMPLETE == 0 && cnt != 0 {
            (InitStage::OpCondDone { cnt }, SdAction::Command(CMD_SEND_OP_COND, ACMD41_ARG_HC))
        } else if resp & ACMD41_CMD_COMPLETE == 0 || cnt == 0 {
            (InitStage::Finished, SdAction::Finish(SD_TIMEOUT, 0))
        } else if resp & ACMD41_VOLTAGE == 0 {
            (InitStage::Finished, SdAction::Finish(SD_ERROR, 0))
        } else {
            if resp & ACMD41_CMD_CCS != 0 {
                self.ccs = SCR_SUPP_CCS as u64;
            }
            (InitStage::CidDone, SdAction::Command(CMD_ALL_SEND_CID, 0))
        }
    }

    fn finalize_exec(&mut self) -> (r: (InitStage, SdAction))
        requires
            old(self)@.scr.len() == 3,
        ensures
            (final(self)@, r.0, r.1) == init_finalize(old(self)@),
    {
        self.scr[0] = (self.scr[0] & !(SCR_SUPP_CCS as u64) & 0xFFFF_FFFF) | self.ccs;
        assert(forall|w: u64| #![auto] w & !(1u64) & 0xFFFF_FFFFu64 == w & 0xFFFF_FFFEu64) by (bit_vector);
        (InitStage::Finished, SdAction::Finish(SD_OK, 0))
    }

    /// One step of `init` (see [`init_next`]).
    pub fn init_step(&mut self, st: InitStage, ev: SdEvent) -> (r: (InitStage, SdAction))
        ensures
            (final(self)@, r.0, r.1) == init_next(old(self)@, st, ev),
    {
        proof {
            assert(self.scr@.len() == 3);
        }
        let v = ev.value;
        let ok = ev.status == SD_OK;
        match st {
            InitStage::Start => (InitStage::GpioDone, SdAction::GpioSetup),
            InitStage::GpioDone => (InitStage::VersionRead, SdAction::Read { reg: SdReg::SlotIsrVer, then_wait_msec: 0 }),
            InitStage::VersionRead => {
                self.hv = host_version(v);
                (InitStage::ResetDone, SdAction::ResetCard)
            },
            InitStage::ResetDone => if !ok {
                (InitStage::Finished, SdAction::Finish(ev.status, 0))
            } else {
                (InitStage::ClockPause, SdAction::Wait { msec: 10, cycles: 0 })
            },
            InitStage::ClockPause => (InitStage::ClockControlRead, SdAction::Read { reg: SdReg::Control1, then_wait_msec: 0 }),
            InitStage::ClockControlRead => (
                InitStage::ClockControlWritten,
                SdAction::Write { reg: SdReg::Control1, value: v | C1_CLK_INTLEN | C1_TOUNIT_MAX, then_wait_msec: 10 },
            ),
            InitStage::ClockControlWritten => (InitStage::SlowClockDone, SdAction::SetClock(400_000)),
            InitStage::SlowClockDone => if !ok {
                (InitStage::Finished, SdAction::Finish(ev.status, 0))
            } else {
                (InitStage::IntEnWritten, SdAction::Write { reg: SdReg::IntEn, value: 0xFFFF_FFFF, then_wait_msec: 0 })
            },
            InitStage::IntEnWritten => (InitStage::IntMaskWritten, SdAction::Write { reg: SdReg::IntMask, value: 0x0FFF_FFFF, then_wait_msec: 0 }),
            InitStage::IntMaskWritten => {
                self.rca = 0;
                (InitStage::IdleDone, SdAction::Command(CMD_GO_IDLE, 0))
            },
            InitStage::IdleDone => if !ok {
                (InitStage::Finished, SdAction::Finish(ev.status, 0))
            } else {
                (InitStage::IfCondDone, SdAction::Command(CMD_SEND_IF_COND, 0x1AA))
            },
            InitStage::IfCondDone => if !ok {
                (InitStage::Finished, SdAction::Finish(ev.status, 0))
            } else {
                (InitStage::IfCondPaused { resp: v }, SdAction::Wait { msec: 10, cycles: 0 })
            },
            InitStage::IfCondPaused { resp } => self.op_cond_loop_exec(6, resp),
            InitStage::OpCondDone { cnt } => if ev.status == SD_ERROR {
                (InitStage::Finished, SdAction::Finish(SD_ERROR, 0))
            } else {
                (
                    InitStage::OpCondPaused { cnt: if cnt > 0 { cnt - 1 } else { 0 }, resp: v },
                    SdAction::Wait { msec: 0, cycles: 400 },
                )
            },
            InitStage::OpCondPaused { cnt, resp } => self.op_cond_loop_exec(cnt, resp),
            InitStage::CidDone => (InitStage::RelAddrDone, SdAction::Command(CMD_SEND_REL_ADDR, 0)),
            InitStage::RelAddrDone => {
                self.rca = v as u64;
                if !ok {
                    (InitStage::Finished, SdAction::Finish(ev.status, 0))
                } else {
                    (InitStage::FastClockDone, SdAction::SetClock(25_000_000))
                }
            },
            InitStage::FastClockDone => if !ok {
                (InitStage::Finished, SdAction::Finish(ev.status, 0))
            } else {
                (InitStage::SelectDone, SdAction::Command(CMD_CARD_SELECT, self.rca as u32))
            },
            InitStage::SelectDone => if !ok {
                (InitStage::Finished, SdAction::Finish(ev.status, 0))
            } else {
                (InitStage::DataFree, SdAction::AwaitStatus(SR_DAT_INHIBIT))
            },
            InitStage::DataFree => if !ok {
                (InitStage::Finished, SdAction::Finish(SD_TIMEOUT, 0))
            } else {
                (InitStage::BlockSizeRead, SdAction::Read { reg: SdReg::BlkSizeCnt, then_wait_msec: 0 })
            },
            InitStage::BlockSizeRead => (
                InitStage::BlockSizeWritten,
                SdAction::Write { reg: SdReg::BlkSizeCnt, value: v | 0x1_0000u32 | 8u32, then_wait_msec: 0 },
            ),
            InitStage::BlockSizeWritten => (InitStage::ScrSent, SdAction::Command(CMD_SEND_SCR, 0)),
            InitStage::ScrSent => if !ok {
                (InitStage::Finished, SdAction::Finish(ev.status, 0))
            } else {
                (InitStage::ReadReady, SdAction::AwaitInterrupt(INT_READ_RDY))
            },
            InitStage::ReadReady => if !ok {
                (InitStage::Finished, SdAction::Finish(SD_TIMEOUT, 0))
            } else {
                (InitStage::ScrPoll { got: 0 }, SdAction::Read { reg: SdReg::Status, then_wait_msec: 0 })
            },
            InitStage::ScrPoll { got } => if v & SR_READ_AVAILABLE != 0 {
                (InitStage::ScrWord { got }, SdAction::Read { reg: SdReg::Data, then_wait_msec: 0 })
            } else {
                (InitStage::ScrPollWait { got }, SdAction::Wait { msec: 1, cycles: 0 })
            },
            InitStage::ScrPollWait { got } => (InitStage::ScrPoll { got }, SdAction::Read { reg: SdReg::Status, then_wait_msec: 0 }),
            InitStage::ScrWord { got } => if got == 0 {
                self.scr[0] = v as u64;
                (InitStage::ScrPoll { got: 1 }, SdAction::Read { reg: SdReg::Status, then_wait_msec: 0 })
            } else {
                self.scr[1] = v as u64;
                if self.scr[0] & (SCR_SD_BUS_WIDTH_4 as u64) != 0 {
                    (InitStage::BusWidthDone, SdAction::Command(CMD_SET_BUS_WIDTH, (self.rca as u32) | 2))
                } else {
                    self.finalize_exec()
                }
            },
            InitStage::BusWidthDone => if !ok {
                (InitStage::Finished, SdAction::Finish(ev.status, 0))
            } else {
                (InitStage::WideBusRead, SdAction::Read { reg: SdReg::Control0, then_wait_msec: 0 })
            },
            InitStage::WideBusRead => (
                InitStage::WideBusWritten,
                SdAction::Write { reg: SdReg::Control0, value: v | C0_HCTL_DWIDTH, then_wait_msec: 0 },
            ),
            InitStage::WideBusWritten => self.finalize_exec(),
            InitStage::Finished => (InitStage::Finished, SdAction::Finish(SD_OK, 0)),
        }
    }
}

// ---------------------------------------------------------------------
// Reading a block.

/// Stages of reading one 512-byte block.
#[derive(Clone, Copy, Debug)]
pub enum BlockStage {
    Start,
    SizeWritten,
    Commanded,
    Ready,
    /// reading data word `d` of 128
    Word { d: u32 },
    Done,
}

/// A block of zero bytes.
pub open spec fn zero_block() -> Seq<u8> {
    Seq::new(512, |i: int| 0u8)
}

/// The buffer with the four bytes of data word `d` stored at `4 * d`,
/// least significant first.
pub open spec fn store_word(buf: Seq<u8>, d: int, w: u32) -> Seq<u8> {
    buf.update(4 * d, (w % 0x100) as u8).update(4 * d + 1, ((w / 0x100) % 0x100) as u8).update(
        4 * d + 2,
        ((w / 0x1_0000) % 0x100) as u8,
    ).update(4 * d + 3, (w / 0x100_0000) as u8)
}

/// One step of reading block `lba`: set the block size and count, send
/// READ_SINGLE_BLOCK, wait until data is ready and read the 128 data words
/// into the buffer. A failed command or wait ends the read with the buffer
/// as it started, all zeros.
pub open spec fn readblock_next(buf: Seq<u8>, lba: usize, st: BlockStage, ev: SdEvent) -> (Seq<u8>, BlockStage, SdAction) {
    match st {
        BlockStage::Start => (
            zero_block(),
            BlockStage::SizeWritten,
            SdAction::Write { reg: SdReg::BlkSizeCnt, value: 0x1_0000u32 | 512u32, then_wait_msec: 0 },
        ),
        BlockStage::SizeWritten => (buf, BlockStage::Commanded, SdAction::Command(CMD_READ_SINGLE, lba as u32)),
        BlockStage::Commanded => if ev.status != SD_OK {
            (buf, BlockStage::Done, SdAction::Finish(ev.status, 0))
        } else {
            (buf, BlockStage::Ready, SdAction::AwaitInterrupt(INT_READ_RDY))
        },
        BlockStage::Ready => if ev.status != SD_OK {
            (buf, BlockStage::Done, SdAction::Finish(ev.status, 0))
        } else {
            (buf, BlockStage::Word { d: 0 }, SdAction::Read { reg: SdReg::Data, then_wait_msec: 0 })
        },
        BlockStage::Word { d } => if d < 128 {
            if d + 1 < 128 {
                (
                    store_word(buf, d as int, ev.value),
                    BlockStage::Word { d: (d + 1) as u32 },
                    SdAction::Read { reg: SdReg::Data, then_wait_msec: 0 },
                )
            } else {
                (store_word(buf, d as int, ev.value), BlockStage::Done, SdAction::Finish(SD_OK, 0))
            }
        } else {
            (buf, BlockStage::Done, SdAction::Finish(SD_OK, 0))
        },
        BlockStage::Done => (buf, BlockStage::Done, SdAction::Finish(SD_OK, 0)),
    }
}

impl RPISDIO {
    /// One step of `readblock` (see [`readblock_next`]); the buffer is the
    /// block being read.
    pub fn readblock_step(&self, buffer: &mut [u8; 512], lba: usize, st: BlockStage, ev: SdEvent) -> (r: (BlockStage, SdAction))
        ensures
            (final(buffer)@, r.0, r.1) == readblock_next(old(buffer)@, lba, st, ev),
    {
        match st {
            BlockStage::Start => {
                *buffer = [0; 512];
                assert(buffer@ =~= zero_block());
                (
                    BlockStage::SizeWritten,
                    SdAction::Write { reg: SdReg::BlkSizeCnt, value: 0x1_0000u32 | 512u32, then_wait_msec: 0 },
                )
            },
            BlockStage::SizeWritten => (BlockStage::Commanded, SdAction::Command(CMD_READ_SINGLE, lba as u32)),
            BlockStage::Commanded => if ev.status != SD_OK {
                (BlockStage::Done, SdAction::Finish(ev.status, 0))
            } else {
                (BlockStage::Ready, SdAction::AwaitInterrupt(INT_READ_RDY))
            },
            BlockStage::Ready => if ev.status != SD_OK {
                (BlockStage::Done, SdAction::Finish(ev.status, 0))
            } else {
                (BlockStage::Word { d: 0 }, SdAction::Read { reg: SdReg::Data, then_wait_msec: 0 })
            },
            BlockStage::Word { d } => if d < 128 {
                let data = ev.value;
                let i = d as usize * 4;
                let b3 = (data / 0x100_0000) as u8;
                let b2 = ((data / 0x1_0000) % 0x100) as u8;
                let b1 = ((data / 0x100) % 0x100) as u8;
                let b0 = (data % 0x100) as u8;
                buffer[i] = b0;
                buffer[i + 1] = b1;
                buffer[i + 2] = b2;
                buffer[i + 3] = b3;
                if d + 1 < 128 {
                    (BlockStage::Word { d: d + 1 }, SdAction::Read { reg: SdReg::Data, then_wait_msec: 0 })
                } else {
                    (BlockStage::Done, SdAction::Finish(SD_OK, 0))
                }
            } else {
                (BlockStage::Done, SdAction::Finish(SD_OK, 0))
            },
            BlockStage::Done => (BlockStage::Done, SdAction::Finish(SD_OK, 0)),
        }
    }
}

/// Stages of reading a block by DMA.
#[derive(Clone, Copy, Debug)]
pub enum DmaBlockStage {
    Start,
    SizeWritten,
    Commanded,
    Ready,
    Copying,
    Done,
}

/// One step of reading block `lba` into the memory at bus address `dst` by
/// DMA: set the block size and count, send READ_SINGLE_BLOCK, wait until
/// data is ready, and let DMA channel 0 move the 512 bytes from the data
/// register. A failed command or wait ends the read with its status.
pub open spec fn dma_readblock_next(lba: usize, dst: u32, st: DmaBlockStage, ev: SdEvent) -> (DmaBlockStage, SdAction) {
    match st {
        DmaBlockStage::Start => (
            DmaBlockStage::SizeWritten,
            SdAction::Write { reg: SdReg::BlkSizeCnt, value: 0x1_0000u32 | 512u32, then_wait_msec: 0 },
        ),
        DmaBlockStage::SizeWritten => (DmaBlockStage::Commanded, SdAction::Command(CMD_READ_SINGLE, lba as u32)),
        DmaBlockStage::Commanded => if ev.status != SD_OK {
            (DmaBlockStage::Done, SdAction::Finish(ev.status, 0))
        } else {
            (DmaBlockStage::Ready, SdAction::AwaitInterrupt(INT_READ_RDY))
        },
        DmaBlockStage::Ready => if ev.status != SD_OK {
            (DmaBlockStage::Done, SdAction::Finish(ev.status, 0))
        } else {
            (DmaBlockStage::Copying, SdAction::DmaCopy(DmaControlBlock::sd_block_read_spec(dst)))
        },
        DmaBlockStage::Copying => (DmaBlockStage::Done, SdAction::Finish(SD_OK, 0)),
        DmaBlockStage::Done => (DmaBlockStage::Done, SdAction::Finish(SD_OK, 0)),
    }
}

impl RPISDIO {
    /// One step of `dma_readblock` (see [`dma_readblock_next`]).
    pub fn dma_readblock_step(&self, lba: usize, dst: u32, st: DmaBlockStage, ev: SdEvent) -> (r: (DmaBlockStage, SdAction))
        ensures
            r == dma_readblock_next(lba, dst, st, ev),
    {
        match st {
            DmaBlockStage::Start => (
                DmaBlockStage::SizeWritten,
                SdAction::Write { reg: SdReg::BlkSizeCnt, value: 0x1_0000u32 | 512u32, then_wait_msec: 0 },
            ),
            DmaBlockStage::SizeWritten => (DmaBlockStage::Commanded, SdAction::Command(CMD_READ_SINGLE, lba as u32)),
            DmaBlockStage::Commanded => if ev.status != SD_OK {
                (DmaBlockStage::Done, SdAction::Finish(ev.status, 0))
            } else {
                (DmaBlockStage::Ready, SdAction::AwaitInterrupt(INT_READ_RDY))
            },
            DmaBlockStage::Ready => if ev.status != SD_OK {
                (DmaBlockStage::Done, SdAction::Finish(ev.status, 0))
            } else {
                (DmaBlockStage::Copying, SdAction::DmaCopy(DmaControlBlock::sd_block_read(dst)))
            },
            DmaBlockStage::Copying => (DmaBlockStage::Done, SdAction::Finish(SD_OK, 0)),
            DmaBlockStage::Done => (DmaBlockStage::Done, SdAction::Finish(SD_OK, 0)),
        }
    }
}

/// A stored data word reads back, little-endian, as the word itself, and
/// the other bytes of the block are untouched.
pub proof fn lemma_store_word_roundtrip(buf: Seq<u8>, d: int, w: u32)
    requires
        buf.len() == 512,
        0 <= d < 128,
    ensures
        le32(store_word(buf, d, w), 4 * d) == w,
        store_word(buf, d, w).len() == 512,
        forall|i: int| 0 <= i < 512 && (i < 4 * d || i >= 4 * d + 4) ==> #[trigger] store_word(buf, d, w)[i] == buf[i],
{
    assert(w == (w / 0x100_0000) * 0x100_0000 + ((w / 0x1_0000) % 0x100) * 0x1_0000 + ((w / 0x100)
        % 0x100) * 0x100 + w % 0x100) by (nonlinear_arith);
}

// ---------------------------------------------------------------------
// Dumping a block.

/// The bytes `start .. start + n` of `buf`, each as hexadecimal followed by
/// a space.
pub open spec fn hex_bytes_text(buf: Seq<u8>, start: int, n: nat) -> Seq<u8>
    decreases n,
{
    if n == 0 {
        Seq::empty()
    } else {
        hex_bytes_text(buf, start, (n - 1) as nat) + hex_text(buf[start + n - 1] as nat) + " ".spec_bytes()
    }
}

/// The bytes `start .. start + n` of `buf` as characters, non-printable
/// ones as dots.
pub open spec fn ascii_bytes_text(buf: Seq<u8>, start: int, n: nat) -> Seq<u8> {
    Seq::new(n, |i: int| ascii_or_dot(buf[start + i] as char) as u8)
}

/// One line of a block dump: the offset of its 16 bytes, the bytes in
/// hexadecimal, and the bytes as characters.
pub open spec fn dump_line_text(buf: Seq<u8>, line: int) -> Seq<u8> {
    hex_text((line * 16) as nat) + " | ".spec_bytes() + hex_bytes_text(buf, line * 16, 16)
        + " | ".spec_bytes() + ascii_bytes_text(buf, line * 16, 16) + "\n".spec_bytes()
}

/// The first `n` lines of a block dump.
pub open spec fn dump_lines_text(buf: Seq<u8>, n: nat) -> Seq<u8>
    decreases n,
{
    if n == 0 {
        Seq::empty()
    } else {
        dump_lines_text(buf, (n - 1) as nat) + dump_line_text(buf, n - 1)
    }
}

/// What `dump_block` prints for a block that was read.
pub open spec fn dump_block_text(buf: Seq<u8>) -> Seq<u8> {
    "Read block\n".spec_bytes() + dump_lines_text(buf, 32) + "Dumped block\n".spec_bytes()
}

fn push_dump_line(out: &mut Vec<u8>, buffer: &[u8; 512], line: usize)
    requires
        line < 32,
    ensures
        final(out)@ == old(out)@ + dump_line_text(buffer@, line as int),
{
    let ghost start = out@;
    push_hex(out, (line * 16) as u64);
    push_str(out, " | ");
    let ghost mid = out@;
    let mut column: usize = 0;
    while column < 16
        invariant
            line < 32,
            column <= 16,
            out@ == mid + hex_bytes_text(buffer@, line * 16, column as nat),
        decreases 16 - column,
    {
        push_hex(out, buffer[line * 16 + column] as u64);
        push_str(out, " ");
        column = column + 1;
    }
    push_str(out, " | ");
    let ghost mid2 = out@;
    let mut column: usize = 0;
    while column < 16
        invariant
            line < 32,
            column <= 16,
            out@ == mid2 + ascii_bytes_text(buffer@, line * 16, column as nat),
        decreases 16 - column,
    {
        let c = crate::uart::mini::uart_putc_ascii(buffer[line * 16 + column] as char);
        out.push(c as u8);
        column = column + 1;
        assert(ascii_bytes_text(buffer@, line * 16, column as nat) =~= ascii_bytes_text(
            buffer@,
            line * 16,
            (column - 1) as nat,
        ).push(c as u8));
    }
    assert(out@ =~= mid2 + ascii_bytes_text(buffer@, line * 16, 16));
    push_str(out, "\n");
}

impl RPISDIO {
    /// The text that `dump_block` prints for a block that was read:
    /// 32 lines of 16 bytes, framed by a line before and after.
    pub fn dump_block(buffer: &[u8; 512]) -> (out: Vec<u8>)
        ensures
            out@ == dump_block_text(buffer@),
    {
        let mut out = text_of("Read block\n");
        let ghost head = out@;
        let mut line: usize = 0;
        while line < 32
            invariant
                line <= 32,
                out@ == head + dump_lines_text(buffer@, line as nat),
            decreases 32 - line,
        {
            push_dump_line(&mut out, buffer, line);
            line = line + 1;
        }
        push_str(&mut out, "Dumped block\n");
        out
    }
}

// ---------------------------------------------------------------------
// Laws of the driver.

/// The card's capacity status is only ever 0 or the SCR capacity bit:
/// every step of initialisation keeps it so.
pub proof fn lemma_init_keeps_capacity_flag(sd: SdCardView, st: InitStage, ev: SdEvent)
    requires
        sd.ccs == 0 || sd.ccs == SCR_SUPP_CCS as u64,
        sd.scr.len() == 3,
    ensures
        init_next(sd, st, ev).0.ccs == 0 || init_next(sd, st, ev).0.ccs == SCR_SUPP_CCS as u64,
        init_next(sd, st, ev).0.scr.len() == 3,
{
}

/// Initialisation reports success only once the configuration register
/// has been read (directly, or after switching the bus width) or when it
/// had already finished: every earlier step that finishes reports a
/// failure.
pub proof fn lemma_init_reports_failures(sd: SdCardView, st: InitStage, ev: SdEvent)
    ensures
        init_next(sd, st, ev).2 matches SdAction::Finish(s, _) && s == SD_OK ==> st is ScrWord
            || st is WideBusWritten || st is Finished,
{
}

/// When initialisation succeeds at its last step, the configuration word's
/// lowest bit is the card's capacity status, its other low bits are as the
/// card sent them and its upper half is clear.
pub proof fn lemma_init_final_scr(sd: SdCardView)
    requires
        sd.ccs == 0 || sd.ccs == SCR_SUPP_CCS as u64,
        sd.scr.len() == 3,
    ensures
        init_finalize(sd).0.scr[0] & 1 == sd.ccs,
        init_finalize(sd).0.scr[0] & 0xFFFF_FFFE == sd.scr[0] & 0xFFFF_FFFE,
        init_finalize(sd).0.scr[0] >> 32u64 == 0,
        init_finalize(sd).2 == SdAction::Finish(SD_OK, 0),
{
    let w = sd.scr[0];
    let c = sd.ccs;
    assert(((w & 0xFFFF_FFFE) | c) & 1 == c && ((w & 0xFFFF_FFFE) | c) & 0xFFFF_FFFE == w
        & 0xFFFF_FFFE && ((w & 0xFFFF_FFFE) | c) >> 32u64 == 0) by (bit_vector)
        requires
            c == 0 || c == 1,
    ;
}

/// ACMD41 is tried at most six times: a SEND_OP_COND goes out only while
/// tries are left, and each one leaves one try fewer.
pub proof fn lemma_op_cond_tries(sd: SdCardView, cnt: u32, resp: u32, ev: SdEvent)
    ensures
        init_next(sd, InitStage::IfCondPaused { resp }, ev).1 is OpCondDone ==> init_next(
            sd,
            InitStage::IfCondPaused { resp },
            ev,
        ).1 == (InitStage::OpCondDone { cnt: 6 }),
        init_next(sd, InitStage::OpCondPaused { cnt, resp }, ev).2 == SdAction::Command(
            CMD_SEND_OP_COND,
            ACMD41_ARG_HC,
        ) ==> cnt > 0 && init_next(sd, InitStage::OpCondPaused { cnt, resp }, ev).1 == (InitStage::OpCondDone { cnt }),
        cnt > 0 && init_next(sd, InitStage::OpCondDone { cnt }, ev).1 is OpCondPaused ==> init_next(
            sd,
            InitStage::OpCondDone { cnt },
            ev,
        ).1->OpCondPaused_cnt == cnt - 1,
{
}

/// An application command goes out behind CMD55, which carries the card's
/// address; once the prefix is accepted, the command itself is sent
/// without the application flag.
pub proof fn lemma_app_command_prefix(rca: u64, code: u32, arg: u32, ev: SdEvent)
    requires
        code & CMD_NEED_APP != 0,
    ensures
        command_begin(rca, code, arg).1 == SdAction::Command(app_prefix_code(rca), rca as u32),
        app_prefix_code(rca) & CMD_NEED_APP == 0,
        !(rca != 0 && ev.value == 0) ==> command_next(rca, command_begin(rca, code, arg).0, ev).0
            == (CommandStage::Inhibit { code: code & !CMD_NEED_APP, arg }),
        (code & !CMD_NEED_APP) & CMD_NEED_APP == 0,
{
    assert((code & !0x8000_0000u32) & 0x8000_0000u32 == 0) by (bit_vector);
    assert((0x3700_0000u32 | 0x0002_0000u32) & 0x8000_0000u32 == 0 && 0x3700_0000u32 & 0x8000_0000u32
        == 0) by (bit_vector);
}

proof fn lemma_command_code_bits()
    ensures
        0xA902_0000u32 & 0x8000_0000u32 != 0,
        0xA902_0000u32 & !0x8000_0000u32 == 0x2902_0000u32,
        0x3700_0000u32 | 0x0002_0000u32 == 0x3702_0000u32,
{
    assert(0xA902_0000u32 & 0x8000_0000u32 != 0 && 0xA902_0000u32 & !0x8000_0000u32 == 0x2902_0000u32
        && 0x3700_0000u32 | 0x0002_0000u32 == 0x3702_0000u32) by (bit_vector);
}

/// SEND_IF_COND succeeds exactly when the card echoes the check pattern;
/// SEND_RELATIVE_ADDR yields the address half of the response, and its
/// status is never one of the negative result codes.
pub proof fn lemma_command_results(arg: u32, resp: u32)
    ensures
        command_result(CMD_SEND_IF_COND, arg, resp).0 == SD_OK <==> resp == arg,
        command_result(CMD_SEND_REL_ADDR, arg, resp).1 == resp & CMD_RCA_MSK,
        command_result(CMD_SEND_REL_ADDR, arg, resp).0 >= 0,
{
    lemma_command_code_bits();
    let e = rel_addr_errors(resp);
    assert(e < 0x8000_0000u32) by (bit_vector)
        requires
            e == ((resp & 0x1fff) | ((resp & 0x2000) << 6u32) | ((resp & 0xC000) << 8u32)) & 0xFFF9_C004u32,
    ;
    assert((e as i32) >= 0) by (bit_vector)
        requires
            e < 0x8000_0000u32,
    ;
}

/// What each command gives once its response is in, from the first
/// response word `ev.value`: SEND_OP_COND (ACMD41, sent as 0x2902_0000
/// after its prefix) gives the whole operating-condition word, power-up and
/// capacity bits included; SEND_IF_COND succeeds exactly on the echo of its
/// argument; SEND_RELATIVE_ADDR gives the upper half of the word as the new
/// address; GO_IDLE and a bare APP_CMD give nothing; an addressed APP_CMD
/// gives its APP_CMD status bit; CARD_SELECT gives the error bits of the
/// card status; ALL_SEND_CID goes on to read the other three words.
pub proof fn lemma_command_decoding(rca: u64, arg: u32, ev: SdEvent)
    ensures
        command_next(rca, CommandStage::FirstWord { code: 0x2902_0000, arg }, ev) == (
            CommandStage::Done,
            SdAction::Finish(0, ev.value),
        ),
        command_next(rca, CommandStage::FirstWord { code: 0x0802_0000, arg }, ev) == (
            CommandStage::Done,
            SdAction::Finish(if ev.value == arg { 0i32 } else { -2i32 }, 0),
        ),
        command_next(rca, CommandStage::FirstWord { code: 0x0302_0000, arg }, ev).1 matches SdAction::Finish(
            _,
            a,
        ) && a == ev.value & 0xFFFF_0000,
        command_next(rca, CommandStage::FirstWord { code: 0x0000_0000, arg }, ev) == (
            CommandStage::Done,
            SdAction::Finish(0, 0),
        ),
        command_next(rca, CommandStage::FirstWord { code: 0x3700_0000, arg }, ev) == (
            CommandStage::Done,
            SdAction::Finish(0, 0),
        ),
        command_next(rca, CommandStage::FirstWord { code: 0x3702_0000, arg }, ev) == (
            CommandStage::Done,
            SdAction::Finish(0, ev.value & 0x20),
        ),
        command_next(rca, CommandStage::FirstWord { code: 0x0703_0000, arg }, ev) == (
            CommandStage::Done,
            SdAction::Finish(0, ev.value & 0xFFF9_C004),
        ),
        command_next(rca, CommandStage::FirstWord { code: 0x0201_0000, arg }, ev) == (
            CommandStage::CidWords { resp: ev.value, next: 3 },
            SdAction::Read { reg: SdReg::Resp3, then_wait_msec: 0 },
        ),
{
    lemma_command_code_bits();
}

/// ACMD41 on a card without an address: it starts with a bare APP_CMD
/// prefix whose argument is the (zero) address, and once the prefix is
/// through the command goes on as 0x2902_0000 with its argument kept.
pub proof fn lemma_acmd41_prefix(arg: u32, ev: SdEvent)
    ensures
        command_begin(0, 0xA902_0000, arg) == (
            CommandStage::AppPrefix { code: 0xA902_0000, arg },
            SdAction::Command(0x3700_0000, 0),
        ),
        command_next(0, CommandStage::AppPrefix { code: 0xA902_0000, arg }, ev) == (
            CommandStage::Inhibit { code: 0x2902_0000, arg },
            SdAction::AwaitStatus(1),
        ),
{
    lemma_command_code_bits();
}

/// The card's relative address is the value SEND_RELATIVE_ADDR returned,
/// whether the command succeeded or not; after the 25 MHz clock the card
/// is selected with exactly that value as the argument.
pub proof fn lemma_init_card_address(sd: SdCardView, ev: SdEvent, ev2: SdEvent)
    requires
        ev2.status == SD_OK,
    ensures
        init_next(sd, InitStage::RelAddrDone, ev).0.rca == ev.value as u64,
        ev.status == SD_OK ==> init_next(sd, InitStage::RelAddrDone, ev).2 == SdAction::SetClock(
            25_000_000,
        ),
        ev.status != SD_OK ==> init_next(sd, InitStage::RelAddrDone, ev).2 == SdAction::Finish(
            ev.status,
            0,
        ),
        init_next(init_next(sd, InitStage::RelAddrDone, ev).0, InitStage::FastClockDone, ev2).2
            == SdAction::Command(0x0703_0000, ev.value),
{
}

/// The commands initialisation sends and what it writes on the way: the
/// address is cleared before GO_IDLE (code 0, argument 0); SEND_IF_COND
/// carries the check pattern 0x1AA; while the card is not powered up and
/// tries are left, ACMD41 (0xA902_0000) carries the high-capacity argument
/// 0x51FF_8000; a card that reports a 4-bit bus gets SET_BUS_WIDTH
/// (0x8602_0000) with its address and 2; the block register gets one block
/// of eight bytes added for the configuration register; the clock register
/// gets the internal clock enable and the longest timeout.
pub proof fn lemma_init_commands(sd: SdCardView, ev: SdEvent, cnt: u32, resp: u32)
    ensures
        init_next(sd, InitStage::IntMaskWritten, ev).0.rca == 0,
        init_next(sd, InitStage::IntMaskWritten, ev).2 == SdAction::Command(0, 0),
        ev.status == SD_OK ==> init_next(sd, InitStage::IdleDone, ev).2 == SdAction::Command(
            0x0802_0000,
            0x1AA,
        ),
        resp & 0x8000_0000 == 0 && cnt != 0 ==> op_cond_loop(sd, cnt, resp).2 == SdAction::Command(
            0xA902_0000,
            0x51FF_8000,
        ),
        sd.scr[0] & 0x400 != 0 ==> scr_decide(sd).2 == SdAction::Command(
            0x8602_0000,
            (sd.rca as u32) | 2,
        ),
        init_next(sd, InitStage::BlockSizeRead, ev).2 == (SdAction::Write {
            reg: SdReg::BlkSizeCnt,
            value: ev.value | 0x1_0008,
            then_wait_msec: 0,
        }),
        init_next(sd, InitStage::ClockControlRead, ev).2 == (SdAction::Write {
            reg: SdReg::Control1,
            value: ev.value | 0xE_0001,
            then_wait_msec: 10,
        }),
{
    assert(forall|v: u32| #![auto] v | 0x1_0000u32 | 8u32 == v | 0x1_0008u32 && v | 1u32 | 0xE_0000u32 == v
        | 0xE_0001u32) by (bit_vector);
}

/// A successful interrupt wait acknowledges exactly the awaited bits; a
/// failed one acknowledges everything pending, and a timeout bit is a
/// timeout even when the awaited bit is also raised.
pub proof fn lemma_interrupt_acknowledge(w: InterruptWait, final_int: u32)
    ensures
        w.conclusion(final_int).0 == SD_OK ==> w.conclusion(final_int).1 == w.mask,
        w.conclusion(final_int).0 != SD_OK ==> w.conclusion(final_int).1 == final_int,
        final_int & INT_CMD_TIMEOUT != 0 ==> w.conclusion(final_int).0 == SD_TIMEOUT,
{
}

} // verus!
