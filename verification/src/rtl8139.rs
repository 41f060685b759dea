//! The Realtek RTL8139 network controller: register layout, start-up
//! sequence and reclaiming of transmit descriptors.

use vstd::prelude::*;

verus! {

/// Register offsets from the I/O base.
#[allow(non_camel_case_types)]
pub enum RTL8139Registers {
    MAC0,
    MAR0,
    TxStatus0,
    TxAddr0,
    RxBuf,
    ChipCmd,
    RxBufPtr,
    RxBufAddr,
    IntrMask,
    IntrStatus,
    TxConfig,
    RxConfig,
    Timer,
    RxMissed,
    Cfg9346,
    Config0,
    Config1,
    TimerInt,
    MediaStatus,
    Config3,
    Config4,
    HltClk,
    MultiIntr,
    TxSummary,
    BasicModeCtrl,
    BasicModeStatus,
    NWayAdvert,
    NWayLPAR,
    NWayExpansion,
}

impl RTL8139Registers {
    /// The value the hardware uses.
    pub fn code(&self) -> (r: u32)
        ensures
            r == match *self {
                RTL8139Registers::MAC0 => 0x0u32,
                RTL8139Registers::MAR0 => 0x8,
                RTL8139Registers::TxStatus0 => 0x10,
                RTL8139Registers::TxAddr0 => 0x20,
                RTL8139Registers::RxBuf => 0x30,
                RTL8139Registers::ChipCmd => 0x37,
                RTL8139Registers::RxBufPtr => 0x38,
                RTL8139Registers::RxBufAddr => 0x3A,
                RTL8139Registers::IntrMask => 0x3C,
                RTL8139Registers::IntrStatus => 0x3E,
                RTL8139Registers::TxConfig => 0x40,
                RTL8139Registers::RxConfig => 0x44,
                RTL8139Registers::Timer => 0x48,
                RTL8139Registers::RxMissed => 0x4C,
                RTL8139Registers::Cfg9346 => 0x50,
                RTL8139Registers::Config0 => 0x51,
                RTL8139Registers::Config1 => 0x52,
                RTL8139Registers::TimerInt => 0x54,
                RTL8139Registers::MediaStatus => 0x58,
                RTL8139Registers::Config3 => 0x59,
                RTL8139Registers::Config4 => 0x5A,
                RTL8139Registers::HltClk => 0x5B,
                RTL8139Registers::MultiIntr => 0x5C,
                RTL8139Registers::TxSummary => 0x60,
                RTL8139Registers::BasicModeCtrl => 0x62,
                RTL8139Registers::BasicModeStatus => 0x64,
                RTL8139Registers::NWayAdvert => 0x66,
                RTL8139Registers::NWayLPAR => 0x68,
                RTL8139Registers::NWayExpansion => 0x6A,
            },
    {
        match self {
            RTL8139Registers::MAC0 => 0x0,
            RTL8139Registers::MAR0 => 0x8,
            RTL8139Registers::TxStatus0 => 0x10,
            RTL8139Registers::TxAddr0 => 0x20,
            RTL8139Registers::RxBuf => 0x30,
            RTL8139Registers::ChipCmd => 0x37,
            RTL8139Registers::RxBufPtr => 0x38,
            RTL8139Registers::RxBufAddr => 0x3A,
            RTL8139Registers::IntrMask => 0x3C,
            RTL8139Registers::IntrStatus => 0x3E,
            RTL8139Registers::TxConfig => 0x40,
            RTL8139Registers::RxConfig => 0x44,
            RTL8139Registers::Timer => 0x48,
            RTL8139Registers::RxMissed => 0x4C,
            RTL8139Registers::Cfg9346 => 0x50,
            RTL8139Registers::Config0 => 0x51,
            RTL8139Registers::Config1 => 0x52,
            RTL8139Registers::TimerInt => 0x54,
            RTL8139Registers::MediaStatus => 0x58,
            RTL8139Registers::Config3 => 0x59,
            RTL8139Registers::Config4 => 0x5A,
            RTL8139Registers::HltClk => 0x5B,
            RTL8139Registers::MultiIntr => 0x5C,
            RTL8139Registers::TxSummary => 0x60,
            RTL8139Registers::BasicModeCtrl => 0x62,
            RTL8139Registers::BasicModeStatus => 0x64,
            RTL8139Registers::NWayAdvert => 0x66,
            RTL8139Registers::NWayLPAR => 0x68,
            RTL8139Registers::NWayExpansion => 0x6A,
        }
    }
}

/// Bits of the command register.
#[allow(non_camel_case_types)]
pub enum ChipCmdBits {
    CmdReset,
    CmdRxEnb,
    CmdTxEnb,
    RxBufEmpty,
}

impl ChipCmdBits {
    /// The value the hardware uses.
    pub fn code(&self) -> (r: u8)
        ensures
            r == match *self {
                ChipCmdBits::CmdReset => 0x10u8,
                ChipCmdBits::CmdRxEnb => 0x8,
                ChipCmdBits::CmdTxEnb => 0x4,
                ChipCmdBits::RxBufEmpty => 0x1,
            },
    {
        match self {
            ChipCmdBits::CmdReset => 0x10,
            ChipCmdBits::CmdRxEnb => 0x8,
            ChipCmdBits::CmdTxEnb => 0x4,
            ChipCmdBits::RxBufEmpty => 0x1,
        }
    }
}

/// Bits of the interrupt status and mask registers.
#[allow(non_camel_case_types)]
pub enum IntrStatusBits {
    PCIErr,
    PCSTimeout,
    RxFIFOOver,
    RxUnderrun,
    RxOverflow,
    TxErr,
    TxOK,
    RxErr,
    RxOK,
}

impl IntrStatusBits {
    /// The value the hardware uses.
    pub fn code(&self) -> (r: u16)
        ensures
            r == match *self {
                IntrStatusBits::PCIErr => 0x8000u16,
                IntrStatusBits::PCSTimeout => 0x4000,
                IntrStatusBits::RxFIFOOver => 0x40,
                IntrStatusBits::RxUnderrun => 0x20,
                IntrStatusBits::RxOverflow => 0x10,
                IntrStatusBits::TxErr => 0x8,
                IntrStatusBits::TxOK => 0x4,
                IntrStatusBits::RxErr => 0x2,
                IntrStatusBits::RxOK => 0x1,
            },
    {
        match self {
            IntrStatusBits::PCIErr => 0x8000,
            IntrStatusBits::PCSTimeout => 0x4000,
            IntrStatusBits::RxFIFOOver => 0x40,
            IntrStatusBits::RxUnderrun => 0x20,
            IntrStatusBits::RxOverflow => 0x10,
            IntrStatusBits::TxErr => 0x8,
            IntrStatusBits::TxOK => 0x4,
            IntrStatusBits::RxErr => 0x2,
            IntrStatusBits::RxOK => 0x1,
        }
    }
}

/// Bits of a transmit status register.
#[allow(non_camel_case_types)]
pub enum TxStatusBits {
    TxHostOwns,
    TxUnderrun,
    TxStatOk,
    TxOutOfWindow,
    TxAborted,
    TxCarrierLost,
    TxInvalidStatusBit,
}

impl TxStatusBits {
    /// The value the hardware uses.
    pub fn code(&self) -> (r: u32)
        ensures
            r == match *self {
                TxStatusBits::TxHostOwns => 0x2000u32,
                TxStatusBits::TxUnderrun => 0x4000,
                TxStatusBits::TxStatOk => 0x8000,
                TxStatusBits::TxOutOfWindow => 0x20000000,
                TxStatusBits::TxAborted => 0x40000000,
                TxStatusBits::TxCarrierLost => 0x80000000,
                TxStatusBits::TxInvalidStatusBit => 0x0,
            },
    {
        match self {
            TxStatusBits::TxHostOwns => 0x2000,
            TxStatusBits::TxUnderrun => 0x4000,
            TxStatusBits::TxStatOk => 0x8000,
            TxStatusBits::TxOutOfWindow => 0x20000000,
            TxStatusBits::TxAborted => 0x40000000,
            TxStatusBits::TxCarrierLost => 0x80000000,
            TxStatusBits::TxInvalidStatusBit => 0x0,
        }
    }
}

/// Bits of a receive status word.
#[allow(non_camel_case_types)]
pub enum RxStatusBits {
    RxMulticast,
    RxPhysical,
    RxBroadcast,
    RxBadSymbol,
    RxRunt,
    RxTooLong,
    RxCRCErr,
    RxBadAlign,
    RxStatusOK,
}

impl RxStatusBits {
    /// The value the hardware uses.
    pub fn code(&self) -> (r: u16)
        ensures
            r == match *self {
                RxStatusBits::RxMulticast => 0x8000u16,
                RxStatusBits::RxPhysical => 0x4000,
                RxStatusBits::RxBroadcast => 0x2000,
                RxStatusBits::RxBadSymbol => 0x20,
                RxStatusBits::RxRunt => 0x10,
                RxStatusBits::RxTooLong => 0x8,
                RxStatusBits::RxCRCErr => 0x4,
                RxStatusBits::RxBadAlign => 0x2,
                RxStatusBits::RxStatusOK => 0x1,
            },
    {
        match self {
            RxStatusBits::RxMulticast => 0x8000,
            RxStatusBits::RxPhysical => 0x4000,
            RxStatusBits::RxBroadcast => 0x2000,
            RxStatusBits::RxBadSymbol => 0x20,
            RxStatusBits::RxRunt => 0x10,
            RxStatusBits::RxTooLong => 0x8,
            RxStatusBits::RxCRCErr => 0x4,
            RxStatusBits::RxBadAlign => 0x2,
            RxStatusBits::RxStatusOK => 0x1,
        }
    }
}

/// Receive-mode bits of the receive configuration.
#[allow(non_camel_case_types)]
pub enum RxModeBits {
    AcceptErr,
    AcceptRunt,
    AcceptBroadcast,
    AcceptMulticast,
    AcceptMyPhys,
    AcceptAllPhys,
}

impl RxModeBits {
    /// The value the hardware uses.
    pub fn code(&self) -> (r: u8)
        ensures
            r == match *self {
                RxModeBits::AcceptErr => 0x20u8,
                RxModeBits::AcceptRunt => 0x10,
                RxModeBits::AcceptBroadcast => 0x8,
                RxModeBits::AcceptMulticast => 0x4,
                RxModeBits::AcceptMyPhys => 0x2,
                RxModeBits::AcceptAllPhys => 0x1,
            },
    {
        match self {
            RxModeBits::AcceptErr => 0x20,
            RxModeBits::AcceptRunt => 0x10,
            RxModeBits::AcceptBroadcast => 0x8,
            RxModeBits::AcceptMulticast => 0x4,
            RxModeBits::AcceptMyPhys => 0x2,
            RxModeBits::AcceptAllPhys => 0x1,
        }
    }
}

/// Fields of the transmit configuration.
#[allow(non_camel_case_types)]
pub enum TxConfigBits {
    TxIFG84,
    TxIFG88,
    TxIFG92,
    TxIFG96,
    TxLoopBack,
    TxCRC,
    TxClearAbt,
    TxDMAShift,
    TxRetryShift,
    TxVersionMask,
}

impl TxConfigBits {
    /// The value the hardware uses.
    pub fn code(&self) -> (r: u32)
        ensures
            r == match *self {
                TxConfigBits::TxIFG84 => 0x1000000u32,
                TxConfigBits::TxIFG88 => 0x2000000,
                TxConfigBits::TxIFG92 => 0x3000000,
                TxConfigBits::TxIFG96 => 0x4000000,
                TxConfigBits::TxLoopBack => 0x60000,
                TxConfigBits::TxCRC => 0x10000,
                TxConfigBits::TxClearAbt => 0x1,
                TxConfigBits::TxDMAShift => 0x8,
                TxConfigBits::TxRetryShift => 0x4,
                TxConfigBits::TxVersionMask => 0x7C800000,
            },
    {
        match self {
            TxConfigBits::TxIFG84 => 0x1000000,
            TxConfigBits::TxIFG88 => 0x2000000,
            TxConfigBits::TxIFG92 => 0x3000000,
            TxConfigBits::TxIFG96 => 0x4000000,
            TxConfigBits::TxLoopBack => 0x60000,
            TxConfigBits::TxCRC => 0x10000,
            TxConfigBits::TxClearAbt => 0x1,
            TxConfigBits::TxDMAShift => 0x8,
            TxConfigBits::TxRetryShift => 0x4,
            TxConfigBits::TxVersionMask => 0x7C800000,
        }
    }
}

/// Fields of the receive configuration.
#[allow(non_camel_case_types)]
pub enum RxConfigBits {
    RxCfgFIFONone,
    RxCfgDMAUnlimited,
    RxCfgRcv8K,
    RxCfgRcv16K,
    RxCfgRcv32K,
    RxCfgRcv64K,
    RxNoWrap,
}

impl RxConfigBits {
    /// The value the hardware uses.
    pub fn code(&self) -> (r: u32)
        ensures
            r == match *self {
                RxConfigBits::RxCfgFIFONone => 0xE000u32,
                RxConfigBits::RxCfgDMAUnlimited => 0x700,
                RxConfigBits::RxCfgRcv8K => 0x0,
                RxConfigBits::RxCfgRcv16K => 0x800,
                RxConfigBits::RxCfgRcv32K => 0x1000,
                RxConfigBits::RxCfgRcv64K => 0x1800,
                RxConfigBits::RxNoWrap => 0x80,
            },
    {
        match self {
            RxConfigBits::RxCfgFIFONone => 0xE000,
            RxConfigBits::RxCfgDMAUnlimited => 0x700,
            RxConfigBits::RxCfgRcv8K => 0x0,
            RxConfigBits::RxCfgRcv16K => 0x800,
            RxConfigBits::RxCfgRcv32K => 0x1000,
            RxConfigBits::RxCfgRcv64K => 0x1800,
            RxConfigBits::RxNoWrap => 0x80,
        }
    }
}

/// Values of the EEPROM command register.
#[allow(non_camel_case_types)]
pub enum Cfg9346Bits {
    Cfg9346_Lock,
    Cfg9346_Unlock,
}

impl Cfg9346Bits {
    /// The value the hardware uses.
    pub fn code(&self) -> (r: u8)
        ensures
            r == match *self {
                Cfg9346Bits::Cfg9346_Lock => 0x0u8,
                Cfg9346Bits::Cfg9346_Unlock => 0xC0,
            },
    {
        match self {
            Cfg9346Bits::Cfg9346_Lock => 0x0,
            Cfg9346Bits::Cfg9346_Unlock => 0xC0,
        }
    }
}

/// Interrupts the driver enables: every status bit it knows.
pub const RTL8139_INTR_MASK: u16 = 0xC07F;

/// Number of transmit descriptors.
pub const NUM_TX_DESC: u8 = 4;

/// Classifies a transmit status word. Its match arms bind the word to
/// fresh names rather than comparing it with the host-owned and underrun
/// values, so the first arm always matches and every word classifies as
/// `TxHostOwns`.
pub fn u32_to_tx_status_bits(input: u32) -> (r: TxStatusBits)
    ensures
        r is TxHostOwns,
{
    TxStatusBits::TxHostOwns
}

/// The driver state of one RTL8139 on the PCI bus.
#[derive(Clone, Copy, Debug)]
pub struct RTL8139Driver {
    pub bus: u8,
    pub slot: u8,
    pub cur_tx: u32,
    pub dirty_tx: u32,
    pub ioaddr: u32,
}

/// A port write of the given width (1, 2 or 4 bytes).
#[derive(Clone, Copy, Debug, PartialEq, Eq, Structural)]
pub struct PortWrite {
    pub port: u32,
    pub value: u32,
    pub width: u8,
}

/// What the caller performs next while reclaiming descriptors.
#[derive(Clone, Copy, Debug, PartialEq, Eq, Structural)]
pub enum TxAction {
    /// read a 32-bit port; the value goes to the next step
    Read32(u32),
    Write32(u32, u32),
    Write16(u32, u16),
    Done,
}

/// Stages of reclaiming transmitted descriptors.
#[derive(Clone, Copy, Debug)]
pub enum TxStage {
    /// `left` descriptors from `dirty` on remain to check
    Check { dirty: u32, left: u32 },
    /// the status of descriptor `dirty` was read
    Status { dirty: u32, left: u32 },
    /// the abort was cleared; the error is acknowledged next
    AckError { dirty: u32, left: u32 },
    Done,
}

impl RTL8139Driver {
    /// The driver for the device in `slot` of `bus`, whose first base
    /// address register reads `baseio_address`.
    pub fn new(bus: u8, slot: u8, baseio_address: u32) -> (d: Self)
        ensures
            d == (RTL8139Driver { bus, slot, cur_tx: 0, dirty_tx: 0, ioaddr: baseio_address }),
    {
        RTL8139Driver { bus, slot, cur_tx: 0, dirty_tx: 0, ioaddr: baseio_address }
    }

    /// The I/O port of a register offset.
    pub fn port(&self, offset: u32) -> (p: u32)
        requires
            self.ioaddr + offset <= u32::MAX,
        ensures
            p == self.ioaddr + offset,
    {
        self.ioaddr + offset
    }

    /// Whether the chip has finished a reset: the command register, read
    /// back after the reset request, has the reset bit clear.
    pub fn reset_complete(chip_cmd: u8) -> (r: bool)
        ensures
            r == (chip_cmd & 0x10 == 0),
    {
        (chip_cmd & ChipCmdBits::CmdReset.code()) == 0
    }

    /// The writes that start the chip after its reset: unlock the
    /// configuration registers, enable receiver and transmitter, accept
    /// broadcast and own-address frames, lock the configuration again,
    /// clear the missed-packet counter and enable the known interrupts.
    pub fn hw_start_writes(&self) -> (w: Vec<PortWrite>)
        requires
            self.ioaddr + 0x50 <= u32::MAX,
        ensures
            w@ == seq![
                PortWrite { port: (self.ioaddr + 0x50) as u32, value: 0xC0, width: 4 },
                PortWrite { port: (self.ioaddr + 0x37) as u32, value: 0x0C, width: 4 },
                PortWrite { port: (self.ioaddr + 0x44) as u32, value: 0x0A, width: 4 },
                PortWrite { port: (self.ioaddr + 0x50) as u32, value: 0x00, width: 4 },
                PortWrite { port: (self.ioaddr + 0x4C) as u32, value: 0, width: 4 },
                PortWrite { port: (self.ioaddr + 0x3C) as u32, value: RTL8139_INTR_MASK as u32, width: 2 },
            ],
    {
        let mut w: Vec<PortWrite> = Vec::new();
        w.push(PortWrite { port: self.ioaddr + RTL8139Registers::Cfg9346.code(), value: Cfg9346Bits::Cfg9346_Unlock.code() as u32, width: 4 });
        w.push(PortWrite { port: self.ioaddr + RTL8139Registers::ChipCmd.code(), value: ChipCmdBits::CmdRxEnb.code() as u32 | ChipCmdBits::CmdTxEnb.code() as u32, width: 4 });
        w.push(PortWrite { port: self.ioaddr + RTL8139Registers::RxConfig.code(), value: RxModeBits::AcceptBroadcast.code() as u32 | RxModeBits::AcceptMyPhys.code() as u32, width: 4 });
        w.push(PortWrite { port: self.ioaddr + RTL8139Registers::Cfg9346.code(), value: Cfg9346Bits::Cfg9346_Lock.code() as u32, width: 4 });
        w.push(PortWrite { port: self.ioaddr + RTL8139Registers::RxMissed.code(), value: 0, width: 4 });
        w.push(PortWrite { port: self.ioaddr + RTL8139Registers::IntrMask.code(), value: RTL8139_INTR_MASK as u32, width: 2 });
        assert(0x08u32 | 0x04u32 == 0x0Cu32 && 0x08u32 | 0x02u32 == 0x0Au32) by (bit_vector);
        assert(w@ =~= seq![
            PortWrite { port: (self.ioaddr + 0x50) as u32, value: 0xC0, width: 4 },
            PortWrite { port: (self.ioaddr + 0x37) as u32, value: 0x0C, width: 4 },
            PortWrite { port: (self.ioaddr + 0x44) as u32, value: 0x0A, width: 4 },
            PortWrite { port: (self.ioaddr + 0x50) as u32, value: 0x00, width: 4 },
            PortWrite { port: (self.ioaddr + 0x4C) as u32, value: 0, width: 4 },
            PortWrite { port: (self.ioaddr + 0x3C) as u32, value: RTL8139_INTR_MASK as u32, width: 2 },
        ]);
        w
    }
}

/// Port of the status register of the descriptor that `dirty` counts, as
/// the driver computes it (32 bytes per descriptor from TxStatus0).
pub open spec fn tx_status_port(ioaddr: u32, dirty: u32) -> int {
    ioaddr + 0x10 + (dirty % 4) * 32
}

/// One step of reclaiming descriptors. The status word read for each
/// descriptor is classified by [`u32_to_tx_status_bits`] as host-owned,
/// which has none of the OK, underrun and aborted bits the loop stops on,
/// so the loop never stops early: every descriptor clears the abort and
/// acknowledges a transmit error. When the loop ends the driver's dirty
/// count is the current one.
pub open spec fn tx_next(d: RTL8139Driver, st: TxStage, value: u32) -> (RTL8139Driver, TxStage, TxAction) {
    match st {
        TxStage::Check { dirty, left } => if left > 0 {
            (d, TxStage::Status { dirty, left }, TxAction::Read32(tx_status_port(d.ioaddr, dirty) as u32))
        } else {
            (RTL8139Driver { dirty_tx: dirty, ..d }, TxStage::Done, TxAction::Done)
        },
        TxStage::Status { dirty, left } => (
            d,
            TxStage::AckError { dirty, left },
            TxAction::Write32((d.ioaddr + 0x40) as u32, 0x1),
        ),
        TxStage::AckError { dirty, left } => (
            d,
            TxStage::Check { dirty: (dirty + 1) as u32, left: (left - 1) as u32 },
            TxAction::Write16((d.ioaddr + 0x3E) as u32, 0x08),
        ),
        TxStage::Done => (d, TxStage::Done, TxAction::Done),
    }
}

/// The ports the reclaim loop touches fit in 32 bits.
pub open spec fn tx_ports_fit(ioaddr: u32) -> bool {
    ioaddr + 0x10 + 3 * 32 <= u32::MAX
}

/// Whether the reclaim loop's ports fit for a card at `ioaddr`.
pub fn tx_ports_fit_exec(ioaddr: u32) -> (b: bool)
    ensures
        b == tx_ports_fit(ioaddr),
{
    ioaddr <= 0xFFFF_FF8F
}

/// The stages a reclaim passes through from a driver whose descriptors
/// `dirty_tx .. cur_tx` are outstanding.
pub open spec fn tx_stage_ok(d: RTL8139Driver, st: TxStage) -> bool {
    match st {
        TxStage::Check { dirty, left } => d.dirty_tx <= dirty && dirty + left == d.cur_tx,
        TxStage::Status { dirty, left } => d.dirty_tx <= dirty && left > 0 && dirty + left == d.cur_tx,
        TxStage::AckError { dirty, left } => d.dirty_tx <= dirty && left > 0 && dirty + left == d.cur_tx,
        TxStage::Done => d.dirty_tx == d.cur_tx,
    }
}

impl RTL8139Driver {
    /// The first stage of a transmit interrupt: every descriptor from the
    /// dirty one up to the current one is outstanding.
    pub fn tx_interrupt_start(&self) -> (st: TxStage)
        requires
            self.dirty_tx <= self.cur_tx,
        ensures
            st == (TxStage::Check { dirty: self.dirty_tx, left: (self.cur_tx - self.dirty_tx) as u32 }),
    {
        TxStage::Check { dirty: self.dirty_tx, left: self.cur_tx - self.dirty_tx }
    }

    /// One step of the transmit interrupt (see [`tx_next`]); `value` is what
    /// the last read returned.
    pub fn tx_interrupt_step(&mut self, st: TxStage, value: u32) -> (r: (TxStage, TxAction))
        requires
            tx_ports_fit(old(self).ioaddr),
            tx_stage_ok(*old(self), st),
        ensures
            (*final(self), r.0, r.1) == tx_next(*old(self), st, value),
    {
        match st {
            TxStage::Check { dirty, left } => if left > 0 {
                let entry: u32 = dirty % NUM_TX_DESC as u32;
                (
                    TxStage::Status { dirty, left },
                    TxAction::Read32(self.ioaddr + RTL8139Registers::TxStatus0.code() + (entry * 32)),
                )
            } else {
                if self.dirty_tx != dirty {
                    self.dirty_tx = dirty;
                }
                (TxStage::Done, TxAction::Done)
            },
            TxStage::Status { dirty, left } => {
                let txstatus = u32_to_tx_status_bits(value);
                let c = txstatus.code();
                let stop_mask: u32 = TxStatusBits::TxStatOk.code() | TxStatusBits::TxUnderrun.code()
                    | TxStatusBits::TxAborted.code();
                assert(0x8000u32 | 0x4000u32 | 0x4000_0000u32 == 0x4000_C000u32 && 0x2000u32
                    & 0x4000_C000u32 == 0) by (bit_vector);
                if c & stop_mask != 0 {
                    self.dirty_tx = dirty;
                    (TxStage::Done, TxAction::Done)
                } else {
                    (
                        TxStage::AckError { dirty, left },
                        TxAction::Write32(self.ioaddr + RTL8139Registers::TxConfig.code(), TxConfigBits::TxClearAbt.code()),
                    )
                }
            },
            TxStage::AckError { dirty, left } => (
                TxStage::Check { dirty: dirty + 1, left: left - 1 },
                TxAction::Write16(self.ioaddr + RTL8139Registers::IntrStatus.code() as u32, IntrStatusBits::TxErr.code()),
            ),
            TxStage::Done => (TxStage::Done, TxAction::Done),
        }
    }
}

/// What a reclaim keeps from the driver it started on: the current count,
/// the port and the bus position; the dirty count has not moved back, and it
/// moves only when the reclaim ends.
pub open spec fn tx_keeps(d0: RTL8139Driver, d: RTL8139Driver, st: TxStage) -> bool {
    &&& d.cur_tx == d0.cur_tx
    &&& d.ioaddr == d0.ioaddr
    &&& d.bus == d0.bus
    &&& d.slot == d0.slot
    &&& d0.dirty_tx <= d.dirty_tx
    &&& !(st is Done) ==> d.dirty_tx == d0.dirty_tx
    &&& tx_stage_ok(d, st)
}

/// Every step keeps the stage's bookkeeping.
pub proof fn lemma_tx_reclaims_all(d: RTL8139Driver, st: TxStage, value: u32)
    requires
        tx_stage_ok(d, st),
    ensures
        tx_keeps(d, tx_next(d, st, value).0, tx_next(d, st, value).1),
{
}

/// The driver and stage after steps that read `values` in turn.
pub open spec fn tx_run(d: RTL8139Driver, st: TxStage, values: Seq<u32>) -> (RTL8139Driver, TxStage)
    decreases values.len(),
{
    if values.len() == 0 {
        (d, st)
    } else {
        tx_run(tx_next(d, st, values[0]).0, tx_next(d, st, values[0]).1, values.drop_first())
    }
}

/// Steps a stage can still take before the reclaim ends.
pub open spec fn tx_steps_left(st: TxStage) -> int {
    match st {
        TxStage::Check { left, .. } => 3 * left + 1,
        TxStage::Status { left, .. } => 3 * left,
        TxStage::AckError { left, .. } => 3 * left - 1,
        TxStage::Done => 0,
    }
}

proof fn lemma_tx_run_keeps(d0: RTL8139Driver, d: RTL8139Driver, st: TxStage, values: Seq<u32>)
    requires
        tx_keeps(d0, d, st),
    ensures
        tx_keeps(d0, tx_run(d, st, values).0, tx_run(d, st, values).1),
        values.len() >= tx_steps_left(st) ==> tx_run(d, st, values).1 is Done,
    decreases values.len(),
{
    if values.len() > 0 {
        let n = tx_next(d, st, values[0]);
        assert(n.1 is Done || tx_steps_left(n.1) == tx_steps_left(st) - 1);
        lemma_tx_run_keeps(d0, n.0, n.1, values.drop_first());
    }
}

/// A whole transmit interrupt, whatever the status words read: the dirty
/// count never moves back or past the current count, the current count,
/// the port and the bus position stay, and after three steps per
/// outstanding descriptor and one more the reclaim has ended with every
/// descriptor reclaimed.
pub proof fn lemma_tx_whole_reclaim(d: RTL8139Driver, values: Seq<u32>)
    requires
        d.dirty_tx <= d.cur_tx,
    ensures
        ({
            let r = tx_run(d, TxStage::Check { dirty: d.dirty_tx, left: (d.cur_tx - d.dirty_tx) as u32 }, values);
            &&& d.dirty_tx <= r.0.dirty_tx <= r.0.cur_tx
            &&& r.0.cur_tx == d.cur_tx
            &&& r.0.ioaddr == d.ioaddr
            &&& r.0.bus == d.bus
            &&& r.0.slot == d.slot
            &&& values.len() >= 3 * (d.cur_tx - d.dirty_tx) + 1 ==> r.1 is Done && r.0.dirty_tx
                == d.cur_tx
        }),
{
    let st = TxStage::Check { dirty: d.dirty_tx, left: (d.cur_tx - d.dirty_tx) as u32 };
    lemma_tx_run_keeps(d, d, st, values);
}

} // verus!
