//! GPIO registers of the BCM2837 and register programs: fixed sequences of
//! register writes, read-modify-writes and busy waits that set up a device.

use vstd::prelude::*;

verus! {

pub const GPIO_BASE: u32 = 0x3F20_0000;
/// Function select registers (the first two share an address).
pub const GPFSEL0: u32 = 0x3F20_0004;
pub const GPFSEL1: u32 = 0x3F20_0004;
pub const GPFSEL2: u32 = 0x3F20_0008;
pub const GPFSEL3: u32 = 0x3F20_000C;
pub const GPFSEL4: u32 = 0x3F20_0010;
pub const GPFSEL5: u32 = 0x3F20_0014;
pub const GPSET0: u32 = 0x3F20_001C;
pub const GPSET1: u32 = 0x3F20_0020;
pub const GPCLR0: u32 = 0x3F20_0028;
pub const GPLEV0: u32 = 0x3F20_0034;
pub const GPLEV1: u32 = 0x3F20_0038;
pub const GPEDS0: u32 = 0x3F20_0040;
pub const GPEDS1: u32 = 0x3F20_0044;
pub const GPHEN0: u32 = 0x3F20_0064;
pub const GPHEN1: u32 = 0x3F20_0068;
/// Pull-up/down control and its clock registers.
pub const GPPUD: u32 = 0x3F20_0094;
pub const GPPUDCLK0: u32 = 0x3F20_0098;
pub const GPPUDCLK1: u32 = 0x3F20_009C;

/// One step of a register program.
#[derive(Clone, Copy, Debug, PartialEq, Eq, Structural)]
pub enum RegOp {
    /// Store `value` at `addr`.
    Write { addr: u32, value: u32 },
    /// Read `addr`, clear the bits of `clear`, set those of `set`, and store
    /// the result back.
    Modify { addr: u32, clear: u32, set: u32 },
    /// Spin for this many CPU cycles.
    Wait(u32),
    /// Wait this many milliseconds on the generic timer.
    WaitMsec(u64),
}

/// The value a `Modify` stores when the register held `v`.
pub open spec fn modified(v: u32, clear: u32, set: u32) -> u32 {
    (v & !clear) | set
}

/// The value a `Modify` stores when the register held `v`.
pub fn modify_value(v: u32, clear: u32, set: u32) -> (r: u32)
    ensures
        r == modified(v, clear, set),
{
    (v & !clear) | set
}

/// Pulls the pins of `mask` (in bank `clk`) up: select pull-up, wait, clock
/// the control into the pins, wait, and release both.
pub open spec fn pull_up(clk: u32, mask: u32) -> Seq<RegOp> {
    seq![
        RegOp::Write { addr: GPPUD, value: 2 },
        RegOp::Wait(150),
        RegOp::Write { addr: clk, value: mask },
        RegOp::Wait(150),
        RegOp::Write { addr: GPPUD, value: 0 },
        RegOp::Write { addr: clk, value: 0 },
    ]
}

fn push_pull_up(prog: &mut Vec<RegOp>, clk: u32, mask: u32)
    ensures
        final(prog)@ == old(prog)@ + pull_up(clk, mask),
{
    prog.push(RegOp::Write { addr: GPPUD, value: 2 });
    prog.push(RegOp::Wait(150));
    prog.push(RegOp::Write { addr: clk, value: mask });
    prog.push(RegOp::Wait(150));
    prog.push(RegOp::Write { addr: GPPUD, value: 0 });
    prog.push(RegOp::Write { addr: clk, value: 0 });
    assert(final(prog)@ =~= old(prog)@ + pull_up(clk, mask));
}

/// The program that hands the SD card pins to the EMMC controller: GPIO 47
/// (card detect) an input with a pull-up and high-level detection, GPIO 48
/// and 49 (clock and command) and GPIO 50 to 53 (data) alternate function 3
/// with pull-ups.
pub open spec fn sd_gpio_program_spec() -> Seq<RegOp> {
    seq![RegOp::Modify { addr: GPFSEL4, clear: 0x00E0_0000, set: 0 }] + pull_up(GPPUDCLK1, 0x8000)
        + seq![
        RegOp::Modify { addr: GPHEN1, clear: 0, set: 0x8000 },
        RegOp::Modify { addr: GPFSEL4, clear: 0, set: 0x3F00_0000 },
    ] + pull_up(GPPUDCLK1, 0x3_0000) + seq![RegOp::Modify { addr: GPFSEL5, clear: 0, set: 0xFFF }]
        + pull_up(GPPUDCLK1, 0x3C_0000)
}

pub fn sd_gpio_program() -> (prog: Vec<RegOp>)
    ensures
        prog@ == sd_gpio_program_spec(),
{
    let mut prog: Vec<RegOp> = Vec::new();
    prog.push(RegOp::Modify { addr: GPFSEL4, clear: 0x00E0_0000, set: 0 });
    let ghost p0 = prog@;
    assert(p0 =~= seq![RegOp::Modify { addr: GPFSEL4, clear: 0x00E0_0000, set: 0 }]);
    push_pull_up(&mut prog, GPPUDCLK1, 0x8000);
    prog.push(RegOp::Modify { addr: GPHEN1, clear: 0, set: 0x8000 });
    prog.push(RegOp::Modify { addr: GPFSEL4, clear: 0, set: 0x3F00_0000 });
    let ghost p1 = prog@;
    assert(p1 =~= p0 + pull_up(GPPUDCLK1, 0x8000) + seq![
        RegOp::Modify { addr: GPHEN1, clear: 0, set: 0x8000 },
        RegOp::Modify { addr: GPFSEL4, clear: 0, set: 0x3F00_0000 },
    ]);
    push_pull_up(&mut prog, GPPUDCLK1, 0x3_0000);
    prog.push(RegOp::Modify { addr: GPFSEL5, clear: 0, set: 0xFFF });
    let ghost p2 = prog@;
    assert(p2 =~= p1 + pull_up(GPPUDCLK1, 0x3_0000) + seq![
        RegOp::Modify { addr: GPFSEL5, clear: 0, set: 0xFFF },
    ]);
    push_pull_up(&mut prog, GPPUDCLK1, 0x3C_0000);
    assert(prog@ =~= p2 + pull_up(GPPUDCLK1, 0x3C_0000));
    assert(prog@ =~= sd_gpio_program_spec());
    prog
}

} // verus!
