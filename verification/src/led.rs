//! The activity LED on GPIO 16 and the input on GPIO 14.

use vstd::prelude::*;
use crate::gpio::{modified, RegOp, GPCLR0, GPFSEL1, GPPUD, GPPUDCLK0, GPPUDCLK1, GPSET0};

verus! {

/// Function-select register 1 with GPIO 16 an output (0b001) and GPIO 14
/// an input (0b000).
pub open spec fn led_pins_spec(gpfsel1: u32) -> u32 {
    ((gpfsel1 & !(7u32 << 18u32)) | (1u32 << 18u32)) & !(7u32 << 12u32)
}

pub fn led_pins(gpfsel1: u32) -> (r: u32)
    ensures
        r == led_pins_spec(gpfsel1),
{
    let mut g = gpfsel1;
    g = g & !(7u32 << 18u32);
    g = g | (1u32 << 18u32);
    g = g & !(7u32 << 12u32);
    g
}

/// The setting makes GPIO 16 an output and GPIO 14 an input and leaves
/// every other pin's field as it was.
pub proof fn lemma_led_pins(gpfsel1: u32)
    ensures
        (led_pins_spec(gpfsel1) >> 18u32) & 7 == 1,
        (led_pins_spec(gpfsel1) >> 12u32) & 7 == 0,
        led_pins_spec(gpfsel1) & !(0x1C_0000u32 | 0x7000u32) == gpfsel1 & !(0x1C_0000u32 | 0x7000u32),
{
    assert({
        let r = ((gpfsel1 & !(7u32 << 18u32)) | (1u32 << 18u32)) & !(7u32 << 12u32);
        &&& (r >> 18u32) & 7 == 1
        &&& (r >> 12u32) & 7 == 0
        &&& r & !(0x1C_0000u32 | 0x7000u32) == gpfsel1 & !(0x1C_0000u32 | 0x7000u32)
    }) by (bit_vector);
}

/// Bit of GPIO 16 in the set and clear registers.
pub const LED_BIT: u32 = 0x1_0000;

/// The register program of `init`: the pin functions of `led_pins`, then a
/// pull-up on GPIO 14 (pull-up control, a second's wait, its clock, another
/// second, and both released).
pub open spec fn led_init_program_spec() -> Seq<RegOp> {
    seq![
        RegOp::Modify { addr: GPFSEL1, clear: 0x1C_7000, set: 0x4_0000 },
        RegOp::Write { addr: GPPUD, value: 2 },
        RegOp::WaitMsec(1000),
        RegOp::Write { addr: GPPUDCLK0, value: 0x4000 },
        RegOp::Write { addr: GPPUDCLK1, value: 0 },
        RegOp::WaitMsec(1000),
        RegOp::Write { addr: GPPUD, value: 0 },
        RegOp::Write { addr: GPPUDCLK0, value: 0 },
        RegOp::Write { addr: GPPUDCLK1, value: 0 },
    ]
}

pub fn led_init_program() -> (prog: Vec<RegOp>)
    ensures
        prog@ == led_init_program_spec(),
{
    let mut prog: Vec<RegOp> = Vec::new();
    prog.push(RegOp::Modify { addr: GPFSEL1, clear: 0x1C_7000, set: 0x4_0000 });
    prog.push(RegOp::Write { addr: GPPUD, value: 2 });
    prog.push(RegOp::WaitMsec(1000));
    prog.push(RegOp::Write { addr: GPPUDCLK0, value: 0x4000 });
    prog.push(RegOp::Write { addr: GPPUDCLK1, value: 0 });
    prog.push(RegOp::WaitMsec(1000));
    prog.push(RegOp::Write { addr: GPPUD, value: 0 });
    prog.push(RegOp::Write { addr: GPPUDCLK0, value: 0 });
    prog.push(RegOp::Write { addr: GPPUDCLK1, value: 0 });
    assert(prog@ =~= led_init_program_spec());
    prog
}

/// The pin step of the program computes exactly `led_pins`.
pub proof fn lemma_led_program_pins(gpfsel1: u32)
    ensures
        modified(gpfsel1, 0x1C_7000, 0x4_0000) == led_pins_spec(gpfsel1),
{
    assert((gpfsel1 & !0x1C_7000u32) | 0x4_0000u32 == ((gpfsel1 & !(7u32 << 18u32)) | (1u32 << 18u32))
        & !(7u32 << 12u32)) by (bit_vector);
}

/// One blink: the LED on, a wait of `delay` milliseconds, the LED off.
pub open spec fn blink_once(delay: u64) -> Seq<RegOp> {
    seq![
        RegOp::Write { addr: GPSET0, value: LED_BIT },
        RegOp::WaitMsec(delay),
        RegOp::Write { addr: GPCLR0, value: LED_BIT },
    ]
}

/// `times` blinks, one after the other.
pub open spec fn blink_spec(times: nat, delay: u64) -> Seq<RegOp>
    decreases times,
{
    if times == 0 {
        Seq::empty()
    } else {
        blink_spec((times - 1) as nat, delay) + blink_once(delay)
    }
}

/// The register program of `blink`: `times` blinks of `delay` milliseconds.
pub fn blink(times: u32, delay: u64) -> (prog: Vec<RegOp>)
    ensures
        prog@ == blink_spec(times as nat, delay),
        prog@.len() == 3 * times,
{
    let mut prog: Vec<RegOp> = Vec::new();
    let mut done: u32 = 0;
    while done != times
        invariant
            done <= times,
            prog@ == blink_spec(done as nat, delay),
            prog@.len() == 3 * done,
        decreases times - done,
    {
        prog.push(RegOp::Write { addr: GPSET0, value: LED_BIT });
        prog.push(RegOp::WaitMsec(delay));
        prog.push(RegOp::Write { addr: GPCLR0, value: LED_BIT });
        assert(prog@ =~= blink_spec(done as nat, delay) + blink_once(delay));
        done = done + 1;
    }
    prog
}

} // verus!
