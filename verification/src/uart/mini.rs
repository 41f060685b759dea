//! The mini UART driver object and its dump-character filter.

use vstd::prelude::*;
use crate::gpio::RegOp;
use crate::uart::{
    ascii_or_dot, line_settings, pin_settings, push_line_settings, push_pin_settings, AUX_ENABLES,
    AUX_MU_CNTL_REG,
};

verus! {

/// The mini UART (AUX UART1) of the BCM2837.
pub struct MiniUart;

/// The register program of the mini UART's `init`: enable it, turn its
/// transmitter and receiver off, write the line settings, then the pins.
pub open spec fn mini_init_program_spec() -> Seq<RegOp> {
    seq![
        RegOp::Modify { addr: AUX_ENABLES, clear: 0, set: 1 },
        RegOp::Write { addr: AUX_MU_CNTL_REG, value: 0 },
    ] + line_settings() + pin_settings()
}

impl MiniUart {
    pub fn init_program() -> (prog: Vec<RegOp>)
        ensures
            prog@ == mini_init_program_spec(),
    {
        let mut prog: Vec<RegOp> = Vec::new();
        prog.push(RegOp::Modify { addr: AUX_ENABLES, clear: 0, set: 1 });
        prog.push(RegOp::Write { addr: AUX_MU_CNTL_REG, value: 0 });
        push_line_settings(&mut prog);
        push_pin_settings(&mut prog);
        assert(prog@ =~= mini_init_program_spec());
        prog
    }
}

/// The character that the mini UART's `uart_putc_ascii` sends for `c`.
pub fn uart_putc_ascii(c: char) -> (r: char)
    ensures
        r == ascii_or_dot(c),
{
    crate::uart::uart_putc_ascii(c)
}

} // verus!
