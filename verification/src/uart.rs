//! The mini UART (UART1) of the BCM2837: pin configuration, the character
//! filter for raw dumps, and the fixed-width hexadecimal text the kernel
//! prints for addresses and bytes.

use vstd::prelude::*;
use vstd::string::StringSliceAdditionalSpecFns;
use crate::text::{hex_char, hex_digit, hex_value, parse_hex};
use crate::gpio::{RegOp, modified};

pub mod mini;

verus! {

/* GPIO */
pub const GPFSEL1: u32 = 0x3F20_0004;
pub const GPPUD: u32 = 0x3F20_0094;
pub const GPPUDCLK0: u32 = 0x3F20_0098;

/* Mini UART */
pub const AUX_ENABLES: u32 = 0x3F21_5004;
pub const AUX_MU_IO_REG: u32 = 0x3F21_5040;
pub const AUX_MU_IER_REG: u32 = 0x3F21_5044;
pub const AUX_MU_IIR_REG: u32 = 0x3F21_5048;
pub const AUX_MU_LCR_REG: u32 = 0x3F21_504C;
pub const AUX_MU_MCR_REG: u32 = 0x3F21_5050;
pub const AUX_MU_LSR_REG: u32 = 0x3F21_5054;
pub const AUX_MU_CNTL_REG: u32 = 0x3F21_5060;
pub const AUX_MU_BAUD_REG: u32 = 0x3F21_5068;

/// Function-select register 1 with GPIO 14 and 15 switched to alternate
/// function 5 (the mini UART's TXD1 and RXD1).
pub open spec fn uart_pins_spec(gpfsel1: u32) -> u32 {
    (gpfsel1 & !((7u32 << 12u32) | (7u32 << 15u32))) | ((2u32 << 12u32) | (2u32 << 15u32))
}

pub fn uart_pins(gpfsel1: u32) -> (r: u32)
    ensures
        r == uart_pins_spec(gpfsel1),
{
    let mut ra = gpfsel1;
    ra = ra & !((7u32 << 12u32) | (7u32 << 15u32));
    ra = ra | ((2u32 << 12u32) | (2u32 << 15u32));
    ra
}

/// The pin setting selects alternate function 5 (0b010) for GPIO 14 and
/// 15 and leaves the fields of every other pin as they were.
pub proof fn lemma_uart_pins(gpfsel1: u32)
    ensures
        (uart_pins_spec(gpfsel1) >> 12u32) & 7u32 == 2u32,
        (uart_pins_spec(gpfsel1) >> 15u32) & 7u32 == 2u32,
        uart_pins_spec(gpfsel1) & !0x3_F000u32 == gpfsel1 & !0x3_F000u32,
{
    assert({
        let r = (gpfsel1 & !((7u32 << 12u32) | (7u32 << 15u32))) | ((2u32 << 12u32) | (2u32 << 15u32));
        &&& (r >> 12u32) & 7u32 == 2u32
        &&& (r >> 15u32) & 7u32 == 2u32
        &&& r & !0x3_F000u32 == gpfsel1 & !0x3_F000u32
    }) by (bit_vector);
}

/// The character printed for `c` in a raw dump: its low byte decides, and
/// anything outside 0x20..=0x7F is shown as a dot.
pub open spec fn ascii_or_dot(c: char) -> char {
    let b = (c as u32) % 0x100;
    if b < 0x20 || b > 0x7F {
        '.'
    } else {
        c
    }
}

/// The character that `uart_putc_ascii` sends for `c`.
pub fn uart_putc_ascii(c: char) -> (r: char)
    ensures
        r == ascii_or_dot(c),
{
    let w = c as u32;
    let b = w as u8;
    assert(b == w % 0x100) by (bit_vector)
        requires
            b == w as u8,
    ;
    if b < 0x20 || b > 0x7F {
        '.'
    } else {
        c
    }
}

/// Filtering is idempotent, and what it lets through has a printable low byte.
pub proof fn lemma_ascii_or_dot(c: char)
    ensures
        ascii_or_dot(ascii_or_dot(c)) == ascii_or_dot(c),
        0x20 <= (ascii_or_dot(c) as u32) % 0x100 <= 0x7F,
{
}

/// Hexadecimal digit `k` (counting from the least significant) of `v`.
pub open spec fn nibble(v: u64, k: u64) -> u64 {
    (v >> (4 * k)) & 0xF
}

/// The eight digits that `uart_hex` prints for the low 32 bits of `v`,
/// most significant first.
pub open spec fn hex8_digits(v: u64) -> Seq<u8> {
    Seq::new(8, |j: int| hex_digit(nibble(v, (7 - j) as u64) as nat))
}

/// The text of `uart_hex`: "0x" and eight digits.
pub open spec fn uart_hex_text(addr: usize) -> Seq<u8> {
    "0x".spec_bytes() + hex8_digits(addr as u64)
}

/// The text of `uart_hex8`: the two digits of a byte.
pub open spec fn uart_hex8_text(byte: u8) -> Seq<u8> {
    seq![hex_digit(nibble(byte as u64, 1) as nat), hex_digit(nibble(byte as u64, 0) as nat)]
}

fn nibble_exec(v: u64, k: u64) -> (r: u64)
    requires
        k < 16,
    ensures
        r == nibble(v, k),
        r < 16,
{
    let r = (v >> (4 * k)) & 0xF;
    assert(r < 16) by (bit_vector)
        requires
            r == (v >> (4 * k)) & 0xF,
    ;
    r
}

/// The characters `uart_hex` sends for `addr`: "0x" and the eight
/// upper-case digits of its low 32 bits.
pub fn uart_hex(addr: usize) -> (out: Vec<u8>)
    ensures
        out@ == uart_hex_text(addr),
{
    let a = addr as u64;
    let mut out: Vec<u8> = Vec::new();
    out.push(0x30);
    out.push(0x78);
    proof {
        reveal_strlit("0x");
        vstd::string::is_ascii_spec_bytes("0x");
    }
    let mut j: u64 = 0;
    while j < 8
        invariant
            j <= 8,
            a == addr as u64,
            out@.len() == 2 + j,
            out@.subrange(0, 2) == "0x".spec_bytes(),
            forall|i: int| 0 <= i < j ==> out@[2 + i] == hex8_digits(a)[i],
        decreases 8 - j,
    {
        let n = nibble_exec(a, 7 - j);
        out.push(hex_char(n));
        j = j + 1;
    }
    assert(out@ =~= "0x".spec_bytes() + hex8_digits(a));
    out
}

/// The characters `uart_hex8` sends for a byte: its two upper-case digits.
pub fn uart_hex8(byte: u8) -> (out: Vec<u8>)
    ensures
        out@ == uart_hex8_text(byte),
{
    let mut out: Vec<u8> = Vec::new();
    out.push(hex_char(nibble_exec(byte as u64, 1)));
    out.push(hex_char(nibble_exec(byte as u64, 0)));
    assert(out@ =~= uart_hex8_text(byte));
    out
}

/// The characters `uart_writeaddr` sends: the hexadecimal address and a
/// newline.
pub fn uart_writeaddr(addr: usize) -> (out: Vec<u8>)
    ensures
        out@ == uart_hex_text(addr).push(0x0Au8),
{
    let mut out = uart_hex(addr);
    out.push(0x0A);
    out
}

/// The eight digits of `uart_hex` read back as the low 32 bits of the address.
pub proof fn lemma_uart_hex_roundtrip(addr: usize)
    ensures
        parse_hex(uart_hex_text(addr).subrange(2, 10)) == (addr as u64) & 0xFFFF_FFFFu64,
{
    let v = addr as u64;
    reveal_strlit("0x");
    vstd::string::is_ascii_spec_bytes("0x");
    let digits = hex8_digits(v);
    assert(uart_hex_text(addr).subrange(2, 10) =~= digits);
    assert forall|i: u64| i < 8 implies #[trigger] hex_value(hex_digit(nibble(v, i) as nat)) == nibble(v, i) by {
        let n = nibble(v, i);
        assert(n < 16) by (bit_vector)
            requires
                n == (v >> (4 * i)) & 0xF,
        ;
    }
    reveal_with_fuel(parse_hex, 9);
    assert(digits.drop_last() =~= digits.subrange(0, 7));
    assert(parse_hex(digits) == ((((((nibble(v, 7) * 16 + nibble(v, 6)) * 16 + nibble(v, 5)) * 16
        + nibble(v, 4)) * 16 + nibble(v, 3)) * 16 + nibble(v, 2)) * 16 + nibble(v, 1)) * 16 + nibble(v, 0)) by {
        let s = digits;
        assert(s.subrange(0, 7).drop_last() =~= s.subrange(0, 6));
        assert(s.subrange(0, 6).drop_last() =~= s.subrange(0, 5));
        assert(s.subrange(0, 5).drop_last() =~= s.subrange(0, 4));
        assert(s.subrange(0, 4).drop_last() =~= s.subrange(0, 3));
        assert(s.subrange(0, 3).drop_last() =~= s.subrange(0, 2));
        assert(s.subrange(0, 2).drop_last() =~= s.subrange(0, 1));
        assert(s.subrange(0, 1).drop_last() =~= s.subrange(0, 0));
    }
    assert(((((((((v >> 28u64) & 0xF) * 16 + ((v >> 24u64) & 0xF)) * 16 + ((v >> 20u64) & 0xF)) * 16
        + ((v >> 16u64) & 0xF)) * 16 + ((v >> 12u64) & 0xF)) * 16 + ((v >> 8u64) & 0xF)) * 16 + ((v
        >> 4u64) & 0xF)) * 16 + ((v >> 0u64) & 0xF) == v & 0xFFFF_FFFFu64) by (bit_vector);
}

/// The serial-line settings both set-up programs write, after enabling the
/// mini UART: 8-bit characters, no modem control, interrupts off, FIFOs
/// cleared, and a baud divisor of 270 (115200 baud at 250 MHz).
pub open spec fn line_settings() -> Seq<RegOp> {
    seq![
        RegOp::Write { addr: AUX_MU_LCR_REG, value: 3 },
        RegOp::Write { addr: AUX_MU_MCR_REG, value: 0 },
        RegOp::Write { addr: AUX_MU_IER_REG, value: 0 },
        RegOp::Write { addr: AUX_MU_IIR_REG, value: 0xC6 },
        RegOp::Write { addr: AUX_MU_BAUD_REG, value: 270 },
    ]
}

/// The pin part of the set-up: GPIO 14 and 15 to alternate function 5,
/// pull-up/down off for both, and the transmitter and receiver enabled.
pub open spec fn pin_settings() -> Seq<RegOp> {
    seq![
        RegOp::Modify { addr: GPFSEL1, clear: 0x3_F000, set: 0x1_2000 },
        RegOp::Write { addr: GPPUD, value: 0 },
        RegOp::Wait(150),
        RegOp::Write { addr: GPPUDCLK0, value: 0xC000 },
        RegOp::Wait(150),
        RegOp::Write { addr: GPPUDCLK0, value: 0 },
        RegOp::Write { addr: AUX_MU_CNTL_REG, value: 3 },
    ]
}

pub(crate) fn push_line_settings(prog: &mut Vec<RegOp>)
    ensures
        final(prog)@ == old(prog)@ + line_settings(),
{
    prog.push(RegOp::Write { addr: AUX_MU_LCR_REG, value: 3 });
    prog.push(RegOp::Write { addr: AUX_MU_MCR_REG, value: 0 });
    prog.push(RegOp::Write { addr: AUX_MU_IER_REG, value: 0 });
    prog.push(RegOp::Write { addr: AUX_MU_IIR_REG, value: 0xC6 });
    prog.push(RegOp::Write { addr: AUX_MU_BAUD_REG, value: 270 });
    assert(final(prog)@ =~= old(prog)@ + line_settings());
}

pub(crate) fn push_pin_settings(prog: &mut Vec<RegOp>)
    ensures
        final(prog)@ == old(prog)@ + pin_settings(),
{
    prog.push(RegOp::Modify { addr: GPFSEL1, clear: 0x3_F000, set: 0x1_2000 });
    prog.push(RegOp::Write { addr: GPPUD, value: 0 });
    prog.push(RegOp::Wait(150));
    prog.push(RegOp::Write { addr: GPPUDCLK0, value: 0xC000 });
    prog.push(RegOp::Wait(150));
    prog.push(RegOp::Write { addr: GPPUDCLK0, value: 0 });
    prog.push(RegOp::Write { addr: AUX_MU_CNTL_REG, value: 3 });
    assert(final(prog)@ =~= old(prog)@ + pin_settings());
}

/// The register program of `uart_setup`: enable the mini UART, turn its
/// interrupts and its transmitter and receiver off, write the line
/// settings, then the pins.
pub open spec fn uart_setup_program_spec() -> Seq<RegOp> {
    seq![
        RegOp::Modify { addr: AUX_ENABLES, clear: 0, set: 1 },
        RegOp::Write { addr: AUX_MU_IER_REG, value: 0 },
        RegOp::Write { addr: AUX_MU_CNTL_REG, value: 0 },
    ] + line_settings() + pin_settings()
}

pub fn uart_setup_program() -> (prog: Vec<RegOp>)
    ensures
        prog@ == uart_setup_program_spec(),
{
    let mut prog: Vec<RegOp> = Vec::new();
    prog.push(RegOp::Modify { addr: AUX_ENABLES, clear: 0, set: 1 });
    prog.push(RegOp::Write { addr: AUX_MU_IER_REG, value: 0 });
    prog.push(RegOp::Write { addr: AUX_MU_CNTL_REG, value: 0 });
    push_line_settings(&mut prog);
    push_pin_settings(&mut prog);
    assert(prog@ =~= uart_setup_program_spec());
    prog
}

/// The pin step of the set-up programs computes exactly `uart_pins`.
pub proof fn lemma_pin_step_is_uart_pins(gpfsel1: u32)
    ensures
        pin_settings()[0] == (RegOp::Modify { addr: GPFSEL1, clear: 0x3_F000, set: 0x1_2000 }),
        modified(gpfsel1, 0x3_F000, 0x1_2000) == uart_pins_spec(gpfsel1),
{
    assert((gpfsel1 & !0x3_F000u32) | 0x1_2000u32 == (gpfsel1 & !((7u32 << 12u32) | (7u32 << 15u32)))
        | ((2u32 << 12u32) | (2u32 << 15u32))) by (bit_vector);
}

/// The formatter that the kernel's print macros write through.
pub struct UARTWriter {}

} // verus!
