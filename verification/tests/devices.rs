use krust::gpio::{modify_value, sd_gpio_program, RegOp, GPFSEL1, GPFSEL4, GPFSEL5, GPHEN1, GPPUD, GPPUDCLK0, GPPUDCLK1};
use krust::led::{blink, led_init_program, led_pins};
use krust::rtl8139::{tx_ports_fit_exec, u32_to_tx_status_bits, RTL8139Driver, TxAction, TxStage, TxStatusBits};
use krust::uart::mini::{uart_putc_ascii as mini_putc_ascii, MiniUart};
use krust::uart::{uart_hex, uart_hex8, uart_pins, uart_putc_ascii, uart_setup_program, uart_writeaddr, AUX_ENABLES, AUX_MU_CNTL_REG};

#[test]
fn uart_hex_text() {
    assert_eq!(uart_hex(0xDEAD_BEEF), b"0xDEADBEEF".to_vec());
    assert_eq!(uart_hex(0), b"0x00000000".to_vec());
    assert_eq!(uart_hex(0x1F), b"0x0000001F".to_vec());
    assert_eq!(uart_writeaddr(0x8_0000), b"0x00080000\n".to_vec());
    assert_eq!(uart_hex8(0x0F), b"0F".to_vec());
    assert_eq!(uart_hex8(0xA0), b"A0".to_vec());
}

#[test]
fn uart_hex_prints_low_32_bits() {
    assert_eq!(uart_hex(usize::MAX), b"0xFFFFFFFF".to_vec());
}

#[test]
fn dump_characters() {
    assert_eq!(uart_putc_ascii('A'), 'A');
    assert_eq!(uart_putc_ascii('\n'), '.');
    assert_eq!(uart_putc_ascii('\u{7F}'), '\u{7F}');
    assert_eq!(uart_putc_ascii('\u{80}'), '.');
    assert_eq!(uart_putc_ascii('.'), '.');
    assert_eq!(mini_putc_ascii('z'), 'z');
    assert_eq!(mini_putc_ascii('\u{0}'), '.');
}

#[test]
fn uart_pin_functions() {
    // GPIO 14 and 15 become alternate function 5, the rest stays.
    assert_eq!(uart_pins(0), 0x0001_2000);
    assert_eq!(uart_pins(0xFFFF_FFFF), 0xFFFC_0FFF | 0x0001_2000);
    assert_eq!(modify_value(0xFFFF_FFFF, 0x3_F000, 0x1_2000), uart_pins(0xFFFF_FFFF));
}

#[test]
fn uart_programs() {
    let p = uart_setup_program();
    assert_eq!(p.len(), 15);
    assert_eq!(p[0], RegOp::Modify { addr: AUX_ENABLES, clear: 0, set: 1 });
    assert_eq!(p[8], RegOp::Modify { addr: GPFSEL1, clear: 0x3_F000, set: 0x1_2000 });
    assert_eq!(p[14], RegOp::Write { addr: AUX_MU_CNTL_REG, value: 3 });
    let m = MiniUart::init_program();
    assert_eq!(m.len(), 14);
    assert_eq!(&m[2..], &p[3..]);
}

#[test]
fn sd_pins_program() {
    let p = sd_gpio_program();
    assert_eq!(p.len(), 22);
    assert_eq!(p[0], RegOp::Modify { addr: GPFSEL4, clear: 0x00E0_0000, set: 0 });
    assert_eq!(p[1], RegOp::Write { addr: GPPUD, value: 2 });
    assert_eq!(p[3], RegOp::Write { addr: GPPUDCLK1, value: 1 << 15 });
    assert_eq!(p[7], RegOp::Modify { addr: GPHEN1, clear: 0, set: 1 << 15 });
    assert_eq!(p[8], RegOp::Modify { addr: GPFSEL4, clear: 0, set: 0x3F00_0000 });
    assert_eq!(p[11], RegOp::Write { addr: GPPUDCLK1, value: 0x3_0000 });
    assert_eq!(p[15], RegOp::Modify { addr: GPFSEL5, clear: 0, set: 0xFFF });
    assert_eq!(p[18], RegOp::Write { addr: GPPUDCLK1, value: 0x3C_0000 });
    assert_eq!(p[21], RegOp::Write { addr: GPPUDCLK1, value: 0 });
}

#[test]
fn led_set_up_and_blinks() {
    assert_eq!(led_pins(0), 0x0004_0000);
    assert_eq!(led_pins(0xFFFF_FFFF), 0xFFE3_8FFF | 0x0004_0000);
    let p = led_init_program();
    assert_eq!(p.len(), 9);
    assert_eq!(p[0], RegOp::Modify { addr: GPFSEL1, clear: 0x1C_7000, set: 0x4_0000 });
    assert_eq!(modify_value(0xFFFF_FFFF, 0x1C_7000, 0x4_0000), led_pins(0xFFFF_FFFF));
    assert_eq!(p[3], RegOp::Write { addr: GPPUDCLK0, value: 0x4000 });
    let b = blink(2, 500);
    assert_eq!(b.len(), 6);
    assert_eq!(b[1], RegOp::WaitMsec(500));
    assert_eq!(b[3], b[0]);
    assert!(blink(0, 500).is_empty());
}

#[test]
fn transmit_status_is_always_host_owned() {
    assert!(matches!(u32_to_tx_status_bits(0x2000), TxStatusBits::TxHostOwns));
    assert!(matches!(u32_to_tx_status_bits(0x4000), TxStatusBits::TxHostOwns));
    assert!(matches!(u32_to_tx_status_bits(0xFFFF_FFFF), TxStatusBits::TxHostOwns));
    assert_eq!(u32_to_tx_status_bits(0).code(), 0x2000);
}

#[test]
fn network_start_writes() {
    let d = RTL8139Driver::new(0, 3, 0xC000);
    assert_eq!((d.bus, d.slot, d.cur_tx, d.dirty_tx, d.ioaddr), (0, 3, 0, 0, 0xC000));
    assert_eq!(d.port(0x37), 0xC037);
    assert!(RTL8139Driver::reset_complete(0x0C));
    assert!(!RTL8139Driver::reset_complete(0x10));
    let w = d.hw_start_writes();
    let got: Vec<(u32, u32, u8)> = w.iter().map(|p| (p.port, p.value, p.width)).collect();
    assert_eq!(
        got,
        vec![(0xC050, 0xC0, 4), (0xC037, 0x0C, 4), (0xC044, 0x0A, 4), (0xC050, 0x00, 4), (0xC04C, 0, 4), (0xC03C, 0xC07F, 2)]
    );
}

#[test]
fn transmit_interrupt_reclaims_every_descriptor() {
    let mut d = RTL8139Driver::new(0, 3, 0xC000);
    d.cur_tx = 6;
    d.dirty_tx = 3;
    let mut st = d.tx_interrupt_start();
    let mut reads = Vec::new();
    let mut acks = 0;
    loop {
        let (next, act) = d.tx_interrupt_step(st, 0);
        st = next;
        match act {
            TxAction::Read32(port) => reads.push(port),
            TxAction::Write16(port, v) => {
                assert_eq!((port, v), (0xC03E, 0x08));
                acks += 1;
            },
            TxAction::Write32(port, v) => assert_eq!((port, v), (0xC040, 0x1)),
            TxAction::Done => break,
        }
    }
    assert!(matches!(st, TxStage::Done));
    assert_eq!(reads, vec![0xC010 + 3 * 32, 0xC010, 0xC010 + 32]);
    assert_eq!(acks, 3);
    assert_eq!(d.dirty_tx, 6);
}

#[test]
fn reclaim_ports_must_fit() {
    assert!(tx_ports_fit_exec(0xC000));
    assert!(tx_ports_fit_exec(0xFFFF_FF8F));
    assert!(!tx_ports_fit_exec(0xFFFF_FF90));
}

#[test]
fn transmit_interrupt_does_not_stop_at_underrun() {
    let mut d = RTL8139Driver::new(0, 3, 0xC000);
    d.cur_tx = 6;
    d.dirty_tx = 2;
    let mut st = d.tx_interrupt_start();
    let mut reads = 0;
    let mut value = 0;
    loop {
        let (next, act) = d.tx_interrupt_step(st, value);
        st = next;
        match act {
            TxAction::Read32(_) => {
                value = 0x4000;
                reads += 1;
            },
            TxAction::Done => break,
            _ => {},
        }
    }
    // Every status classifies as host-owned, so all four are reclaimed.
    assert_eq!(reads, 4);
    assert_eq!(d.dirty_tx, 6);
}
