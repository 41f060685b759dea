use krust::sdhci::{
    clock_divisor, host_version, reset_request, BlockStage, ClockStage, CommandStage, DmaBlockStage,
    InitStage, InterruptWait, ResetWait, SdAction, SdEvent, SdReg, StatusWait, RPISDIO,
    CMD_ALL_SEND_CID, CMD_APP_CMD, CMD_GO_IDLE, CMD_READ_SINGLE, CMD_SEND_IF_COND,
    CMD_SEND_OP_COND, CMD_SEND_REL_ADDR, CMD_SEND_SCR, INT_CMD_DONE, INT_CMD_TIMEOUT, INT_READ_RDY,
    SD_ERROR, SD_OK, SD_TIMEOUT, SR_CMD_INHIBIT,
};

fn ev(status: i32, value: u32) -> SdEvent {
    SdEvent { status, value, extra: 0 }
}

#[test]
fn new_driver_is_blank() {
    let sd = RPISDIO::new();
    assert_eq!(sd.scr, [0, 0, 0]);
    assert_eq!((sd.ocr, sd.rca, sd.err, sd.hv, sd.ccs), (0, 0, 0, 0, 0));
}

#[test]
fn host_version_is_bits_16_to_24() {
    assert_eq!(host_version(0x0002_0099), 0x02);
    assert_eq!(host_version(0x9902_0000), 0x02);
    assert_eq!(host_version(0x00FF_FFFF), 0xFF);
}

#[test]
fn clock_divisors() {
    // Specification 3 host: divide by the ratio, ten bits split.
    assert_eq!(clock_divisor(2, 400_000), 0x6800);
    assert_eq!(clock_divisor(2, 100_000), 0xA040);
    assert_eq!(clock_divisor(2, 25_000_000), 0x0200);
    // Older hosts: a power of two.
    assert_eq!(clock_divisor(0, 400_000), 0x0200);
    assert_eq!(clock_divisor(1, 41_666_666), 0x8000);
}

#[test]
fn status_wait_stops_on_clear_mask() {
    let mut w = StatusWait::new(SR_CMD_INHIBIT);
    assert!(w.is_polling());
    w.observe(0x1, 0);
    assert!(w.is_polling());
    w.observe(0x2, 0);
    assert!(!w.is_polling());
    assert_eq!(w.outcome(), SD_OK);
    assert_eq!(w.cnt, 998);
}

#[test]
fn status_wait_fails_on_error_interrupt() {
    let mut w = StatusWait::new(SR_CMD_INHIBIT);
    w.observe(0x1, 0x0000_8000);
    assert!(!w.is_polling());
    assert_eq!(w.outcome(), SD_ERROR);
}

#[test]
fn status_wait_runs_out() {
    let mut w = StatusWait::new(SR_CMD_INHIBIT);
    while w.is_polling() {
        w.observe(0x1, 0);
    }
    assert_eq!(w.cnt, 0);
    assert_eq!(w.outcome(), SD_ERROR);
}

#[test]
fn interrupt_wait_outcomes() {
    let mut w = InterruptWait::new(INT_CMD_DONE);
    assert!(w.is_polling());
    w.observe(0);
    assert!(w.is_polling());
    w.observe(INT_CMD_DONE);
    assert!(!w.is_polling());
    assert_eq!(w.conclude(INT_CMD_DONE), (SD_OK, INT_CMD_DONE));
    assert_eq!(w.conclude(INT_CMD_TIMEOUT | 1), (SD_TIMEOUT, INT_CMD_TIMEOUT | 1));
    assert_eq!(w.conclude(0x0000_8001), (SD_ERROR, 0x0000_8001));
}

#[test]
fn reset_wait() {
    assert_eq!(reset_request(0x0000_0007), 0x0100_0007);
    let mut w = ResetWait::new();
    assert!(!w.observe(0x0100_0000));
    assert!(w.observe(0));
    assert_eq!(w.outcome(), SD_OK);
    let mut w = ResetWait::new();
    let mut done = false;
    while !done {
        done = w.observe(0x0100_0000);
    }
    assert_eq!(w.outcome(), SD_ERROR);
}

fn run_command(sd: &RPISDIO, code: u32, arg: u32, replies: &[SdEvent]) -> (i32, u32) {
    let (mut st, mut act) = sd.command_start(code, arg);
    let mut k = 0;
    loop {
        if let SdAction::Finish(s, v) = act {
            return (s, v);
        }
        let e = if k < replies.len() { SdEvent { ..replies[k] } } else { ev(SD_OK, 0) };
        k += 1;
        let r = sd.command_step(st, e);
        st = r.0;
        act = r.1;
    }
}

#[test]
fn command_sequence_for_if_cond() {
    let sd = RPISDIO::new();
    let (st, act) = sd.command_start(CMD_SEND_IF_COND, 0x1AA);
    assert!(matches!(st, CommandStage::Inhibit { .. }));
    assert!(matches!(act, SdAction::AwaitStatus(m) if m == SR_CMD_INHIBIT));
    let (st, act) = sd.command_step(st, ev(SD_OK, 0));
    assert!(matches!(act, SdAction::Read { reg: SdReg::Interrupt, .. }));
    let (st, act) = sd.command_step(st, ev(SD_OK, 0x55));
    assert!(matches!(act, SdAction::Write { reg: SdReg::Interrupt, value: 0x55, .. }));
    let (st, act) = sd.command_step(st, ev(SD_OK, 0));
    assert!(matches!(act, SdAction::Write { reg: SdReg::Arg1, value: 0x1AA, .. }));
    let (st, act) = sd.command_step(st, ev(SD_OK, 0));
    assert!(matches!(act, SdAction::Write { reg: SdReg::CmdTm, value: CMD_SEND_IF_COND, then_wait_msec: 100 }));
    let (st, act) = sd.command_step(st, ev(SD_OK, 0));
    assert!(matches!(act, SdAction::AwaitInterrupt(m) if m == INT_CMD_DONE));
    let (st, act) = sd.command_step(st, ev(SD_OK, INT_CMD_DONE));
    assert!(matches!(act, SdAction::Read { reg: SdReg::Resp0, .. }));
    let (_, act) = sd.command_step(st, ev(SD_OK, 0x1AA));
    assert!(matches!(act, SdAction::Finish(SD_OK, 0)));
}

#[test]
fn command_results() {
    let sd = RPISDIO::new();
    let ok = [ev(SD_OK, 0), ev(SD_OK, 0), ev(SD_OK, 0), ev(SD_OK, 0), ev(SD_OK, 0), ev(SD_OK, 0)];
    let mut replies = ok.to_vec();
    replies.push(ev(SD_OK, 0x1AA));
    assert_eq!(run_command(&sd, CMD_SEND_IF_COND, 0x1AA, &replies), (SD_OK, 0));
    replies[6] = ev(SD_OK, 0x1AB);
    assert_eq!(run_command(&sd, CMD_SEND_IF_COND, 0x1AA, &replies), (SD_ERROR, 0));
    replies[6] = ev(SD_OK, 0xAAAA_0000);
    assert_eq!(run_command(&sd, CMD_SEND_REL_ADDR, 0, &replies), (0, 0xAAAA_0000));
    replies[6] = ev(SD_OK, 0x1234);
    assert_eq!(run_command(&sd, CMD_GO_IDLE, 0, &replies), (SD_OK, 0));
    // A timed out wait for the command line.
    assert_eq!(run_command(&sd, CMD_GO_IDLE, 0, &[ev(SD_ERROR, 0)]), (SD_TIMEOUT, 0));
    // The command-done wait reports an error.
    let mut bad = ok.to_vec();
    bad[5] = ev(SD_ERROR, 0);
    assert_eq!(run_command(&sd, CMD_GO_IDLE, 0, &bad), (SD_ERROR, 0));
}

#[test]
fn identification_ors_all_response_words() {
    let sd = RPISDIO::new();
    let mut replies = vec![ev(SD_OK, 0); 6];
    replies.push(ev(SD_OK, 0x1));
    replies.push(ev(SD_OK, 0x10));
    replies.push(ev(SD_OK, 0x100));
    replies.push(ev(SD_OK, 0x1000));
    assert_eq!(run_command(&sd, CMD_ALL_SEND_CID, 0, &replies), (SD_OK, 0x1111));
}

#[test]
fn application_commands_get_a_prefix() {
    let mut sd = RPISDIO::new();
    let (st, act) = sd.command_start(CMD_SEND_OP_COND, 0x51FF_8000);
    assert!(matches!(st, CommandStage::AppPrefix { .. }));
    assert!(matches!(act, SdAction::Command(c, 0) if c == CMD_APP_CMD));
    sd.rca = 0x1234_0000;
    let (st, act) = sd.command_start(CMD_SEND_SCR, 0);
    assert!(matches!(act, SdAction::Command(c, 0x1234_0000) if c == CMD_APP_CMD | 0x0002_0000));
    // An addressed card that answers the prefix with nothing fails it.
    let (_, act) = sd.command_step(st, ev(SD_OK, 0));
    assert!(matches!(act, SdAction::Finish(SD_ERROR, 0)));
}

#[test]
fn initialisation_starts_with_pins_and_version() {
    let mut sd = RPISDIO::new();
    let (st, act) = sd.init_step(InitStage::Start, ev(SD_OK, 0));
    assert!(matches!(act, SdAction::GpioSetup));
    let (st, act) = sd.init_step(st, ev(SD_OK, 0));
    assert!(matches!(act, SdAction::Read { reg: SdReg::SlotIsrVer, .. }));
    let (st, act) = sd.init_step(st, ev(SD_OK, 0x0002_0002));
    assert_eq!(sd.hv, 2);
    assert!(matches!(act, SdAction::ResetCard));
    // A failed reset ends initialisation with its result.
    let (st2, act) = sd.init_step(st, ev(SD_ERROR, 0));
    assert!(matches!(st2, InitStage::Finished));
    assert!(matches!(act, SdAction::Finish(SD_ERROR, 0)));
}

#[test]
fn clock_setting_starts_by_waiting_for_the_lines() {
    let sd = RPISDIO::new();
    let (_, act) = sd.set_clock_step(400_000, ClockStage::Begin, ev(SD_OK, 0));
    assert!(matches!(act, SdAction::Read { reg: SdReg::Status, .. }));
}

#[test]
fn block_read_stores_words_little_endian() {
    let sd = RPISDIO::new();
    let mut buf = [0xFFu8; 512];
    let (st, act) = sd.readblock_step(&mut buf, 7, BlockStage::Start, ev(SD_OK, 0));
    assert!(buf.iter().all(|b| *b == 0));
    assert!(matches!(act, SdAction::Write { reg: SdReg::BlkSizeCnt, value: 0x1_0200, .. }));
    let (st, act) = sd.readblock_step(&mut buf, 7, st, ev(SD_OK, 0));
    assert!(matches!(act, SdAction::Command(CMD_READ_SINGLE, 7)));
    let (st, act) = sd.readblock_step(&mut buf, 7, st, ev(SD_OK, 0));
    assert!(matches!(act, SdAction::AwaitInterrupt(m) if m == INT_READ_RDY));
    let (mut st, mut act) = sd.readblock_step(&mut buf, 7, st, ev(SD_OK, 0));
    let mut d: u32 = 0;
    while let SdAction::Read { reg: SdReg::Data, .. } = act {
        let r = sd.readblock_step(&mut buf, 7, st, ev(SD_OK, 0x0403_0201 + d));
        st = r.0;
        act = r.1;
        d += 1;
    }
    assert_eq!(d, 128);
    assert!(matches!(act, SdAction::Finish(SD_OK, 0)));
    assert_eq!(&buf[0..4], &[1, 2, 3, 4]);
    assert_eq!(&buf[4..8], &[2, 2, 3, 4]);
    assert_eq!(&buf[508..512], &[0x80, 2, 3, 4]);
}

#[test]
fn block_read_failure_leaves_zeros() {
    let sd = RPISDIO::new();
    let mut buf = [0xFFu8; 512];
    let (st, _) = sd.readblock_step(&mut buf, 0, BlockStage::Start, ev(SD_OK, 0));
    let (st, _) = sd.readblock_step(&mut buf, 0, st, ev(SD_OK, 0));
    let (_, act) = sd.readblock_step(&mut buf, 0, st, ev(SD_TIMEOUT, 0));
    assert!(matches!(act, SdAction::Finish(SD_TIMEOUT, 0)));
    assert!(buf.iter().all(|b| *b == 0));
}

#[test]
fn dma_block_read() {
    let sd = RPISDIO::new();
    let (st, _) = sd.dma_readblock_step(3, 0x1000, DmaBlockStage::Start, ev(SD_OK, 0));
    let (st, act) = sd.dma_readblock_step(3, 0x1000, st, ev(SD_OK, 0));
    assert!(matches!(act, SdAction::Command(CMD_READ_SINGLE, 3)));
    let (st, _) = sd.dma_readblock_step(3, 0x1000, st, ev(SD_OK, 0));
    let (st, act) = sd.dma_readblock_step(3, 0x1000, st, ev(SD_OK, 0));
    match act {
        SdAction::DmaCopy(cb) => {
            assert_eq!(cb.ti, 0x000B_0410);
            assert_eq!(cb.src, 0x7E30_0020);
            assert_eq!(cb.dst, 0x1000);
            assert_eq!(cb.len, 512);
        },
        _ => panic!("expected a DMA copy"),
    }
    let (_, act) = sd.dma_readblock_step(3, 0x1000, st, ev(SD_OK, 0));
    assert!(matches!(act, SdAction::Finish(SD_OK, 0)));
}

#[test]
fn block_dump_text() {
    let mut buf = [0u8; 512];
    buf[0] = b'H';
    buf[1] = b'i';
    buf[2] = 0x07;
    buf[16] = 0xAB;
    let s = String::from_utf8(RPISDIO::dump_block(&buf)).unwrap();
    let lines: Vec<&str> = s.split('\n').collect();
    assert_eq!(lines.len(), 35);
    assert_eq!(lines[0], "Read block");
    assert_eq!(lines[1], "0 | 48 69 7 0 0 0 0 0 0 0 0 0 0 0 0 0  | Hi..............");
    assert_eq!(lines[2], "10 | AB 0 0 0 0 0 0 0 0 0 0 0 0 0 0 0  | ................");
    assert_eq!(lines[32], "1F0 | 0 0 0 0 0 0 0 0 0 0 0 0 0 0 0 0  | ................");
    assert_eq!(lines[33], "Dumped block");
    assert_eq!(lines[34], "");
}

#[test]
fn initialisation_reports_a_failed_go_idle() {
    let mut sd = RPISDIO::new();
    let mut st = InitStage::Start;
    let mut e = ev(SD_OK, 0);
    let mut clocks = Vec::new();
    loop {
        let (next, act) = sd.init_step(st, e);
        st = next;
        match act {
            SdAction::SetClock(f) => {
                clocks.push(f);
                e = ev(SD_OK, 0);
            },
            SdAction::Command(c, _) if c == CMD_GO_IDLE => e = ev(SD_TIMEOUT, 0),
            SdAction::Finish(s, _) => {
                assert_eq!(s, SD_TIMEOUT);
                break;
            },
            _ => e = ev(SD_OK, 0),
        }
    }
    assert_eq!(clocks, vec![400_000]);
}
