use std::collections::VecDeque;

use libtegra::regs::{
    Register, Registers, FCR_EN_FIFO, FCR_RX_CLR, FCR_TX_CLR, LCR_DLAB, LCR_WORD_LENGTH_8,
    LSR_RDR, LSR_RX_FIFO_EMPTY, LSR_THRE, LSR_TMTY, VENDOR_RX_IDLE, VENDOR_TX_IDLE,
};
use libtegra::step::{ClockId, Step};
use libtegra::transfer::{Action, Transfer};
use libtegra::uart::{Ready, Uart, Unready, UART_A_BASE, UART_E_BASE};

/// A UART in software: registers that hold what was written, the divisor
/// latch behind the DLAB bit, and a receive FIFO. Status bits can be held
/// unset for a number of polls.
struct FakeUart {
    lcr: u32,
    ier: u32,
    fcr: u32,
    mcr: u32,
    spr: u32,
    dll: u32,
    dlm: u32,
    rx: VecDeque<u8>,
    loopback: bool,
    sent: Vec<u8>,
    clock_enabled: bool,
    slept: u64,
    /// LSR reads left that report a busy transmitter.
    tx_busy_polls: u32,
    /// LSR reads that each written byte keeps the holding register full.
    busy_after_write: u32,
    lsr_reads: u32,
    failed_thre_polls: u32,
    thr_reads: u32,
    spr_reads: u32,
}

impl FakeUart {
    fn new() -> FakeUart {
        FakeUart {
            lcr: 0,
            ier: 0,
            fcr: 0,
            mcr: 0,
            spr: 0,
            dll: 0,
            dlm: 0,
            rx: VecDeque::new(),
            loopback: false,
            sent: Vec::new(),
            clock_enabled: false,
            slept: 0,
            tx_busy_polls: 0,
            busy_after_write: 0,
            lsr_reads: 0,
            failed_thre_polls: 0,
            thr_reads: 0,
            spr_reads: 0,
        }
    }

    fn latch_open(&self) -> bool {
        self.lcr & LCR_DLAB != 0
    }

    fn read(&mut self, r: Register) -> u32 {
        match r {
            Register::Thr => {
                if self.latch_open() {
                    self.dll
                } else {
                    self.thr_reads += 1;
                    self.rx.pop_front().map(u32::from).unwrap_or(0)
                }
            }
            Register::Ier => {
                if self.latch_open() {
                    self.dlm
                } else {
                    self.ier
                }
            }
            Register::IirFcr => {
                if self.fcr & FCR_EN_FIFO != 0 {
                    0xC1
                } else {
                    0x01
                }
            }
            Register::Lcr => self.lcr,
            Register::Mcr => self.mcr,
            Register::Spr => {
                self.spr_reads += 1;
                self.spr
            }
            Register::Lsr => {
                self.lsr_reads += 1;
                let mut v = 0;
                if self.tx_busy_polls > 0 {
                    self.tx_busy_polls -= 1;
                    self.failed_thre_polls += 1;
                } else {
                    v |= LSR_THRE | LSR_TMTY;
                }
                if self.rx.is_empty() {
                    v |= LSR_RX_FIFO_EMPTY;
                } else {
                    v |= LSR_RDR;
                }
                v
            }
            Register::VendorStatus => {
                let mut v = VENDOR_TX_IDLE;
                if self.rx.is_empty() {
                    v |= VENDOR_RX_IDLE;
                }
                v
            }
            _ => 0,
        }
    }

    fn write(&mut self, r: Register, v: u32) {
        match r {
            Register::Thr => {
                if self.latch_open() {
                    self.dll = v;
                } else {
                    self.sent.push(v as u8);
                    if self.loopback {
                        self.rx.push_back(v as u8);
                    }
                    self.tx_busy_polls = self.busy_after_write;
                }
            }
            Register::Ier => {
                if self.latch_open() {
                    self.dlm = v;
                } else {
                    self.ier = v;
                }
            }
            Register::IirFcr => {
                self.fcr = v;
                if v & FCR_RX_CLR != 0 {
                    self.rx.clear();
                }
            }
            Register::Lcr => self.lcr = v,
            Register::Mcr => self.mcr = v,
            Register::Spr => self.spr = v,
            _ => {}
        }
    }
}

/// Performs the actions of `t` on `hw` until it finishes or times out.
fn run(t: &mut Transfer, hw: &mut FakeUart) -> Action {
    let mut a = t.action();
    loop {
        match a {
            Action::Finished | Action::TimedOut => return a,
            Action::Read(r) => {
                let v = hw.read(r);
                a = t.resume(v);
            }
            Action::Write(r, v) => {
                hw.write(r, v);
                a = t.resume(0);
            }
            Action::EnableClock(_) => {
                hw.clock_enabled = true;
                a = t.resume(0);
            }
            Action::Sleep(us) => {
                hw.slept += u64::from(us);
                a = t.resume(0);
            }
        }
    }
}

/// Initializes `uart` on `hw` and returns its ready handle.
fn ready(uart: Uart<Unready>, hw: &mut FakeUart) -> Uart<Ready> {
    let mut t = uart.init(115_200, 100);
    assert_eq!(run(&mut t, hw), Action::Finished);
    uart.ready(&t).unwrap()
}

#[test]
fn init_plan_follows_handshake() {
    let t = Uart::a().init(115_200, 1);
    let plan = t.steps();
    assert_eq!(t.init_of(), Some((ClockId::UartA, 115_200)));
    assert_eq!(plan.len(), 18);
    assert_eq!(plan[0], Step::EnableClock(ClockId::UartA));
    assert_eq!(plan[1], Step::WaitAll(Register::Lsr, LSR_TMTY));
    assert_eq!(plan[2], Step::Write(Register::Lcr, LCR_WORD_LENGTH_8));
    assert_eq!(plan[3], Step::Write(Register::Ier, 0));
    assert_eq!(plan[4], Step::Write(Register::Mcr, 0));
    assert_eq!(plan[5], Step::Write(Register::Lcr, LCR_DLAB | LCR_WORD_LENGTH_8));
    assert_eq!(plan[6], Step::Write(Register::Thr, 221));
    assert_eq!(plan[7], Step::Write(Register::Ier, 0));
    assert_eq!(plan[8], Step::ClearBits(Register::Lcr, LCR_DLAB));
    assert_eq!(plan[10], Step::Sleep(27));
    assert_eq!(plan[11], Step::Write(Register::IirFcr, FCR_EN_FIFO));
    assert_eq!(plan[13], Step::Sleep(2));
    assert_eq!(
        plan[15],
        Step::Write(Register::IirFcr, FCR_EN_FIFO | FCR_RX_CLR | FCR_TX_CLR)
    );
    assert_eq!(plan[16], Step::Sleep(18));
    assert_eq!(
        plan[17],
        Step::WaitAll(Register::VendorStatus, VENDOR_TX_IDLE | VENDOR_RX_IDLE)
    );
    assert_eq!(Uart::a().init_plan(115_200), *plan);
}

#[test]
fn init_splits_divisor_into_bytes() {
    let plan = Uart::b().init_plan(300);
    assert_eq!(plan[6], Step::Write(Register::Thr, 85_000 & 0xFF));
    assert_eq!(plan[7], Step::Write(Register::Ier, (85_000 >> 8) & 0xFF));
}

#[test]
fn init_plan_at_range_ends() {
    let slow = Uart::a().init_plan(300);
    assert_eq!(slow[10], Step::Sleep(10_000));
    assert_eq!(slow[13], Step::Sleep(625));
    assert_eq!(slow[16], Step::Sleep(6667));
    let fast = Uart::a().init_plan(12_500_000);
    assert_eq!(fast[6], Step::Write(Register::Thr, 2));
    assert_eq!(fast[7], Step::Write(Register::Ier, 0));
    assert_eq!(fast[10], Step::Sleep(1));
    assert_eq!(fast[13], Step::Sleep(1));
    assert_eq!(fast[16], Step::Sleep(1));
}

#[test]
fn init_leaves_latch_closed_and_fifo_enabled() {
    let mut hw = FakeUart::new();
    hw.tx_busy_polls = 3;
    hw.rx.push_back(0x55);
    let uart = Uart::a();
    let mut t = uart.init(115_200, 100);
    assert_eq!(run(&mut t, &mut hw), Action::Finished);
    assert!(t.is_finished());
    assert!(hw.clock_enabled);
    assert_eq!(hw.lcr, LCR_WORD_LENGTH_8);
    assert_eq!(hw.lcr & LCR_DLAB, 0);
    assert_ne!(hw.fcr & FCR_EN_FIFO, 0);
    assert_eq!(hw.dll, 221);
    assert_eq!(hw.dlm, 0);
    assert_eq!(hw.ier, 0);
    assert_eq!(hw.mcr, 0);
    assert!(hw.rx.is_empty());
    assert_eq!(hw.spr_reads, 2);
    assert_eq!(hw.slept, 27 + 2 + 18);
    assert_eq!(hw.failed_thre_polls, 3);
}

#[test]
fn init_with_latch_open_turns_interrupts_off() {
    let mut hw = FakeUart::new();
    hw.lcr = LCR_DLAB | LCR_WORD_LENGTH_8;
    hw.ier = 0x0F;
    hw.mcr = 0x03;
    let mut t = Uart::a().init(115_200, 10);
    assert_eq!(run(&mut t, &mut hw), Action::Finished);
    assert_eq!(hw.ier, 0);
    assert_eq!(hw.mcr, 0);
    assert_eq!(hw.lcr, LCR_WORD_LENGTH_8);
    assert_eq!((hw.dll, hw.dlm), (221, 0));
}

#[test]
fn init_twice_keeps_divisor() {
    let mut hw = FakeUart::new();
    hw.lcr = LCR_DLAB;
    hw.ier = 0x05;
    let uart = Uart::c();
    let mut first = uart.init(9600, 10);
    assert_eq!(run(&mut first, &mut hw), Action::Finished);
    let after_first = (hw.dll, hw.dlm, hw.lcr, hw.ier, hw.mcr, hw.fcr & FCR_EN_FIFO);
    let mut second = uart.init(9600, 10);
    assert_eq!(run(&mut second, &mut hw), Action::Finished);
    assert_eq!(
        (hw.dll, hw.dlm, hw.lcr, hw.ier, hw.mcr, hw.fcr & FCR_EN_FIFO),
        after_first
    );
    assert_eq!(after_first.0, 2656 & 0xFF);
    assert_eq!(after_first.1, 2656 >> 8);
    assert_eq!(after_first.3, 0);
}

#[test]
fn init_times_out_on_stuck_transmitter() {
    let mut hw = FakeUart::new();
    hw.tx_busy_polls = u32::MAX;
    let uart = Uart::d();
    let mut t = uart.init(115_200, 5);
    assert_eq!(run(&mut t, &mut hw), Action::TimedOut);
    assert!(!t.is_finished());
    assert_eq!(hw.lsr_reads, 5);
    assert_eq!(t.action(), Action::TimedOut);
    assert_eq!(t.resume(LSR_TMTY), Action::TimedOut);
    assert!(uart.ready(&t).is_err());
}

#[test]
fn ready_needs_finished_init_of_same_uart() {
    let mut hw = FakeUart::new();
    let a = Uart::a();
    let unfinished = a.init(115_200, 10);
    let a = a.ready(&unfinished).unwrap_err();
    let mut other = Uart::b().init(115_200, 10);
    assert_eq!(run(&mut other, &mut hw), Action::Finished);
    let a = a.ready(&other).unwrap_err();
    let mut empty = Transfer::new(vec![], 1);
    assert_eq!(run(&mut empty, &mut hw), Action::Finished);
    let a = a.ready(&empty).unwrap_err();
    let mut init = a.init(115_200, 10);
    assert_eq!(run(&mut init, &mut hw), Action::Finished);
    let r = a.ready(&init).unwrap();
    assert_eq!(r.clock, ClockId::UartA);
    assert_eq!(r.registers.base, UART_A_BASE);
}

#[test]
fn second_write_byte_retries_once() {
    let mut hw = FakeUart::new();
    let uart = ready(Uart::a(), &mut hw);
    hw.busy_after_write = 1;
    hw.lsr_reads = 0;
    let mut first = uart.write_byte(b'x', 10);
    assert_eq!(run(&mut first, &mut hw), Action::Finished);
    assert_eq!(hw.lsr_reads, 1);
    assert_eq!(hw.failed_thre_polls, 0);
    let mut second = uart.write_byte(b'y', 10);
    assert_eq!(run(&mut second, &mut hw), Action::Finished);
    assert_eq!(hw.lsr_reads, 3);
    assert_eq!(hw.failed_thre_polls, 1);
    assert_eq!(hw.sent, vec![b'x', b'y']);
}

#[test]
fn write_byte_actions_in_order() {
    let mut hw = FakeUart::new();
    let mut t = ready(Uart::a(), &mut hw).write_byte(0x41, 3);
    assert_eq!(t.action(), Action::Read(Register::Lsr));
    assert_eq!(t.resume(0), Action::Read(Register::Lsr));
    assert_eq!(t.resume(LSR_THRE), Action::Write(Register::Thr, 0x41));
    assert_eq!(t.resume(0), Action::Finished);
}

#[test]
fn read_bytes_returns_abc() {
    let mut hw = FakeUart::new();
    let uart = ready(Uart::a(), &mut hw);
    hw.rx.extend([0x41, 0x42, 0x43]);
    let mut t = uart.read(3, 10);
    assert_eq!(run(&mut t, &mut hw), Action::Finished);
    assert_eq!(t.received().as_slice(), b"ABC");
    assert_eq!(String::from_utf8(t.received().clone()).unwrap(), "ABC");
    assert_eq!(hw.thr_reads, 3);
}

#[test]
fn read_byte_waits_for_data() {
    let mut hw = FakeUart::new();
    let mut t = ready(Uart::a(), &mut hw).read_byte(10);
    assert_eq!(t.action(), Action::Read(Register::Lsr));
    assert_eq!(t.resume(LSR_THRE), Action::Read(Register::Lsr));
    assert_eq!(t.resume(LSR_RDR), Action::Read(Register::Thr));
    assert_eq!(t.resume(0x1_5A), Action::Finished);
    assert_eq!(t.received(), &vec![0x5A]);
}

#[test]
fn read_times_out_without_data() {
    let mut hw = FakeUart::new();
    let uart = ready(Uart::a(), &mut hw);
    let mut t = uart.read(2, 4);
    assert_eq!(run(&mut t, &mut hw), Action::TimedOut);
    assert_eq!(hw.thr_reads, 0);
    assert!(t.received().is_empty());
}

#[test]
fn read_nothing_finishes_at_once() {
    let mut hw = FakeUart::new();
    let uart = ready(Uart::a(), &mut hw);
    hw.lsr_reads = 0;
    let mut t = uart.read(0, 1);
    assert_eq!(t.action(), Action::Finished);
    assert_eq!(run(&mut t, &mut hw), Action::Finished);
    assert_eq!(hw.lsr_reads, 0);
    assert!(t.received().is_empty());
}

#[test]
fn loopback_round_trip() {
    let mut hw = FakeUart::new();
    hw.loopback = true;
    let uart = Uart::e();
    let mut init = uart.init(921_600, 10);
    assert_eq!(run(&mut init, &mut hw), Action::Finished);
    let uart = uart.ready(&init).unwrap();
    let bytes = b"hello, loopback \x00\xff";
    let mut w = uart.write_bytes(bytes, 10);
    assert_eq!(run(&mut w, &mut hw), Action::Finished);
    let mut r = uart.read(bytes.len(), 10);
    assert_eq!(run(&mut r, &mut hw), Action::Finished);
    assert_eq!(r.received().as_slice(), &bytes[..]);
    assert!(hw.rx.is_empty());
}

#[test]
fn write_bytes_drains_shift_register() {
    let mut hw = FakeUart::new();
    let uart = ready(Uart::a(), &mut hw);
    let plan = uart.write_bytes_plan(&[1, 2]);
    assert_eq!(
        plan,
        vec![
            Step::WaitAll(Register::Lsr, LSR_THRE),
            Step::Write(Register::Thr, 1),
            Step::WaitAll(Register::Lsr, LSR_THRE),
            Step::Write(Register::Thr, 2),
            Step::WaitAll(Register::Lsr, LSR_TMTY),
        ]
    );
    assert_eq!(uart.write_bytes_plan(&[]), vec![Step::WaitAll(Register::Lsr, LSR_TMTY)]);
    assert_eq!(uart.write_bytes(&[1, 2], 1).steps(), &plan);
}

#[test]
fn wait_idle_plans() {
    let mut hw = FakeUart::new();
    let uart = ready(Uart::a(), &mut hw);
    assert_eq!(uart.wait_idle_plan(0), vec![]);
    assert_eq!(
        uart.wait_idle_plan(VENDOR_TX_IDLE),
        vec![Step::WaitAll(Register::Lsr, LSR_TMTY)]
    );
    assert_eq!(
        uart.wait_idle_plan(VENDOR_TX_IDLE | VENDOR_RX_IDLE),
        vec![
            Step::WaitAll(Register::Lsr, LSR_TMTY),
            Step::WaitAll(Register::Lsr, LSR_RX_FIFO_EMPTY)
        ]
    );
    let mut t = uart.wait_idle(VENDOR_RX_IDLE, 2);
    assert_eq!(t.action(), Action::Read(Register::Lsr));
    assert_eq!(t.resume(LSR_RDR), Action::Read(Register::Lsr));
    assert_eq!(t.resume(LSR_RDR), Action::TimedOut);
}

#[test]
fn wait_rx_idle_waits_for_unread_data() {
    let mut hw = FakeUart::new();
    let uart = ready(Uart::a(), &mut hw);
    hw.rx.push_back(0x42);
    let mut busy = uart.wait_idle(VENDOR_RX_IDLE, 3);
    assert_eq!(run(&mut busy, &mut hw), Action::TimedOut);
    let mut take = uart.read_byte(3);
    assert_eq!(run(&mut take, &mut hw), Action::Finished);
    let mut idle = uart.wait_idle(VENDOR_TX_IDLE | VENDOR_RX_IDLE, 3);
    assert_eq!(run(&mut idle, &mut hw), Action::Finished);
}

#[test]
fn empty_plan_is_finished() {
    let t = Transfer::new(vec![], 1);
    assert!(t.is_finished());
    assert_eq!(t.action(), Action::Finished);
    assert_eq!(t.init_of(), None);
}

#[test]
fn clear_bits_writes_back() {
    let mut t = Transfer::new(
        vec![
            Step::ClearBits(Register::Lcr, LCR_DLAB),
            Step::Write(Register::IirFcr, 0x7),
        ],
        1,
    );
    assert_eq!(t.action(), Action::Read(Register::Lcr));
    assert_eq!(t.resume(0x83), Action::Write(Register::Lcr, 0x03));
    assert_eq!(t.resume(0), Action::Write(Register::IirFcr, 0x7));
    assert_eq!(t.resume(0), Action::Finished);
}

#[test]
fn descriptors_and_addresses() {
    let a = Uart::a();
    assert_eq!(a.registers.base, UART_A_BASE);
    assert_eq!(a.clock, ClockId::UartA);
    assert_eq!(Uart::e().clock, ClockId::UartApe);
    assert_eq!(Uart::e().registers.base, UART_E_BASE);
    assert_eq!(Uart::b().registers.base, 0x7000_6040);
    assert_eq!(Uart::c().registers.base, 0x7000_6200);
    assert_eq!(Uart::d().registers.base, 0x7000_6300);
    let regs = Registers { base: UART_A_BASE };
    assert_eq!(regs.address_of(Register::Lsr), 0x7000_6014);
    assert_eq!(regs.address_of(Register::VendorStatus), 0x7000_602C);
    assert_eq!(regs.address_of(Register::Asr), 0x7000_603C);
    assert_eq!(Register::Thr.offset(), 0);
}

#[test]
fn transfer_ends_within_bound_for_any_replies() {
    let mut hw = FakeUart::new();
    let uart = ready(Uart::a(), &mut hw);
    for seed in 0..64u32 {
        let mut t = uart.write_bytes(&[1, 2, 3], 4);
        let bound = 7 * (4 + 2);
        let mut a = t.action();
        let mut actions = 0;
        let mut x = seed.wrapping_mul(2_654_435_761).wrapping_add(1);
        while a != Action::Finished && a != Action::TimedOut {
            x ^= x << 13;
            x ^= x >> 17;
            x ^= x << 5;
            a = t.resume(x & 0x7F);
            actions += 1;
            assert!(actions <= bound);
        }
    }
}

#[test]
fn loopback_round_trip_with_late_transmitter() {
    let mut hw = FakeUart::new();
    hw.loopback = true;
    hw.tx_busy_polls = 4;
    let uart = Uart::a();
    let mut init = uart.init(115_200, 5);
    assert_eq!(run(&mut init, &mut hw), Action::Finished);
    assert_eq!(hw.failed_thre_polls, 4);
    let uart = uart.ready(&init).unwrap();
    hw.tx_busy_polls = 2;
    let mut w = uart.write_bytes(b"late", 3);
    assert_eq!(run(&mut w, &mut hw), Action::Finished);
    let mut r = uart.read(4, 3);
    assert_eq!(run(&mut r, &mut hw), Action::Finished);
    assert_eq!(r.received().as_slice(), b"late");
    assert_eq!(hw.failed_thre_polls, 6);
}
