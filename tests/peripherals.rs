use cortex_a_rt::gic::{
    CoreMask, Gicc, GiccRegisters, Gicd, GicdBankedRegisters, GicdLocal, GicdSharedRegisters,
    IrqNumber, SgiTarget,
};
use cortex_a_rt::pac::{self, GicdBanked, GicdShared, Uart0, Uart2, Uart3, Uart4, Uart5};
use cortex_a_rt::serial::{
    BaudRateDivisor, Config, FifoConfig, Parity, Serial, SerialBlock, SerialError, StopBits,
    UartRegisters, UartWrite, WordLength,
};

#[test]
fn irq_number_classes() {
    assert!(IrqNumber::new(0).is_sgi());
    assert!(IrqNumber::new(15).is_sgi());
    assert!(!IrqNumber::new(16).is_sgi());
    assert!(IrqNumber::new(31).is_private());
    assert!(!IrqNumber::new(32).is_private());
}

fn shared() -> Gicd {
    Gicd::new(GicdSharedRegisters { isenabler: vec![0; 31], itargetsr: vec![0; 248] })
}

#[test]
fn shared_enable_sets_one_bit() {
    let mut gicd = shared();
    gicd.enable_irq(IrqNumber::new(33));
    assert_eq!(gicd.gicd.isenabler[0], 0b10);
    gicd.enable_irq(IrqNumber::new(32));
    assert_eq!(gicd.gicd.isenabler[0], 0b11);
    gicd.enable_irq(IrqNumber::new(153));
    assert_eq!(gicd.gicd.isenabler[3], 1 << 25);
    assert_eq!(gicd.gicd.isenabler[1], 0);
}

#[test]
fn global_core_mask_routes_all() {
    let mut gicd = shared();
    gicd.set_global_core_mask(CoreMask(0b0001));
    assert!(gicd.gicd.itargetsr.iter().all(|r| *r == 0x0101_0101));
}

fn banked() -> GicdLocal {
    GicdLocal::new(GicdBankedRegisters { isenabler: 0, itargetsr: vec![0x0404_0404; 8], sgir: 0 })
}

#[test]
fn local_distributor() {
    let mut local = banked();
    local.enable_irq(IrqNumber::new(30));
    assert_eq!(local.gicd.isenabler, 1 << 30);
    assert_eq!(local.core_mask(), CoreMask(0x04));
    local.pend_sgi(IrqNumber::new(3), SgiTarget::Mask(CoreMask(0b1010)));
    assert_eq!(local.gicd.sgir, 0x000A_0003);
    local.pend_sgi(IrqNumber::new(1), SgiTarget::AllExceptCurrent);
    assert_eq!(local.gicd.sgir, 0x0100_0001);
    local.pend_sgi(IrqNumber::new(2), SgiTarget::OnlyCurrent);
    assert_eq!(local.gicd.sgir, 0x0200_0002);
}

#[test]
fn cpu_interface() {
    let mut gicc = Gicc::new(GiccRegisters { ctlr: 0, pmr: 0, iar: 0x1C21, eoir: 0 });
    gicc.enable();
    assert_eq!(gicc.gicc.ctlr, 1);
    gicc.set_priority(0xF0);
    assert_eq!(gicc.gicc.pmr, 0xF0);
    assert_eq!(gicc.pending_irq(), 0x21);
    gicc.mark_completed(0x21);
    assert_eq!(gicc.gicc.eoir, 0x21);
    gicc.disable();
    assert_eq!(gicc.gicc.ctlr, 0);
}

#[test]
fn register_block_addresses() {
    assert_eq!(Uart0::ptr(), 0xFE20_1000);
    assert_eq!(Uart2::ptr(), 0xFE20_1400);
    assert_eq!(Uart3::ptr(), 0xFE20_1600);
    assert_eq!(Uart4::ptr(), 0xFE20_1800);
    assert_eq!(Uart5::ptr(), 0xFE20_1A00);
    assert_eq!(pac::Gicc::ptr(), 0xFF84_2000);
    assert_eq!(GicdShared::ptr(), 0xFF84_1000);
    assert_eq!(GicdBanked::ptr(), 0xFF84_1000);
    assert_eq!(pac::Gpio::ptr(), 0xFE20_0000);
    let p = pac::Peripherals::steal();
    let _ = (p.gpio, p.uart0, p.gicc, p.gicd_shared, p.gicd_banked);
}

#[test]
fn config_builders() {
    let c = Config::default();
    assert_eq!(c.baudrate, 19_200);
    assert_eq!(c.wordlength, WordLength::DataBits8);
    assert_eq!(c.parity, Parity::ParityNone);
    assert_eq!(c.stopbits, StopBits::STOP1);
    assert_eq!(c.fifo, FifoConfig::Enabled);
    let c = c.baudrate(115_200).parity_odd().wordlength_7().stopbits(StopBits::STOP2);
    assert_eq!(c.baudrate, 115_200);
    assert_eq!(c.parity, Parity::ParityOdd);
    assert_eq!(c.wordlength, WordLength::DataBits7);
    assert_eq!(c.stopbits, StopBits::STOP2);
    assert_eq!(c.parity_even().parity, Parity::ParityEven);
    assert_eq!(c.parity_none().parity, Parity::ParityNone);
    assert_eq!(c.wordlength_8().wordlength, WordLength::DataBits8);
    assert_eq!(c.wordlength_6().wordlength, WordLength::DataBits6);
    assert_eq!(c.wordlength_5().wordlength, WordLength::DataBits5);
}

#[test]
fn baud_rate_divisor_rounds_to_nearest() {
    // 3_000_000 / 115_200 = 26 + 4_800 / 115_200, and 4_800 * 64 / 115_200 = 2.67.
    assert_eq!(BaudRateDivisor::new(48_000_000, 115_200).fbrd, 3);
    // 3_000_000 / 9_600 = 312.5 exactly: half of 64 is 32.
    assert_eq!(BaudRateDivisor::new(48_000_000, 9_600), BaudRateDivisor { ibrd: 312, fbrd: 32 });
}

#[test]
fn baud_rate_divisor() {
    assert_eq!(BaudRateDivisor::new(48_000_000, 921_600), BaudRateDivisor { ibrd: 3, fbrd: 16 });
    assert_eq!(BaudRateDivisor::new(48_000_000, 115_200), BaudRateDivisor { ibrd: 26, fbrd: 3 });
}

fn idle_uart() -> UartRegisters {
    UartRegisters { dr: 0, rsr_ecr: 0, fr: 0, ibrd: 0, fbrd: 0, lcr_h: 0, cr: 0, icr: 0x7FF }
}

#[test]
fn serial_setup_programs_format() {
    let s = Serial::new(idle_uart(), Config::default(), 48_000_000);
    assert_eq!(s.uart.lcr_h, 0x74);
    assert_eq!(s.uart.cr, 0x301);
    assert_eq!(s.uart.icr, 0);
    assert_eq!(s.uart.ibrd, 156);
    assert_eq!(s.uart.fbrd, 16);
    assert_eq!(
        s.writes,
        vec![
            UartWrite::Cr(0),
            UartWrite::Icr(0),
            UartWrite::Ibrd(156),
            UartWrite::Fbrd(16),
            UartWrite::LcrH(0x74),
            UartWrite::Cr(0x301),
        ]
    );
    let odd = Serial::new(idle_uart(), Config::default().parity_odd().stopbits(StopBits::STOP2), 48_000_000);
    assert_eq!(odd.uart.lcr_h, 0x60 | 0x10 | 0x8 | 0x2);
}

#[test]
fn serial_write_flush_read() {
    let mut s = Serial::new(idle_uart(), Config::default(), 48_000_000);
    assert_eq!(s.write(b'A'), Ok(()));
    assert_eq!(s.uart.dr, 0x41);
    assert_eq!(s.write(0xE9), Ok(()));
    assert_eq!(s.uart.dr, 0xE9);
    assert_eq!(s.writes.len(), 8);
    s.uart.fr = 0x20;
    assert_eq!(s.write(b'B'), Err(SerialBlock::WouldBlock));
    s.uart.fr = 0x8;
    assert_eq!(s.flush(), Err(SerialBlock::WouldBlock));
    s.uart.fr = 0x10;
    assert_eq!(s.read(), Err(SerialBlock::WouldBlock));
    s.uart.fr = 0;
    s.uart.dr = 0x5A;
    assert_eq!(s.flush(), Ok(()));
    assert_eq!(s.read(), Ok(0x5A));
    s.uart.dr = 0xF0 | (1 << 8);
    assert_eq!(s.read(), Ok(0xF0));
    assert_eq!(s.writes.len(), 8);
    s.uart.rsr_ecr = 0b1010;
    assert_eq!(s.read(), Err(SerialBlock::Error(SerialError::Overrun)));
    assert_eq!(s.uart.rsr_ecr, 0);
    assert_eq!(s.writes.last(), Some(&UartWrite::RsrEcr(0)));
    s.uart.rsr_ecr = 0b0110;
    assert_eq!(s.read(), Err(SerialBlock::Error(SerialError::Break)));
    s.uart.rsr_ecr = 0b0010;
    assert_eq!(s.read(), Err(SerialBlock::Error(SerialError::Parity)));
    s.uart.rsr_ecr = 0b0001;
    assert_eq!(s.read(), Err(SerialBlock::Error(SerialError::Framing)));
}
