use cortex_a_rt::entry::prepare_el2_to_el1_transition;
use cortex_a_rt::gpio::{Gpio, GpioMode, GpioRegisters, GpioResistor, Pin, PinError};
use cortex_a_rt::serial::{PL011Uart, SerialBlock, UartRegisters, UartWrite};

fn gpio() -> Gpio {
    Gpio::new(GpioRegisters {
        gpfsel: vec![0xFFFF_FFFF; 6],
        gpset: vec![0; 2],
        gpclr: vec![0; 2],
        gplev: vec![0; 2],
        gpio_pup_pdn_cntrl_reg: vec![0; 4],
    })
}

#[test]
fn set_mode_replaces_one_field() {
    let mut g = gpio();
    g.set_mode(14, GpioMode::AltFunc0);
    assert_eq!(g.gpio.gpfsel[1], 0xFFFF_FFFF & !(0b111 << 12) | (0b100 << 12));
    g.set_mode(57, GpioMode::Output);
    assert_eq!(g.gpio.gpfsel[5], 0xFFFF_FFFF & !(0b111 << 21) | (0b001 << 21));
    assert_eq!(g.gpio.gpfsel[0], 0xFFFF_FFFF);
}

#[test]
fn set_resistor_replaces_one_field() {
    let mut g = gpio();
    g.set_resistor(17, GpioResistor::PullDown);
    assert_eq!(g.gpio.gpio_pup_pdn_cntrl_reg[1], 0b10 << 2);
    g.set_resistor(17, GpioResistor::Floating);
    assert_eq!(g.gpio.gpio_pup_pdn_cntrl_reg[1], 0);
}

#[test]
fn set_and_clear_registers() {
    let mut g = gpio();
    g.set_high(40);
    assert_eq!(g.gpio.gpset[1], 1 << 8);
    g.set_low(3);
    assert_eq!(g.gpio.gpclr[0], 1 << 3);
    g.gpio.gplev[0] = 1 << 5;
    assert!(g.is_high(5));
    assert!(g.is_low(6));
}

#[test]
fn map_pl011_uart_pins() {
    let mut g = gpio();
    g.map_pl011_uart();
    assert_eq!((g.gpio.gpfsel[1] >> 12) & 0b111, 0b100);
    assert_eq!((g.gpio.gpfsel[1] >> 15) & 0b111, 0b100);
    assert_eq!(g.gpio.gpio_pup_pdn_cntrl_reg[0], (0b01 << 28) | (0b01 << 30));
}

#[test]
fn pins_track_their_configuration() {
    let mut g = gpio();
    let p = Pin::new(21);
    assert_eq!(p.set_high(&mut g), Err(PinError::NotOutput));
    assert_eq!(g.gpio.gpset, vec![0, 0]);
    let p = p.into_mode(&mut g, GpioMode::Output).into_resistor(&mut g, GpioResistor::PullUp);
    assert_eq!(p.mode, GpioMode::Output);
    assert_eq!(p.resistor, GpioResistor::PullUp);
    assert_eq!(p.set_high(&mut g), Ok(()));
    assert_eq!(g.gpio.gpset[0], 1 << 21);
    assert_eq!(p.set_low(&mut g), Ok(()));
    assert_eq!(g.gpio.gpclr[0], 1 << 21);
    g.gpio.gplev[0] = 1 << 21;
    g.gpio.gpclr[0] = 0;
    assert_eq!(p.toggle(&mut g), Ok(()));
    assert_eq!(g.gpio.gpclr[0], 1 << 21);
}

#[test]
fn el2_to_el1_transition_values() {
    let t = prepare_el2_to_el1_transition(0x8_0000, 0x8_1000);
    assert_eq!(t.cnthctl_el2, 0b11);
    assert_eq!(t.cntvoff_el2, 0);
    assert_eq!(t.hcr_el2, 1 << 31);
    assert_eq!(t.spsr_el2, 0x3C5);
    assert_eq!(t.elr_el2, 0x8_1000);
    assert_eq!(t.sp_el1, 0x8_0000);
}

#[test]
fn early_pl011_driver() {
    let regs = UartRegisters { dr: 0, rsr_ecr: 0, fr: 0x8, ibrd: 0, fbrd: 0, lcr_h: 0, cr: 0, icr: 1 };
    let mut u = PL011Uart::new(regs);
    assert_eq!(u.init(), Err(SerialBlock::WouldBlock));
    assert_eq!(u.uart.cr, 0);
    u.uart.fr = 0;
    assert_eq!(u.init(), Ok(()));
    assert_eq!((u.uart.ibrd, u.uart.fbrd, u.uart.lcr_h, u.uart.cr), (3, 16, 0x70, 0x301));
    assert_eq!(
        u.writes,
        vec![
            UartWrite::Cr(0),
            UartWrite::Icr(0),
            UartWrite::Ibrd(3),
            UartWrite::Fbrd(16),
            UartWrite::LcrH(0x70),
            UartWrite::Cr(0x301),
        ]
    );
    assert_eq!(u.write_byte(0xC3), Ok(()));
    assert_eq!(u.uart.dr, 0xC3);
    assert_eq!(u.read_byte(), Ok(0xC3));
    u.uart.fr = 0x10;
    assert_eq!(u.read_byte(), Err(SerialBlock::WouldBlock));
    u.uart.fr = 0x20;
    assert_eq!(u.write_byte(1), Err(SerialBlock::WouldBlock));
    assert_eq!(u.flush_tx(), Ok(()));
}

#[test]
fn core_id_from_affinity() {
    assert_eq!(cortex_a_rt::entry::core_id(0x8000_0003), 3);
    assert_eq!(cortex_a_rt::entry::core_id(0x8000_0100), 0);
}
