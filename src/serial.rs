//! The PL011 UART driver: configuration, baud rate divisors, and the register values it
//! programs.
use vstd::prelude::*;

verus! {

/// Data bits per character.
#[derive(Clone, Copy, Debug, PartialEq, Eq, Structural)]
pub enum WordLength {
    DataBits8,
    DataBits7,
    DataBits6,
    DataBits5,
}

/// Parity checking.
#[derive(Clone, Copy, Debug, PartialEq, Eq, Structural)]
pub enum Parity {
    ParityNone,
    ParityEven,
    ParityOdd,
}

/// Stop bits per character.
#[derive(Clone, Copy, Debug, PartialEq, Eq, Structural)]
pub enum StopBits {
    /// 1 stop bit
    STOP1,
    /// 2 stop bits
    STOP2,
}

/// Whether the transmit and receive FIFOs are used.
#[derive(Clone, Copy, Debug, PartialEq, Eq, Structural)]
pub enum FifoConfig {
    Disabled,
    Enabled,
}

/// A UART configuration.
#[derive(Clone, Copy, Debug, PartialEq, Eq, Structural)]
pub struct Config {
    /// Bits per second.
    pub baudrate: u32,
    pub wordlength: WordLength,
    pub parity: Parity,
    pub stopbits: StopBits,
    pub fifo: FifoConfig,
}

impl Config {
    pub fn baudrate(self, baudrate: u32) -> (r: Self)
        ensures
            r == (Config { baudrate, ..self }),
    {
        Config { baudrate, ..self }
    }

    pub fn parity_none(self) -> (r: Self)
        ensures
            r == (Config { parity: Parity::ParityNone, ..self }),
    {
        Config { parity: Parity::ParityNone, ..self }
    }

    pub fn parity_even(self) -> (r: Self)
        ensures
            r == (Config { parity: Parity::ParityEven, ..self }),
    {
        Config { parity: Parity::ParityEven, ..self }
    }

    pub fn parity_odd(self) -> (r: Self)
        ensures
            r == (Config { parity: Parity::ParityOdd, ..self }),
    {
        Config { parity: Parity::ParityOdd, ..self }
    }

    pub fn wordlength_8(self) -> (r: Self)
        ensures
            r == (Config { wordlength: WordLength::DataBits8, ..self }),
    {
        Config { wordlength: WordLength::DataBits8, ..self }
    }

    pub fn wordlength_7(self) -> (r: Self)
        ensures
            r == (Config { wordlength: WordLength::DataBits7, ..self }),
    {
        Config { wordlength: WordLength::DataBits7, ..self }
    }

    pub fn wordlength_6(self) -> (r: Self)
        ensures
            r == (Config { wordlength: WordLength::DataBits6, ..self }),
    {
        Config { wordlength: WordLength::DataBits6, ..self }
    }

    pub fn wordlength_5(self) -> (r: Self)
        ensures
            r == (Config { wordlength: WordLength::DataBits5, ..self }),
    {
        Config { wordlength: WordLength::DataBits5, ..self }
    }

    pub fn stopbits(self, stopbits: StopBits) -> (r: Self)
        ensures
            r == (Config { stopbits, ..self }),
    {
        Config { stopbits, ..self }
    }
}

/// 19200 baud, 8 data bits, no parity, one stop bit, FIFOs on.
pub open spec fn default_config() -> Config {
    Config {
        baudrate: 19_200,
        wordlength: WordLength::DataBits8,
        parity: Parity::ParityNone,
        stopbits: StopBits::STOP1,
        fifo: FifoConfig::Enabled,
    }
}

impl Default for Config {
    fn default() -> (r: Config)
        ensures
            r == default_config(),
    {
        Config {
            baudrate: 19_200,
            wordlength: WordLength::DataBits8,
            parity: Parity::ParityNone,
            stopbits: StopBits::STOP1,
            fifo: FifoConfig::Enabled,
        }
    }
}

/// Integer and fractional baud rate divisors.
#[derive(Clone, Copy, Debug, PartialEq, Eq, Structural)]
pub struct BaudRateDivisor {
    pub ibrd: u32,
    pub fbrd: u32,
}

/// The divisor of `uart_freq / 16` by `baudrate`: its integer part, and its fraction in 64ths,
/// rounded to nearest (`floor(fraction * 64 + 1/2)`).
pub open spec fn spec_baud_rate_divisor(uart_freq: u32, baudrate: u32) -> BaudRateDivisor {
    let base_freq = uart_freq / 16;
    BaudRateDivisor {
        ibrd: base_freq / baudrate,
        fbrd: (((base_freq % baudrate) * 128 + baudrate) / (2 * baudrate)) as u32,
    }
}

/// The divisor computation for `uart_freq` and `baudrate` stays within 32 bits.
pub open spec fn baud_divisor_fits(uart_freq: u32, baudrate: u32) -> bool {
    &&& 0 < baudrate
    &&& 2 * baudrate <= u32::MAX
    &&& ((uart_freq / 16) % baudrate) * 128 + baudrate <= u32::MAX
}

impl BaudRateDivisor {
    pub fn new(uart_freq: u32, baudrate: u32) -> (r: Self)
        requires
            baud_divisor_fits(uart_freq, baudrate),
        ensures
            r == spec_baud_rate_divisor(uart_freq, baudrate),
    {
        let base_freq = uart_freq / 16;
        let ibrd = base_freq / baudrate;
        let remainder = base_freq % baudrate;
        let fbrd = (remainder * 128 + baudrate) / (2 * baudrate);
        BaudRateDivisor { ibrd, fbrd }
    }
}

/// Line control register fields.
pub const LCR_H_WLEN_SHIFT: u32 = 5;
pub const LCR_H_FEN: u32 = 0x10;
pub const LCR_H_STP2: u32 = 0x8;
pub const LCR_H_EPS: u32 = 0x4;
pub const LCR_H_PEN: u32 = 0x2;
/// Control register: UART, transmitter and receiver enabled.
pub const CR_ENABLED: u32 = 0x301;
/// Flag register bits.
pub const FR_TXFF: u32 = 0x20;
pub const FR_RXFE: u32 = 0x10;
pub const FR_BUSY: u32 = 0x8;
/// Receive status register bits.
pub const RSR_OE: u32 = 0x8;
pub const RSR_BE: u32 = 0x4;
pub const RSR_PE: u32 = 0x2;
pub const RSR_FE: u32 = 0x1;

/// The line control value of `config`: word length, FIFOs, stop bits and parity, no break
/// and no stick parity.
pub open spec fn lcr_h_value(config: Config) -> u32 {
    let wlen: u32 = match config.wordlength {
        WordLength::DataBits8 => 0b11,
        WordLength::DataBits7 => 0b10,
        WordLength::DataBits6 => 0b01,
        WordLength::DataBits5 => 0b00,
    };
    let fen: u32 = match config.fifo {
        FifoConfig::Disabled => 0,
        FifoConfig::Enabled => LCR_H_FEN,
    };
    let stp: u32 = match config.stopbits {
        StopBits::STOP1 => 0,
        StopBits::STOP2 => LCR_H_STP2,
    };
    let eps: u32 = match config.parity {
        Parity::ParityOdd => 0,
        _ => LCR_H_EPS,
    };
    let pen: u32 = match config.parity {
        Parity::ParityNone => 0,
        _ => LCR_H_PEN,
    };
    (wlen << LCR_H_WLEN_SHIFT) | fen | stp | eps | pen
}

/// The line control value of `config`.
pub fn line_control_value(config: &Config) -> (r: u32)
    ensures
        r == lcr_h_value(*config),
{
    let wlen: u32 = match config.wordlength {
        WordLength::DataBits8 => 0b11,
        WordLength::DataBits7 => 0b10,
        WordLength::DataBits6 => 0b01,
        WordLength::DataBits5 => 0b00,
    };
    let fen: u32 = match config.fifo {
        FifoConfig::Disabled => 0,
        FifoConfig::Enabled => LCR_H_FEN,
    };
    let stp: u32 = match config.stopbits {
        StopBits::STOP1 => 0,
        StopBits::STOP2 => LCR_H_STP2,
    };
    let eps: u32 = match config.parity {
        Parity::ParityOdd => 0,
        _ => LCR_H_EPS,
    };
    let pen: u32 = match config.parity {
        Parity::ParityNone => 0,
        _ => LCR_H_PEN,
    };
    (wlen << LCR_H_WLEN_SHIFT) | fen | stp | eps | pen
}

/// The PL011 registers that the driver uses.
#[derive(Clone, Copy, Debug, PartialEq, Eq, Structural)]
pub struct UartRegisters {
    pub dr: u32,
    pub rsr_ecr: u32,
    pub fr: u32,
    pub ibrd: u32,
    pub fbrd: u32,
    pub lcr_h: u32,
    pub cr: u32,
    pub icr: u32,
}

/// Receive errors.
#[derive(Clone, Copy, Debug, PartialEq, Eq, Structural)]
pub enum SerialError {
    Overrun,
    Break,
    Parity,
    Framing,
}

/// Why a non-blocking UART operation did not complete.
#[derive(Clone, Copy, Debug, PartialEq, Eq, Structural)]
pub enum SerialBlock {
    /// Not ready yet; try again.
    WouldBlock,
    /// Failed.
    Error(SerialError),
}

/// One register write to a PL011.
#[derive(Clone, Copy, Debug, PartialEq, Eq, Structural)]
pub enum UartWrite {
    Dr(u32),
    RsrEcr(u32),
    Ibrd(u32),
    Fbrd(u32),
    LcrH(u32),
    Cr(u32),
    Icr(u32),
}

/// The registers after `w`.
pub open spec fn uart_after(u: UartRegisters, w: UartWrite) -> UartRegisters {
    match w {
        UartWrite::Dr(v) => UartRegisters { dr: v, ..u },
        UartWrite::RsrEcr(v) => UartRegisters { rsr_ecr: v, ..u },
        UartWrite::Ibrd(v) => UartRegisters { ibrd: v, ..u },
        UartWrite::Fbrd(v) => UartRegisters { fbrd: v, ..u },
        UartWrite::LcrH(v) => UartRegisters { lcr_h: v, ..u },
        UartWrite::Cr(v) => UartRegisters { cr: v, ..u },
        UartWrite::Icr(v) => UartRegisters { icr: v, ..u },
    }
}

/// Performs `w` on `uart` and records it in `writes`.
fn write_register(uart: &mut UartRegisters, writes: &mut Vec<UartWrite>, w: UartWrite)
    ensures
        *final(uart) == uart_after(*old(uart), w),
        final(writes)@ == old(writes)@.push(w),
{
    match w {
        UartWrite::Dr(v) => {
            uart.dr = v;
        },
        UartWrite::RsrEcr(v) => {
            uart.rsr_ecr = v;
        },
        UartWrite::Ibrd(v) => {
            uart.ibrd = v;
        },
        UartWrite::Fbrd(v) => {
            uart.fbrd = v;
        },
        UartWrite::LcrH(v) => {
            uart.lcr_h = v;
        },
        UartWrite::Cr(v) => {
            uart.cr = v;
        },
        UartWrite::Icr(v) => {
            uart.icr = v;
        },
    }
    writes.push(w);
}

/// The setup sequence for divisors `ibrd`, `fbrd` and line control `lcr_h`: UART off, interrupts
/// cleared, the divisors, then the line control write that latches them, and finally UART,
/// transmitter and receiver on.
pub open spec fn setup_sequence(ibrd: u32, fbrd: u32, lcr_h: u32) -> Seq<UartWrite> {
    seq![
        UartWrite::Cr(0),
        UartWrite::Icr(0),
        UartWrite::Ibrd(ibrd & 0xFFFF),
        UartWrite::Fbrd(fbrd & 0x3F),
        UartWrite::LcrH(lcr_h),
        UartWrite::Cr(CR_ENABLED),
    ]
}

/// The registers after the setup sequence.
pub open spec fn after_setup(u: UartRegisters, ibrd: u32, fbrd: u32, lcr_h: u32) -> UartRegisters {
    UartRegisters { icr: 0, ibrd: ibrd & 0xFFFF, fbrd: fbrd & 0x3F, lcr_h, cr: CR_ENABLED, ..u }
}

/// Performs the setup sequence.
fn set_up(uart: &mut UartRegisters, writes: &mut Vec<UartWrite>, ibrd: u32, fbrd: u32, lcr_h: u32)
    ensures
        *final(uart) == after_setup(*old(uart), ibrd, fbrd, lcr_h),
        final(writes)@ == old(writes)@ + setup_sequence(ibrd, fbrd, lcr_h),
{
    write_register(uart, writes, UartWrite::Cr(0));
    write_register(uart, writes, UartWrite::Icr(0));
    write_register(uart, writes, UartWrite::Ibrd(ibrd & 0xFFFF));
    write_register(uart, writes, UartWrite::Fbrd(fbrd & 0x3F));
    write_register(uart, writes, UartWrite::LcrH(lcr_h));
    write_register(uart, writes, UartWrite::Cr(CR_ENABLED));
    assert(writes@ =~= old(writes)@ + setup_sequence(ibrd, fbrd, lcr_h));
}

/// A configured UART, with the record of the writes made to it, in order.
pub struct Serial {
    pub uart: UartRegisters,
    pub writes: Vec<UartWrite>,
}

/// The registers after a receive error was reported: the error status cleared.
pub open spec fn rsr_cleared(u: UartRegisters) -> UartRegisters {
    UartRegisters { rsr_ecr: 0, ..u }
}

impl Serial {
    /// Disables the UART, clears its interrupts, programs the divisors for `uart_freq` and then
    /// the line format of `config` (which latches the divisors), and last enables it with
    /// transmitter and receiver on.
    pub fn new(uart: UartRegisters, config: Config, uart_freq: u32) -> (r: Self)
        requires
            baud_divisor_fits(uart_freq, config.baudrate),
        ensures
            r.writes@ == setup_sequence(
                spec_baud_rate_divisor(uart_freq, config.baudrate).ibrd,
                spec_baud_rate_divisor(uart_freq, config.baudrate).fbrd,
                lcr_h_value(config),
            ),
            r.uart == after_setup(
                uart,
                spec_baud_rate_divisor(uart_freq, config.baudrate).ibrd,
                spec_baud_rate_divisor(uart_freq, config.baudrate).fbrd,
                lcr_h_value(config),
            ),
    {
        let mut uart = uart;
        let mut writes: Vec<UartWrite> = Vec::new();
        let brd = BaudRateDivisor::new(uart_freq, config.baudrate);
        let lcr_h = line_control_value(&config);
        set_up(&mut uart, &mut writes, brd.ibrd, brd.fbrd, lcr_h);
        assert(writes@ =~= setup_sequence(brd.ibrd, brd.fbrd, lcr_h));
        Serial { uart, writes }
    }

    /// Sends `b` unless the transmit FIFO is full.
    pub fn write(&mut self, b: u8) -> (r: Result<(), SerialBlock>)
        ensures
            old(self).uart.fr & FR_TXFF != 0 ==> r == Err::<(), SerialBlock>(SerialBlock::WouldBlock)
                && final(self).uart == old(self).uart && final(self).writes@ == old(self).writes@,
            old(self).uart.fr & FR_TXFF == 0 ==> r is Ok && final(self).uart == uart_after(
                old(self).uart,
                UartWrite::Dr((b as u32) & 0xFF),
            ) && final(self).writes@ == old(self).writes@.push(UartWrite::Dr((b as u32) & 0xFF)),
    {
        if self.uart.fr & FR_TXFF != 0 {
            return Err(SerialBlock::WouldBlock);
        }
        write_register(&mut self.uart, &mut self.writes, UartWrite::Dr((b as u32) & 0xFF));
        Ok(())
    }

    /// Completes once the UART is no longer busy.
    pub fn flush(&mut self) -> (r: Result<(), SerialBlock>)
        ensures
            r == if old(self).uart.fr & FR_BUSY != 0 {
                Err::<(), SerialBlock>(SerialBlock::WouldBlock)
            } else {
                Ok(())
            },
            final(self).uart == old(self).uart,
            final(self).writes@ == old(self).writes@,
    {
        if self.uart.fr & FR_BUSY != 0 {
            return Err(SerialBlock::WouldBlock);
        }
        Ok(())
    }

    /// Receives a byte: a pending receive error first (overrun, break, parity, framing, in that
    /// order), whose status it clears; else nothing while the receive FIFO is empty; else the
    /// data.
    pub fn read(&mut self) -> (r: Result<u8, SerialBlock>)
        ensures
            ({
                let rsr = old(self).uart.rsr_ecr;
                let error = rsr & (RSR_OE | RSR_BE | RSR_PE | RSR_FE) != 0;
                &&& rsr & RSR_OE != 0 ==> r == Err::<u8, SerialBlock>(
                    SerialBlock::Error(SerialError::Overrun),
                )
                &&& rsr & RSR_OE == 0 && rsr & RSR_BE != 0 ==> r == Err::<u8, SerialBlock>(
                    SerialBlock::Error(SerialError::Break),
                )
                &&& rsr & RSR_OE == 0 && rsr & RSR_BE == 0 && rsr & RSR_PE != 0 ==> r == Err::<
                    u8,
                    SerialBlock,
                >(SerialBlock::Error(SerialError::Parity))
                &&& rsr & RSR_OE == 0 && rsr & RSR_BE == 0 && rsr & RSR_PE == 0 && rsr & RSR_FE
                    != 0 ==> r == Err::<u8, SerialBlock>(SerialBlock::Error(SerialError::Framing))
                &&& error ==> final(self).uart == rsr_cleared(old(self).uart)
                    && final(self).writes@ == old(self).writes@.push(UartWrite::RsrEcr(0))
                &&& !error ==> final(self).uart == old(self).uart && final(self).writes@ == old(
                    self,
                ).writes@
                &&& !error && old(self).uart.fr & FR_RXFE != 0 ==> r == Err::<u8, SerialBlock>(
                    SerialBlock::WouldBlock,
                )
                &&& !error && old(self).uart.fr & FR_RXFE == 0 ==> r == Ok::<u8, SerialBlock>(
                    (old(self).uart.dr & 0xFF) as u8,
                )
            }),
    {
        let rsr = self.uart.rsr_ecr;
        assert(((rsr & (RSR_OE | RSR_BE | RSR_PE | RSR_FE)) != 0) == (rsr & RSR_OE != 0 || rsr
            & RSR_BE != 0 || rsr & RSR_PE != 0 || rsr & RSR_FE != 0)) by (bit_vector);
        let error = if rsr & RSR_OE != 0 {
            Some(SerialError::Overrun)
        } else if rsr & RSR_BE != 0 {
            Some(SerialError::Break)
        } else if rsr & RSR_PE != 0 {
            Some(SerialError::Parity)
        } else if rsr & RSR_FE != 0 {
            Some(SerialError::Framing)
        } else {
            None
        };
        match error {
            Some(e) => {
                write_register(&mut self.uart, &mut self.writes, UartWrite::RsrEcr(0));
                Err(SerialBlock::Error(e))
            },
            None => {
                if self.uart.fr & FR_RXFE != 0 {
                    Err(SerialBlock::WouldBlock)
                } else {
                    let dr: u32 = self.uart.dr;
                    let data: u32 = dr & 0xFF;
                    assert(data <= 0xFF) by (bit_vector)
                        requires
                            data == dr & 0xFF,
                    ;
                    Ok(data as u8)
                }
            },
        }
    }
}

/// The early, fixed-format PL011 driver: 8 data bits with FIFOs, divisors for 921600 baud
/// from a 48 MHz clock.
pub struct PL011Uart {
    pub uart: UartRegisters,
    pub writes: Vec<UartWrite>,
}

/// Line control of the early driver: 8 data bits, FIFOs on.
pub const PL011_LCR_H: u32 = (0b11 << 5) | LCR_H_FEN;

impl PL011Uart {
    pub fn new(uart: UartRegisters) -> (r: Self)
        ensures
            r.uart == uart,
            r.writes@ == Seq::<UartWrite>::empty(),
    {
        PL011Uart { uart, writes: Vec::new() }
    }

    /// Programs the UART once it has drained, in the same order as `Serial::new`; while it is
    /// busy, nothing is written.
    pub fn init(&mut self) -> (r: Result<(), SerialBlock>)
        ensures
            old(self).uart.fr & FR_BUSY != 0 ==> r == Err::<(), SerialBlock>(SerialBlock::WouldBlock)
                && final(self).uart == old(self).uart && final(self).writes@ == old(self).writes@,
            old(self).uart.fr & FR_BUSY == 0 ==> r is Ok && final(self).uart == after_setup(
                old(self).uart,
                3,
                16,
                PL011_LCR_H,
            ) && final(self).writes@ == old(self).writes@ + setup_sequence(3, 16, PL011_LCR_H),
    {
        if self.flush_tx().is_err() {
            return Err(SerialBlock::WouldBlock);
        }
        set_up(&mut self.uart, &mut self.writes, 3, 16, PL011_LCR_H);
        Ok(())
    }

    /// Sends `b` unless the transmit FIFO is full.
    pub fn write_byte(&mut self, b: u8) -> (r: Result<(), SerialBlock>)
        ensures
            old(self).uart.fr & FR_TXFF != 0 ==> r == Err::<(), SerialBlock>(SerialBlock::WouldBlock)
                && final(self).uart == old(self).uart && final(self).writes@ == old(self).writes@,
            old(self).uart.fr & FR_TXFF == 0 ==> r is Ok && final(self).uart == uart_after(
                old(self).uart,
                UartWrite::Dr(b as u32),
            ) && final(self).writes@ == old(self).writes@.push(UartWrite::Dr(b as u32)),
    {
        if self.uart.fr & FR_TXFF != 0 {
            return Err(SerialBlock::WouldBlock);
        }
        write_register(&mut self.uart, &mut self.writes, UartWrite::Dr(b as u32));
        Ok(())
    }

    /// Completes once the UART is no longer busy.
    pub fn flush_tx(&self) -> (r: Result<(), SerialBlock>)
        ensures
            r == if self.uart.fr & FR_BUSY != 0 {
                Err::<(), SerialBlock>(SerialBlock::WouldBlock)
            } else {
                Ok(())
            },
    {
        if self.uart.fr & FR_BUSY != 0 {
            return Err(SerialBlock::WouldBlock);
        }
        Ok(())
    }

    /// Receives a byte unless the receive FIFO is empty.
    pub fn read_byte(&mut self) -> (r: Result<u8, SerialBlock>)
        ensures
            r == if old(self).uart.fr & FR_RXFE != 0 {
                Err::<u8, SerialBlock>(SerialBlock::WouldBlock)
            } else {
                Ok::<u8, SerialBlock>(old(self).uart.dr as u8)
            },
            final(self).uart == old(self).uart,
            final(self).writes@ == old(self).writes@,
    {
        if self.uart.fr & FR_RXFE != 0 {
            return Err(SerialBlock::WouldBlock);
        }
        Ok(self.uart.dr as u8)
    }
}

} // verus!
