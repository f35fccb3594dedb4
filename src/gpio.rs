//! The GPIO controller of the BCM2711, over the values of its registers, and pins whose
//! configuration is tracked at run time.
use vstd::prelude::*;

verus! {

/// Number of GPIO pins.
pub const NUM_GPIO_PINS: u8 = 58;

/// Pin function.
#[derive(Clone, Copy, Debug, PartialEq, Eq, Structural)]
pub enum GpioMode {
    Input,
    Output,
    AltFunc0,
    AltFunc1,
    AltFunc2,
    AltFunc3,
    AltFunc4,
    AltFunc5,
}

/// Pull resistor of a pin.
#[derive(Clone, Copy, Debug, PartialEq, Eq, Structural)]
pub enum GpioResistor {
    Floating,
    PullUp,
    PullDown,
}

/// The function select encoding of a mode.
pub open spec fn spec_mode_bits(mode: GpioMode) -> u32 {
    match mode {
        GpioMode::Input => 0b000,
        GpioMode::Output => 0b001,
        GpioMode::AltFunc0 => 0b100,
        GpioMode::AltFunc1 => 0b101,
        GpioMode::AltFunc2 => 0b110,
        GpioMode::AltFunc3 => 0b111,
        GpioMode::AltFunc4 => 0b011,
        GpioMode::AltFunc5 => 0b010,
    }
}

/// The function select encoding of a mode.
pub fn mode_bits(mode: GpioMode) -> (r: u32)
    ensures
        r == spec_mode_bits(mode),
{
    match mode {
        GpioMode::Input => 0b000,
        GpioMode::Output => 0b001,
        GpioMode::AltFunc0 => 0b100,
        GpioMode::AltFunc1 => 0b101,
        GpioMode::AltFunc2 => 0b110,
        GpioMode::AltFunc3 => 0b111,
        GpioMode::AltFunc4 => 0b011,
        GpioMode::AltFunc5 => 0b010,
    }
}

/// The pull control encoding of a resistor setting.
pub open spec fn spec_resistor_bits(res: GpioResistor) -> u32 {
    match res {
        GpioResistor::Floating => 0b00,
        GpioResistor::PullUp => 0b01,
        GpioResistor::PullDown => 0b10,
    }
}

/// The pull control encoding of a resistor setting.
pub fn resistor_bits(res: GpioResistor) -> (r: u32)
    ensures
        r == spec_resistor_bits(res),
{
    match res {
        GpioResistor::Floating => 0b00,
        GpioResistor::PullUp => 0b01,
        GpioResistor::PullDown => 0b10,
    }
}

/// `old` with the `width_mask` field at `shift` replaced by `value`.
pub open spec fn with_field(old: u32, width_mask: u32, shift: u32, value: u32) -> u32 {
    (old & !(width_mask << shift)) | ((value & width_mask) << shift)
}

/// The GPIO registers that the driver uses.
pub struct GpioRegisters {
    /// Function select, ten pins per register.
    pub gpfsel: Vec<u32>,
    /// Output set, one bit per pin.
    pub gpset: Vec<u32>,
    /// Output clear, one bit per pin.
    pub gpclr: Vec<u32>,
    /// Pin level, one bit per pin.
    pub gplev: Vec<u32>,
    /// Pull-up / pull-down control, sixteen pins per register.
    pub gpio_pup_pdn_cntrl_reg: Vec<u32>,
}

/// The GPIO controller.
pub struct Gpio {
    pub gpio: GpioRegisters,
}

impl Gpio {
    pub open spec fn wf(&self) -> bool {
        &&& self.gpio.gpfsel@.len() == 6
        &&& self.gpio.gpset@.len() == 2
        &&& self.gpio.gpclr@.len() == 2
        &&& self.gpio.gplev@.len() == 2
        &&& self.gpio.gpio_pup_pdn_cntrl_reg@.len() == 4
    }

    /// Whether pin `pin` reads low.
    pub open spec fn spec_is_low(&self, pin: u8) -> bool {
        self.gpio.gplev@[(pin / 32) as int] & (1u32 << (pin % 32) as u32) == 0
    }

    pub fn new(gpio: GpioRegisters) -> (r: Self)
        ensures
            r.gpio == gpio,
    {
        Gpio { gpio }
    }

    /// Sets the function of pin `pin`, leaving the other pins'.
    pub fn set_mode(&mut self, pin: u8, mode: GpioMode)
        requires
            old(self).wf(),
            pin < NUM_GPIO_PINS,
        ensures
            final(self).wf(),
            final(self).gpio.gpfsel@ == old(self).gpio.gpfsel@.update(
                (pin / 10) as int,
                with_field(
                    old(self).gpio.gpfsel@[(pin / 10) as int],
                    0b111,
                    ((pin % 10) * 3) as u32,
                    spec_mode_bits(mode),
                ),
            ),
            final(self).gpio.gpset@ == old(self).gpio.gpset@,
            final(self).gpio.gpclr@ == old(self).gpio.gpclr@,
            final(self).gpio.gplev@ == old(self).gpio.gplev@,
            final(self).gpio.gpio_pup_pdn_cntrl_reg@ == old(self).gpio.gpio_pup_pdn_cntrl_reg@,
    {
        let i: usize = (pin / 10) as usize;
        let shift: u32 = ((pin % 10) * 3) as u32;
        let old_value = self.gpio.gpfsel[i];
        let v = (old_value & !(0b111u32 << shift)) | ((mode_bits(mode) & 0b111) << shift);
        self.gpio.gpfsel.set(i, v);
    }

    /// Sets the pull resistor of pin `pin`, leaving the other pins'.
    pub fn set_resistor(&mut self, pin: u8, res: GpioResistor)
        requires
            old(self).wf(),
            pin < NUM_GPIO_PINS,
        ensures
            final(self).wf(),
            final(self).gpio.gpio_pup_pdn_cntrl_reg@ == old(
                self,
            ).gpio.gpio_pup_pdn_cntrl_reg@.update(
                (pin / 16) as int,
                with_field(
                    old(self).gpio.gpio_pup_pdn_cntrl_reg@[(pin / 16) as int],
                    0b11,
                    ((pin % 16) * 2) as u32,
                    spec_resistor_bits(res),
                ),
            ),
            final(self).gpio.gpfsel@ == old(self).gpio.gpfsel@,
            final(self).gpio.gpset@ == old(self).gpio.gpset@,
            final(self).gpio.gpclr@ == old(self).gpio.gpclr@,
            final(self).gpio.gplev@ == old(self).gpio.gplev@,
    {
        let i: usize = (pin / 16) as usize;
        let shift: u32 = ((pin % 16) * 2) as u32;
        let old_value = self.gpio.gpio_pup_pdn_cntrl_reg[i];
        let v = (old_value & !(0b11u32 << shift)) | ((resistor_bits(res) & 0b11) << shift);
        self.gpio.gpio_pup_pdn_cntrl_reg.set(i, v);
    }

    /// Drives pin `pin` high: writes its bit, alone, to the set register.
    pub fn set_high(&mut self, pin: u8)
        requires
            old(self).wf(),
            pin < NUM_GPIO_PINS,
        ensures
            final(self).wf(),
            final(self).gpio.gpset@ == old(self).gpio.gpset@.update(
                (pin / 32) as int,
                1u32 << (pin % 32) as u32,
            ),
            final(self).gpio.gpfsel@ == old(self).gpio.gpfsel@,
            final(self).gpio.gpclr@ == old(self).gpio.gpclr@,
            final(self).gpio.gplev@ == old(self).gpio.gplev@,
            final(self).gpio.gpio_pup_pdn_cntrl_reg@ == old(self).gpio.gpio_pup_pdn_cntrl_reg@,
    {
        let i: usize = (pin / 32) as usize;
        self.gpio.gpset.set(i, 1u32 << ((pin % 32) as u32));
    }

    /// Drives pin `pin` low: writes its bit, alone, to the clear register.
    pub fn set_low(&mut self, pin: u8)
        requires
            old(self).wf(),
            pin < NUM_GPIO_PINS,
        ensures
            final(self).wf(),
            final(self).gpio.gpclr@ == old(self).gpio.gpclr@.update(
                (pin / 32) as int,
                1u32 << (pin % 32) as u32,
            ),
            final(self).gpio.gpfsel@ == old(self).gpio.gpfsel@,
            final(self).gpio.gpset@ == old(self).gpio.gpset@,
            final(self).gpio.gplev@ == old(self).gpio.gplev@,
            final(self).gpio.gpio_pup_pdn_cntrl_reg@ == old(self).gpio.gpio_pup_pdn_cntrl_reg@,
    {
        let i: usize = (pin / 32) as usize;
        self.gpio.gpclr.set(i, 1u32 << ((pin % 32) as u32));
    }

    /// Whether pin `pin` reads low.
    pub fn is_low(&self, pin: u8) -> (r: bool)
        requires
            self.wf(),
            pin < NUM_GPIO_PINS,
        ensures
            r == self.spec_is_low(pin),
    {
        let i: usize = (pin / 32) as usize;
        self.gpio.gplev[i] & (1u32 << ((pin % 32) as u32)) == 0
    }

    /// Whether pin `pin` reads high.
    pub fn is_high(&self, pin: u8) -> (r: bool)
        requires
            self.wf(),
            pin < NUM_GPIO_PINS,
        ensures
            r == !self.spec_is_low(pin),
    {
        !self.is_low(pin)
    }

    /// Routes the PL011 UART to pins 14 (TX) and 15 (RX), with pull-ups.
    pub fn map_pl011_uart(&mut self)
        requires
            old(self).wf(),
        ensures
            final(self).wf(),
            final(self).gpio.gpfsel@ == old(self).gpio.gpfsel@.update(
                1,
                with_field(
                    with_field(old(self).gpio.gpfsel@[1], 0b111, 12, spec_mode_bits(GpioMode::AltFunc0)),
                    0b111,
                    15,
                    spec_mode_bits(GpioMode::AltFunc0),
                ),
            ),
            final(self).gpio.gpio_pup_pdn_cntrl_reg@ == old(
                self,
            ).gpio.gpio_pup_pdn_cntrl_reg@.update(
                0,
                with_field(
                    with_field(
                        old(self).gpio.gpio_pup_pdn_cntrl_reg@[0],
                        0b11,
                        28,
                        spec_resistor_bits(GpioResistor::PullUp),
                    ),
                    0b11,
                    30,
                    spec_resistor_bits(GpioResistor::PullUp),
                ),
            ),
    {
        self.set_mode(14, GpioMode::AltFunc0);
        self.set_mode(15, GpioMode::AltFunc0);
        self.set_resistor(14, GpioResistor::PullUp);
        self.set_resistor(15, GpioResistor::PullUp);
    }
}

/// A pin with the configuration it was last given.
#[derive(Clone, Copy, Debug, PartialEq, Eq, Structural)]
pub struct Pin {
    pub index: u8,
    pub mode: GpioMode,
    pub resistor: GpioResistor,
}

/// A pin operation that its configuration does not allow.
#[derive(Clone, Copy, Debug, PartialEq, Eq, Structural)]
pub enum PinError {
    NotOutput,
}

impl Pin {
    /// Pin `index` as it comes out of reset: an input without pull resistor.
    pub fn new(index: u8) -> (r: Self)
        requires
            index < NUM_GPIO_PINS,
        ensures
            r == (Pin { index, mode: GpioMode::Input, resistor: GpioResistor::Floating }),
    {
        Pin { index, mode: GpioMode::Input, resistor: GpioResistor::Floating }
    }

    pub open spec fn wf(&self) -> bool {
        self.index < NUM_GPIO_PINS
    }

    /// Gives the pin the function `mode`.
    pub fn into_mode(self, gpio: &mut Gpio, mode: GpioMode) -> (r: Self)
        requires
            self.wf(),
            old(gpio).wf(),
        ensures
            r == (Pin { mode, ..self }),
            final(gpio).wf(),
            final(gpio).gpio.gpfsel@ == old(gpio).gpio.gpfsel@.update(
                (self.index / 10) as int,
                with_field(
                    old(gpio).gpio.gpfsel@[(self.index / 10) as int],
                    0b111,
                    ((self.index % 10) * 3) as u32,
                    spec_mode_bits(mode),
                ),
            ),
            final(gpio).gpio.gpio_pup_pdn_cntrl_reg@ == old(gpio).gpio.gpio_pup_pdn_cntrl_reg@,
    {
        gpio.set_mode(self.index, mode);
        Pin { mode, ..self }
    }

    /// Gives the pin the pull resistor setting `res`.
    pub fn into_resistor(self, gpio: &mut Gpio, res: GpioResistor) -> (r: Self)
        requires
            self.wf(),
            old(gpio).wf(),
        ensures
            r == (Pin { resistor: res, ..self }),
            final(gpio).wf(),
            final(gpio).gpio.gpio_pup_pdn_cntrl_reg@ == old(
                gpio,
            ).gpio.gpio_pup_pdn_cntrl_reg@.update(
                (self.index / 16) as int,
                with_field(
                    old(gpio).gpio.gpio_pup_pdn_cntrl_reg@[(self.index / 16) as int],
                    0b11,
                    ((self.index % 16) * 2) as u32,
                    spec_resistor_bits(res),
                ),
            ),
            final(gpio).gpio.gpfsel@ == old(gpio).gpio.gpfsel@,
    {
        gpio.set_resistor(self.index, res);
        Pin { resistor: res, ..self }
    }

    /// Drives an output pin high; any other pin is refused and nothing is written.
    pub fn set_high(&self, gpio: &mut Gpio) -> (r: Result<(), PinError>)
        requires
            self.wf(),
            old(gpio).wf(),
        ensures
            final(gpio).wf(),
            self.mode == GpioMode::Output ==> r is Ok && final(gpio).gpio.gpset@ == old(
                gpio,
            ).gpio.gpset@.update(
                (self.index / 32) as int, 1u32 << (self.index % 32) as u32)
                && final(gpio).gpio.gpclr@ == old(gpio).gpio.gpclr@,
            self.mode != GpioMode::Output ==> r == Err::<(), PinError>(PinError::NotOutput)
                && final(gpio).gpio.gpset@ == old(gpio).gpio.gpset@ && final(gpio).gpio.gpclr@
                == old(gpio).gpio.gpclr@,
    {
        if self.mode != GpioMode::Output {
            return Err(PinError::NotOutput);
        }
        gpio.set_high(self.index);
        Ok(())
    }

    /// Drives an output pin low; any other pin is refused and nothing is written.
    pub fn set_low(&self, gpio: &mut Gpio) -> (r: Result<(), PinError>)
        requires
            self.wf(),
            old(gpio).wf(),
        ensures
            final(gpio).wf(),
            self.mode == GpioMode::Output ==> r is Ok && final(gpio).gpio.gpclr@ == old(
                gpio,
            ).gpio.gpclr@.update(
                (self.index / 32) as int, 1u32 << (self.index % 32) as u32)
                && final(gpio).gpio.gpset@ == old(gpio).gpio.gpset@,
            self.mode != GpioMode::Output ==> r == Err::<(), PinError>(PinError::NotOutput)
                && final(gpio).gpio.gpset@ == old(gpio).gpio.gpset@ && final(gpio).gpio.gpclr@
                == old(gpio).gpio.gpclr@,
    {
        if self.mode != GpioMode::Output {
            return Err(PinError::NotOutput);
        }
        gpio.set_low(self.index);
        Ok(())
    }

    /// Drives an output pin to the opposite of the level it reads.
    pub fn toggle(&self, gpio: &mut Gpio) -> (r: Result<(), PinError>)
        requires
            self.wf(),
            old(gpio).wf(),
        ensures
            final(gpio).wf(),
            self.mode == GpioMode::Output && old(gpio).spec_is_low(self.index) ==> r is Ok
                && final(gpio).gpio.gpset@ == old(gpio).gpio.gpset@.update(
                (self.index / 32) as int,
                1u32 << (self.index % 32) as u32,
            ) && final(gpio).gpio.gpclr@ == old(gpio).gpio.gpclr@,
            self.mode == GpioMode::Output && !old(gpio).spec_is_low(self.index) ==> r is Ok
                && final(gpio).gpio.gpclr@ == old(gpio).gpio.gpclr@.update(
                (self.index / 32) as int,
                1u32 << (self.index % 32) as u32,
            ) && final(gpio).gpio.gpset@ == old(gpio).gpio.gpset@,
            self.mode != GpioMode::Output ==> r == Err::<(), PinError>(PinError::NotOutput)
                && final(gpio).gpio.gpset@ == old(gpio).gpio.gpset@ && final(gpio).gpio.gpclr@
                == old(gpio).gpio.gpclr@,
    {
        if self.mode != GpioMode::Output {
            return Err(PinError::NotOutput);
        }
        if gpio.is_high(self.index) {
            gpio.set_low(self.index);
        } else {
            gpio.set_high(self.index);
        }
        Ok(())
    }
}

} // verus!
