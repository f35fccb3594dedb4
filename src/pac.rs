//! Peripheral handles of the Raspberry Pi 4 and where their register blocks lie.
use vstd::prelude::*;

verus! {

/// Start of the peripheral MMIO window.
pub const MMIO_START: u64 = 0xFE00_0000;
pub const GPIO_START: u64 = MMIO_START + 0x0020_0000;
pub const UART0_START: u64 = MMIO_START + 0x0020_1000;
pub const UART2_START: u64 = MMIO_START + 0x0020_1400;
pub const UART3_START: u64 = MMIO_START + 0x0020_1600;
pub const UART4_START: u64 = MMIO_START + 0x0020_1800;
pub const UART5_START: u64 = MMIO_START + 0x0020_1A00;
pub const GICD_START: u64 = 0xFF84_1000;
pub const GICC_START: u64 = 0xFF84_2000;

/// The GPIO controller.
pub struct Gpio;

/// The PL011 UART0.
pub struct Uart0;

/// The PL011 UART2.
pub struct Uart2;

/// The PL011 UART3.
pub struct Uart3;

/// The PL011 UART4.
pub struct Uart4;

/// The PL011 UART5.
pub struct Uart5;

/// The GIC CPU interface.
pub struct Gicc;

/// The shared part of the GIC distributor.
pub struct GicdShared;

/// The core-banked part of the GIC distributor.
pub struct GicdBanked;

impl Gpio {
    /// Address of the register block.
    pub fn ptr() -> (r: u64)
        ensures
            r == GPIO_START,
    {
        GPIO_START
    }
}

impl Uart0 {
    /// Address of the register block.
    pub fn ptr() -> (r: u64)
        ensures
            r == UART0_START,
    {
        UART0_START
    }
}

impl Uart2 {
    /// Address of the register block.
    pub fn ptr() -> (r: u64)
        ensures
            r == UART2_START,
    {
        UART2_START
    }
}

impl Uart3 {
    /// Address of the register block.
    pub fn ptr() -> (r: u64)
        ensures
            r == UART3_START,
    {
        UART3_START
    }
}

impl Uart4 {
    /// Address of the register block.
    pub fn ptr() -> (r: u64)
        ensures
            r == UART4_START,
    {
        UART4_START
    }
}

impl Uart5 {
    /// Address of the register block.
    pub fn ptr() -> (r: u64)
        ensures
            r == UART5_START,
    {
        UART5_START
    }
}

impl Gicc {
    /// Address of the register block.
    pub fn ptr() -> (r: u64)
        ensures
            r == GICC_START,
    {
        GICC_START
    }
}

impl GicdShared {
    /// Address of the register block.
    pub fn ptr() -> (r: u64)
        ensures
            r == GICD_START,
    {
        GICD_START
    }
}

impl GicdBanked {
    /// Address of the register block; the banked registers share the distributor's window.
    pub fn ptr() -> (r: u64)
        ensures
            r == GICD_START,
    {
        GICD_START
    }
}

/// All device peripherals, one handle each.
pub struct Peripherals {
    pub gpio: Gpio,
    pub uart0: Uart0,
    pub uart2: Uart2,
    pub uart3: Uart3,
    pub uart4: Uart4,
    pub uart5: Uart5,
    pub gicc: Gicc,
    pub gicd_shared: GicdShared,
    pub gicd_banked: GicdBanked,
}

impl Peripherals {
    /// Returns all device peripherals. Must be called only once, so that no register block is
    /// driven through two handles.
    pub fn steal() -> (r: Peripherals) {
        Peripherals {
            gpio: Gpio,
            uart0: Uart0,
            uart2: Uart2,
            uart3: Uart3,
            uart4: Uart4,
            uart5: Uart5,
            gicc: Gicc,
            gicd_shared: GicdShared,
            gicd_banked: GicdBanked,
        }
    }
}

} // verus!
