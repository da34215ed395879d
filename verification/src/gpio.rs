//! GPIO pin multiplexing for the two UART devices.
//!
//! The function-select and pull-up/down registers the mapping sequence
//! touches are modelled as owned fields; the shell mirrors each field
//! into the memory-mapped register block at `base_addr`.

use vstd::prelude::*;

use crate::interface::DeviceDriver;
use crate::interface::DriverResult;
use crate::interface::Mutex;
use crate::sync::NullLock;

verus! {

/// Bits of the function-select register that govern pins 14 and 15.
pub const FSEL_14_15_MASK: u32 = 0x3F000;

/// Pins 14 and 15 selected as the mini UART's TXD1/RXD1 alternative.
pub const FSEL_14_15_MINI_UART: u32 = 0x12000;

/// Pins 14 and 15 selected as the PL011 UART's TXD0/RXD0 alternative.
pub const FSEL_14_15_UART0: u32 = 0x24000;

/// Assert-clock bits for pins 14 and 15 in the pull-up/down clock
/// register.
pub const PUDCLK_14_15: u32 = 0xC000;

/// The GPIO register state the mapping sequences read or write.
pub struct GPIOInner {
    pub base_addr: usize,
    /// Function select for pins 10 through 19.
    pub fsel1: u32,
    /// Pull-up/down control.
    pub pud: u32,
    /// Pull-up/down clock for pins 0 through 31.
    pub pudclk0: u32,
}

impl GPIOInner {
    pub fn new(base_addr: usize) -> (r: GPIOInner)
        ensures
            r.base_addr == base_addr,
            r.fsel1 == 0,
            r.pud == 0,
            r.pudclk0 == 0,
    {
        GPIOInner { base_addr, fsel1: 0, pud: 0, pudclk0: 0 }
    }

    /// Map pins 14 and 15 to the mini UART and latch their pull state:
    /// select the alternative function, then pulse the pull-up/down
    /// clock for both pins and release it.
    pub fn map_mini_uart(&mut self)
        ensures
            final(self).fsel1 == (old(self).fsel1 & !FSEL_14_15_MASK) | FSEL_14_15_MINI_UART,
            final(self).pud == 0,
            final(self).pudclk0 == 0,
            final(self).base_addr == old(self).base_addr,
    {
        self.fsel1 = (self.fsel1 & !FSEL_14_15_MASK) | FSEL_14_15_MINI_UART;
        self.pud = 0;
        self.pudclk0 = PUDCLK_14_15;
        self.pudclk0 = 0;
    }

    /// Map pins 14 and 15 to the PL011 UART, with the same pull-state
    /// latch sequence.
    pub fn map_uart0(&mut self)
        ensures
            final(self).fsel1 == (old(self).fsel1 & !FSEL_14_15_MASK) | FSEL_14_15_UART0,
            final(self).pud == 0,
            final(self).pudclk0 == 0,
            final(self).base_addr == old(self).base_addr,
    {
        self.fsel1 = (self.fsel1 & !FSEL_14_15_MASK) | FSEL_14_15_UART0;
        self.pud = 0;
        self.pudclk0 = PUDCLK_14_15;
        self.pudclk0 = 0;
    }
}

/// The GPIO driver: its register state behind the mutual-exclusion
/// cell.
pub struct GPIO {
    pub inner: NullLock<GPIOInner>,
}

impl GPIO {
    pub fn new(base_addr: usize) -> (r: GPIO)
        ensures
            r.inner.data.base_addr == base_addr,
            r.inner.data.fsel1 == 0,
            r.inner.data.pud == 0,
            r.inner.data.pudclk0 == 0,
    {
        GPIO { inner: NullLock::new(GPIOInner::new(base_addr)) }
    }

    /// See [`GPIOInner::map_mini_uart`].
    pub fn map_mini_uart(&mut self)
        ensures
            final(self).inner.data.fsel1 == (old(self).inner.data.fsel1 & !FSEL_14_15_MASK)
                | FSEL_14_15_MINI_UART,
            final(self).inner.data.pud == 0,
            final(self).inner.data.pudclk0 == 0,
            final(self).inner.data.base_addr == old(self).inner.data.base_addr,
    {
        let inner = self.inner.lock();
        inner.map_mini_uart();
    }

    /// See [`GPIOInner::map_uart0`].
    pub fn map_uart0(&mut self)
        ensures
            final(self).inner.data.fsel1 == (old(self).inner.data.fsel1 & !FSEL_14_15_MASK)
                | FSEL_14_15_UART0,
            final(self).inner.data.pud == 0,
            final(self).inner.data.pudclk0 == 0,
            final(self).inner.data.base_addr == old(self).inner.data.base_addr,
    {
        let inner = self.inner.lock();
        inner.map_uart0();
    }
}

impl DeviceDriver for GPIO {
    fn compatible(&self) -> (r: &'static str)
        ensures
            r@ == "BCM2837 GPIO"@,
    {
        "BCM2837 GPIO"
    }

    /// No one-time setup beyond construction.
    fn init(&mut self) -> (r: DriverResult)
        ensures
            r == Ok::<(), ()>(()),
            *final(self) == *old(self),
    {
        Ok(())
    }
}

} // verus!
