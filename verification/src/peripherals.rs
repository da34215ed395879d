//! The remaining peripheral drivers: system timer, auxiliary register
//! block, hardware random-number generator, and USB host controller.
//!
//! Each owns one mutual-exclusion cell around its register state; the
//! registers each driver's logic reads or writes are modelled as owned
//! fields, and values only the hardware can produce (the free-running
//! counter, entropy words) enter as arguments.

use vstd::prelude::*;

use crate::interface::DeviceDriver;
use crate::interface::DriverResult;
use crate::interface::Mutex;
use crate::sync::NullLock;

verus! {

/// The system timer's compare registers.
pub struct SysTimerInner {
    pub base_addr: usize,
    pub c0: u32,
    pub c1: u32,
    pub c2: u32,
    pub c3: u32,
}

impl SysTimerInner {
    pub fn new(base_addr: usize) -> (r: SysTimerInner)
        ensures
            r.base_addr == base_addr,
            r.c0 == 0 && r.c1 == 0 && r.c2 == 0 && r.c3 == 0,
    {
        SysTimerInner { base_addr, c0: 0, c1: 0, c2: 0, c3: 0 }
    }

    /// One-time setup: clear all four compare registers.
    pub fn init(&mut self)
        ensures
            final(self).c0 == 0 && final(self).c1 == 0 && final(self).c2 == 0 && final(self).c3
                == 0,
            final(self).base_addr == old(self).base_addr,
    {
        self.c0 = 0;
        self.c1 = 0;
        self.c2 = 0;
        self.c3 = 0;
    }
}

/// The two halves of the free-running counter assembled into the
/// 64-bit timer value.
pub open spec fn spec_timer_value(hi: u32, lo: u32) -> u64 {
    (((hi as u64) << 32) | (lo as u64)) as u64
}

/// The system timer driver.
pub struct SysTimer {
    pub inner: NullLock<SysTimerInner>,
}

impl SysTimer {
    pub fn new(base_addr: usize) -> (r: SysTimer)
        ensures
            r.inner.data.base_addr == base_addr,
    {
        SysTimer { inner: NullLock::new(SysTimerInner::new(base_addr)) }
    }

    /// The 64-bit timer value, from one consistent sample of the
    /// counter's high and low words.
    pub fn get_systimer(&self, hi: u32, lo: u32) -> (r: u64)
        ensures
            r == spec_timer_value(hi, lo),
    {
        ((hi as u64) << 32) | (lo as u64)
    }

    /// Whether a wait of `n` ticks begun when the counter read `start`
    /// is over once the counter reads `now`.
    pub fn wait_complete(&self, now: u64, start: u64, n: u64) -> (r: bool)
        requires
            start + n <= u64::MAX,
        ensures
            r == (now > start + n),
    {
        now > start + n
    }

    /// The busy-wait of `n` microseconds over successive samples of the
    /// free-running counter, begun when it read `start`: consume
    /// samples until the first one past `start + n` and report how many
    /// were consumed before it. A dead counter reading zero skips the
    /// wait. The counter keeps running, so a sample past the deadline
    /// is guaranteed to occur; without one the poll would spin forever.
    pub fn wait_usec(&self, n: u64, start: u64, samples: &Vec<u64>) -> (r: usize)
        requires
            start + n <= u64::MAX,
            start > 0 ==> exists|i: int|
                0 <= i < samples@.len() && samples@[i] > start + n,
        ensures
            start == 0 ==> r == 0,
            start > 0 ==> {
                &&& r < samples@.len()
                &&& samples@[r as int] > start + n
                &&& forall|j: int| 0 <= j < r ==> samples@[j] <= start + n
            },
    {
        if start == 0 {
            return 0;
        }
        let mut k: usize = 0;
        while k < samples.len()
            invariant
                k <= samples@.len(),
                start > 0,
                start + n <= u64::MAX,
                forall|j: int| 0 <= j < k ==> samples@[j] <= start + n,
            decreases samples@.len() - k,
        {
            if self.wait_complete(samples[k], start, n) {
                return k;
            }
            k += 1;
        }
        // Unreachable: a sample past the deadline is known to occur.
        proof {
            let i = choose|i: int| 0 <= i < samples@.len() && samples@[i] > start + n;
            assert(samples@[i] <= start + n);
        }
        0
    }

    pub fn get_c0_register(&self) -> (r: u32)
        ensures
            r == self.inner.data.c0,
    {
        self.inner.data.c0
    }

    pub fn set_c0_register(&mut self, val: u32)
        ensures
            final(self).inner.data == (SysTimerInner { c0: val, ..old(self).inner.data }),
    {
        let inner = self.inner.lock();
        inner.c0 = val;
    }

    pub fn get_c1_register(&self) -> (r: u32)
        ensures
            r == self.inner.data.c1,
    {
        self.inner.data.c1
    }

    pub fn set_c1_register(&mut self, val: u32)
        ensures
            final(self).inner.data == (SysTimerInner { c1: val, ..old(self).inner.data }),
    {
        let inner = self.inner.lock();
        inner.c1 = val;
    }

    pub fn get_c2_register(&self) -> (r: u32)
        ensures
            r == self.inner.data.c2,
    {
        self.inner.data.c2
    }

    pub fn set_c2_register(&mut self, val: u32)
        ensures
            final(self).inner.data == (SysTimerInner { c2: val, ..old(self).inner.data }),
    {
        let inner = self.inner.lock();
        inner.c2 = val;
    }

    pub fn get_c3_register(&self) -> (r: u32)
        ensures
            r == self.inner.data.c3,
    {
        self.inner.data.c3
    }

    pub fn set_c3_register(&mut self, val: u32)
        ensures
            final(self).inner.data == (SysTimerInner { c3: val, ..old(self).inner.data }),
    {
        let inner = self.inner.lock();
        inner.c3 = val;
    }
}

impl DeviceDriver for SysTimer {
    fn compatible(&self) -> (r: &'static str)
        ensures
            r@ == "BCM2835 System Timer"@,
    {
        "BCM2835 System Timer"
    }

    /// See [`SysTimerInner::init`].
    fn init(&mut self) -> (r: DriverResult)
        ensures
            r == Ok::<(), ()>(()),
            final(self).inner.data.c0 == 0 && final(self).inner.data.c1 == 0 && final(self).inner.data.c2 == 0 && final(self).inner.data.c3 == 0,
    {
        let inner = self.inner.lock();
        inner.init();
        Ok(())
    }
}

/// Enable bit for the mini UART in the auxiliary enables register.
pub const AUX_MINI_UART_ENABLE: u32 = 0x1;

/// Enable bit for the first SPI controller.
pub const AUX_SPI1_ENABLE: u32 = 0x2;

/// Enable bit for the second SPI controller.
pub const AUX_SPI2_ENABLE: u32 = 0x4;

/// The auxiliary register block's enables register.
pub struct AuxRegistersInner {
    pub base_addr: usize,
    pub enables: u32,
}

impl AuxRegistersInner {
    pub fn new(base_addr: usize) -> (r: AuxRegistersInner)
        ensures
            r.base_addr == base_addr,
            r.enables == 0,
    {
        AuxRegistersInner { base_addr, enables: 0 }
    }

    pub fn get_mini_uart_enabled(&self) -> (r: bool)
        ensures
            r == (self.enables & AUX_MINI_UART_ENABLE != 0),
    {
        self.enables & AUX_MINI_UART_ENABLE != 0
    }

    pub fn get_spi1_enabled(&self) -> (r: bool)
        ensures
            r == (self.enables & AUX_SPI1_ENABLE != 0),
    {
        self.enables & AUX_SPI1_ENABLE != 0
    }

    pub fn get_spi2_enabled(&self) -> (r: bool)
        ensures
            r == (self.enables & AUX_SPI2_ENABLE != 0),
    {
        self.enables & AUX_SPI2_ENABLE != 0
    }

    pub fn set_mini_uart(&mut self, value: bool)
        ensures
            value ==> final(self).enables == old(self).enables | AUX_MINI_UART_ENABLE,
            !value ==> final(self).enables == old(self).enables & !AUX_MINI_UART_ENABLE,
            final(self).base_addr == old(self).base_addr,
    {
        if value {
            self.enables = self.enables | AUX_MINI_UART_ENABLE;
        } else {
            self.enables = self.enables & !AUX_MINI_UART_ENABLE;
        }
    }

    pub fn set_spi1(&mut self, value: bool)
        ensures
            value ==> final(self).enables == old(self).enables | AUX_SPI1_ENABLE,
            !value ==> final(self).enables == old(self).enables & !AUX_SPI1_ENABLE,
            final(self).base_addr == old(self).base_addr,
    {
        if value {
            self.enables = self.enables | AUX_SPI1_ENABLE;
        } else {
            self.enables = self.enables & !AUX_SPI1_ENABLE;
        }
    }

    pub fn set_spi2(&mut self, value: bool)
        ensures
            value ==> final(self).enables == old(self).enables | AUX_SPI2_ENABLE,
            !value ==> final(self).enables == old(self).enables & !AUX_SPI2_ENABLE,
            final(self).base_addr == old(self).base_addr,
    {
        if value {
            self.enables = self.enables | AUX_SPI2_ENABLE;
        } else {
            self.enables = self.enables & !AUX_SPI2_ENABLE;
        }
    }
}

/// The auxiliary register block driver.
pub struct AuxRegisters {
    pub inner: NullLock<AuxRegistersInner>,
}

impl AuxRegisters {
    pub fn new(base_addr: usize) -> (r: AuxRegisters)
        ensures
            r.inner.data.base_addr == base_addr,
            r.inner.data.enables == 0,
    {
        AuxRegisters { inner: NullLock::new(AuxRegistersInner::new(base_addr)) }
    }

    /// Switch the mini UART on.
    pub fn enable_mini_uart(&mut self)
        ensures
            final(self).inner.data.enables == old(self).inner.data.enables
                | AUX_MINI_UART_ENABLE,
            final(self).inner.data.base_addr == old(self).inner.data.base_addr,
    {
        let inner = self.inner.lock();
        inner.set_mini_uart(true);
    }
}

impl DeviceDriver for AuxRegisters {
    fn compatible(&self) -> (r: &'static str)
        ensures
            r@ == "BCM2XXX AUX Register"@,
    {
        "BCM2XXX AUX Register"
    }

    /// One-time setup: switch the mini UART on.
    fn init(&mut self) -> (r: DriverResult)
        ensures
            r == Ok::<(), ()>(()),
            final(self).inner.data.enables == old(self).inner.data.enables
                | AUX_MINI_UART_ENABLE,
    {
        self.enable_mini_uart();
        Ok(())
    }
}

/// Two entropy words assembled and folded into the requested range.
pub open spec fn spec_rand_value(l: u32, r: u32, min: usize, max: usize) -> usize
    recommends
        min < max,
{
    ((((((l as u64) << 32) | (r as u64)) as usize) % ((max - min) as usize)) + min) as usize
}

/// The hardware random-number generator's control state.
pub struct RngInner {
    pub base_addr: usize,
    pub int_masked: bool,
    pub enabled: bool,
}

impl RngInner {
    pub fn new(base_addr: usize) -> (r: RngInner)
        ensures
            r.base_addr == base_addr,
            !r.int_masked,
            !r.enabled,
    {
        RngInner { base_addr, int_masked: false, enabled: false }
    }

    /// One-time setup: mask the interrupt, start the warm-up count, and
    /// enable the generator.
    pub fn init(&mut self)
        ensures
            final(self).int_masked,
            final(self).enabled,
            final(self).base_addr == old(self).base_addr,
    {
        self.int_masked = true;
        self.enabled = true;
    }

    /// A number in `min..max` derived from two entropy words the
    /// hardware produced once its warm-up completed.
    pub fn rand(&self, min: usize, max: usize, l: u32, r: u32) -> (out: usize)
        requires
            min < max,
        ensures
            out == spec_rand_value(l, r, min, max),
            min <= out < max,
    {
        let raw: usize = (((l as u64) << 32) | (r as u64)) as usize;
        (raw % (max - min)) + min
    }
}

/// The random-number generator driver.
pub struct Rng {
    pub inner: NullLock<RngInner>,
}

impl Rng {
    pub fn new(base_addr: usize) -> (r: Rng)
        ensures
            r.inner.data.base_addr == base_addr,
            !r.inner.data.enabled,
    {
        Rng { inner: NullLock::new(RngInner::new(base_addr)) }
    }

    /// See [`RngInner::rand`].
    pub fn rand(&mut self, min: usize, max: usize, l: u32, r: u32) -> (out: usize)
        requires
            min < max,
        ensures
            out == spec_rand_value(l, r, min, max),
            min <= out < max,
            *final(self) == *old(self),
    {
        let inner = self.inner.lock();
        inner.rand(min, max, l, r)
    }
}

impl DeviceDriver for Rng {
    fn compatible(&self) -> (r: &'static str)
        ensures
            r@ == "BCM2835 Hardware Random Number Generator"@,
    {
        "BCM2835 Hardware Random Number Generator"
    }

    /// See [`RngInner::init`].
    fn init(&mut self) -> (r: DriverResult)
        ensures
            r == Ok::<(), ()>(()),
            final(self).inner.data.enabled,
            final(self).inner.data.int_masked,
    {
        let inner = self.inner.lock();
        inner.init();
        Ok(())
    }
}

/// The USB host controller's register block location.
pub struct USBInner {
    pub base_addr: usize,
}

impl USBInner {
    pub fn new(base_addr: usize) -> (r: USBInner)
        ensures
            r.base_addr == base_addr,
    {
        USBInner { base_addr }
    }
}

/// The USB host controller driver; its setup is not yet performed.
pub struct USB {
    pub inner: NullLock<USBInner>,
}

impl USB {
    pub fn new(base_addr: usize) -> (r: USB)
        ensures
            r.inner.data.base_addr == base_addr,
    {
        USB { inner: NullLock::new(USBInner::new(base_addr)) }
    }
}

impl DeviceDriver for USB {
    fn compatible(&self) -> (r: &'static str)
        ensures
            r@ == "DWC USB 2.0 OTG Driver"@,
    {
        "DWC USB 2.0 OTG Driver"
    }

    fn init(&mut self) -> (r: DriverResult)
        ensures
            r == Ok::<(), ()>(()),
            *final(self) == *old(self),
    {
        Ok(())
    }
}

} // verus!
