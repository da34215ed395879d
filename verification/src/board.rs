//! Board support for the Raspberry Pi 3: the fixed set of peripheral
//! drivers, their memory-mapped base addresses, and the boot-time
//! initialization sequence.

use vstd::prelude::*;

use crate::gpio::GPIO;
use crate::gpio::FSEL_14_15_MASK;
use crate::gpio::FSEL_14_15_MINI_UART;
use crate::interface::DeviceDriver;
use crate::interface::Mutex;
use crate::lifecycle::DriverError;
use crate::lifecycle::LifecycleState;
use crate::lifecycle::Registry;
use crate::mail::wide_outcome;
use crate::mail::Mail;
use crate::mailbox::reply_arrives;
use crate::mailbox::Channel;
use crate::mailbox::FirmwareResponse;
use crate::mailbox::Mbox;
use crate::mailbox::MboxError;
use crate::miniuart::MiniUart;
use crate::miniuart::MINI_UART_BAUD;
use crate::peripherals::spec_rand_value;
use crate::peripherals::AuxRegisters;
use crate::peripherals::Rng;
use crate::peripherals::SysTimer;
use crate::peripherals::AUX_MINI_UART_ENABLE;
use crate::peripherals::USB;
use crate::uart::clock_negotiated;
use crate::uart::Uart;
use crate::uart::UART_CLOCK_RATE;
use crate::uart::UART_FBRD;
use crate::uart::UART_IBRD;

verus! {

/// Start of the memory-mapped peripheral window.
pub const MMIO_BASE: usize = 0x3F00_0000;

/// GPIO register block.
pub const GPIO_BASE: usize = MMIO_BASE + 0x0020_0000;

/// System timer register block.
pub const SYSTIMER_BASE: usize = MMIO_BASE + 0x0000_3000;

/// Auxiliary register block.
pub const AUX_BASE: usize = MMIO_BASE + 0x0021_5000;

/// Hardware random-number generator register block.
pub const RANDOM_BASE: usize = MMIO_BASE + 0x0010_4000;

/// Mini UART register block.
pub const UART1_BASE: usize = MMIO_BASE + 0x0021_5040;

/// Mailbox register block.
pub const MAILBOX_BASE: usize = MMIO_BASE + 0x0000_B880;

/// PL011 UART register block.
pub const UART0_BASE: usize = MMIO_BASE + 0x0020_1000;

/// USB host controller register block.
pub const USB_BASE: usize = MMIO_BASE + 0x0098_0000;

/// The one core that boots; all others park.
pub const BOOT_CORE_ID: u64 = 0;

/// Stack top for the boot core.
pub const BOOT_CORE_STACK_START: u64 = 0x80_000;

/// Mask selecting the core identifier bits.
pub const CORE_MASK: u64 = 0x3;

/// Number of drivers in the registry.
pub const DRIVER_COUNT: usize = 8;

/// Position of the PL011 UART in the fixed driver order.
pub const UART0_INDEX: usize = 6;

/// The fixed driver order, by position in the registry.
#[derive(Clone, Copy, Debug, PartialEq, Eq, Structural)]
pub enum DriverId {
    Gpio,
    SysTimer,
    Aux,
    Rng,
    MiniUart,
    Mbox,
    Uart0,
    Usb,
}

/// The compatibility string of each driver.
pub open spec fn spec_compatible(id: DriverId) -> Seq<char> {
    match id {
        DriverId::Gpio => "BCM2837 GPIO"@,
        DriverId::SysTimer => "BCM2835 System Timer"@,
        DriverId::Aux => "BCM2XXX AUX Register"@,
        DriverId::Rng => "BCM2835 Hardware Random Number Generator"@,
        DriverId::MiniUart => "BCM2XXX MiniUart"@,
        DriverId::Mbox => "BCM2XXX Mailbox"@,
        DriverId::Uart0 => "BCM2XXX UART"@,
        DriverId::Usb => "DWC USB 2.0 OTG Driver"@,
    }
}

/// All drivers, in the order the boot sequence initializes them.
pub fn device_drivers() -> (r: Vec<DriverId>)
    ensures
        r@ == seq![
            DriverId::Gpio,
            DriverId::SysTimer,
            DriverId::Aux,
            DriverId::Rng,
            DriverId::MiniUart,
            DriverId::Mbox,
            DriverId::Uart0,
            DriverId::Usb,
        ],
{
    let r = vec![
        DriverId::Gpio,
        DriverId::SysTimer,
        DriverId::Aux,
        DriverId::Rng,
        DriverId::MiniUart,
        DriverId::Mbox,
        DriverId::Uart0,
        DriverId::Usb,
    ];
    proof {
        assert(r@ =~= seq![
            DriverId::Gpio,
            DriverId::SysTimer,
            DriverId::Aux,
            DriverId::Rng,
            DriverId::MiniUart,
            DriverId::Mbox,
            DriverId::Uart0,
            DriverId::Usb,
        ]);
    }
    r
}

/// What the boot sequence needs from outside: where the mailbox buffer
/// sits and what the hardware made observable during the UART clock
/// negotiation.
pub struct BootInput {
    pub buf_addr: u32,
    pub uart_clock: FirmwareResponse,
}

impl BootInput {
    pub open spec fn wf(&self) -> bool {
        &&& self.uart_clock.wf()
        &&& self.buf_addr & 0xF == 0
        &&& reply_arrives(
            self.uart_clock.words@,
            self.buf_addr,
            Channel::ArmToVCProperty.spec_value(),
        )
    }
}

/// All board peripherals, each behind its own mutual-exclusion cell,
/// plus the lifecycle bookkeeping of the registry. Built once at boot
/// and passed by reference to anything needing device access.
pub struct Board {
    pub gpio: GPIO,
    pub systimer: SysTimer,
    pub aux: AuxRegisters,
    pub rng: Rng,
    pub mini_uart: MiniUart,
    pub mbox: Mbox,
    pub uart0: Uart,
    pub usb: USB,
    pub registry: Registry,
}

impl Board {
    /// Every driver at its fixed base address, all uninitialized.
    pub fn new() -> (r: Board)
        ensures
            r.registry.states@.len() == DRIVER_COUNT,
            forall|i: int|
                0 <= i < DRIVER_COUNT ==> r.registry.states@[i]
                    == LifecycleState::Uninitialized,
            !r.uart0.inner.data.enabled,
            !r.mini_uart.inner.data.enabled,
            r.gpio.inner.data.fsel1 == 0,
            r.aux.inner.data.enables == 0,
            r.mini_uart.inner.data.written@.len() == 0,
            r.mini_uart.inner.data.incoming@.len() == 0,
    {
        Board {
            gpio: GPIO::new(GPIO_BASE),
            systimer: SysTimer::new(SYSTIMER_BASE),
            aux: AuxRegisters::new(AUX_BASE),
            rng: Rng::new(RANDOM_BASE),
            mini_uart: MiniUart::new(UART1_BASE),
            mbox: Mbox::new(MAILBOX_BASE),
            uart0: Uart::new(UART0_BASE),
            usb: USB::new(USB_BASE),
            registry: Registry::new(DRIVER_COUNT),
        }
    }

    /// Initialize every driver in registry order. The first failure is
    /// fatal: the sequence halts at the failing driver — later drivers
    /// are never invoked — and the diagnostic names it by its
    /// compatibility string. On success the GPIO pins are mapped to the
    /// mini UART, the first console.
    pub fn init(&mut self, input: &BootInput) -> (r: Result<(), DriverError>)
        requires
            input.wf(),
            old(self).registry.states@.len() == DRIVER_COUNT,
            forall|i: int|
                0 <= i < DRIVER_COUNT ==> old(self).registry.states@[i]
                    == LifecycleState::Uninitialized,
        ensures
            final(self).registry.states@.len() == DRIVER_COUNT,
            final(self).mini_uart.inner.data.enabled,
            final(self).mini_uart.inner.data.baud == MINI_UART_BAUD,
            final(self).aux.inner.data.enables == old(self).aux.inner.data.enables
                | AUX_MINI_UART_ENABLE,
            final(self).rng.inner.data.enabled,
            final(self).systimer.inner.data.c0 == 0,
            final(self).uart0.inner.data.enabled <==> clock_negotiated(input.uart_clock),
            match r {
                Ok(()) => {
                    &&& clock_negotiated(input.uart_clock)
                    &&& final(self).uart0.inner.data.ibrd == UART_IBRD
                    &&& final(self).uart0.inner.data.fbrd == UART_FBRD
                    &&& final(self).gpio.inner.data.fsel1 == (old(self).gpio.inner.data.fsel1
                        & !FSEL_14_15_MASK) | FSEL_14_15_MINI_UART
                    &&& forall|i: int|
                        0 <= i < DRIVER_COUNT ==> final(self).registry.states@[i]
                            == LifecycleState::Ready
                },
                Err(e) => {
                    &&& !clock_negotiated(input.uart_clock)
                    &&& e.index == UART0_INDEX
                    &&& e.name@ == spec_compatible(DriverId::Uart0)
                    &&& final(self).gpio.inner.data.fsel1 == old(self).gpio.inner.data.fsel1
                    &&& forall|i: int|
                        0 <= i < UART0_INDEX ==> final(self).registry.states@[i]
                            == LifecycleState::Ready
                    &&& final(self).registry.states@[UART0_INDEX as int]
                        == LifecycleState::Initializing
                    &&& final(self).registry.states@[UART0_INDEX + 1]
                        == LifecycleState::Uninitialized
                },
            },
    {
        self.registry.begin(0);
        if let Err(_) = self.gpio.init() {
            let name = self.gpio.compatible();
            return Err(DriverError { index: 0, name });
        }
        self.registry.complete(0);

        self.registry.begin(1);
        if let Err(_) = self.systimer.init() {
            let name = self.systimer.compatible();
            return Err(DriverError { index: 1, name });
        }
        self.registry.complete(1);

        self.registry.begin(2);
        if let Err(_) = self.aux.init() {
            let name = self.aux.compatible();
            return Err(DriverError { index: 2, name });
        }
        self.registry.complete(2);

        self.registry.begin(3);
        if let Err(_) = self.rng.init() {
            let name = self.rng.compatible();
            return Err(DriverError { index: 3, name });
        }
        self.registry.complete(3);

        self.registry.begin(4);
        if let Err(_) = self.mini_uart.init() {
            let name = self.mini_uart.compatible();
            return Err(DriverError { index: 4, name });
        }
        self.registry.complete(4);

        self.registry.begin(5);
        if let Err(_) = self.mbox.init() {
            let name = self.mbox.compatible();
            return Err(DriverError { index: 5, name });
        }
        self.registry.complete(5);

        self.registry.begin(6);
        let uart_inner = self.uart0.inner.lock();
        let negotiated = uart_inner.init(
            &mut self.mbox,
            input.buf_addr,
            &input.uart_clock,
            UART_CLOCK_RATE,
        );
        if let Err(_) = negotiated {
            let name = self.uart0.compatible();
            return Err(DriverError { index: 6, name });
        }
        self.registry.complete(6);

        self.registry.begin(7);
        if let Err(_) = self.usb.init() {
            let name = self.usb.compatible();
            return Err(DriverError { index: 7, name });
        }
        self.registry.complete(7);

        self.gpio.map_mini_uart();
        Ok(())
    }

    /// The first fully-initialized console surface.
    pub fn console(&mut self) -> (r: &mut MiniUart)
        ensures
            *r == old(self).mini_uart,
            *final(self) == (Board { mini_uart: *final(r), ..*old(self) }),
    {
        &mut self.mini_uart
    }

    /// The mailbox driver.
    pub fn mailbox(&mut self) -> (r: &mut Mbox)
        ensures
            *r == old(self).mbox,
            *final(self) == (Board { mbox: *final(r), ..*old(self) }),
    {
        &mut self.mbox
    }

    /// The GPIO driver.
    pub fn gpio(&mut self) -> (r: &mut GPIO)
        ensures
            *r == old(self).gpio,
            *final(self) == (Board { gpio: *final(r), ..*old(self) }),
    {
        &mut self.gpio
    }

    /// The PL011 UART driver.
    pub fn uart0(&mut self) -> (r: &mut Uart)
        ensures
            *r == old(self).uart0,
            *final(self) == (Board { uart0: *final(r), ..*old(self) }),
    {
        &mut self.uart0
    }

    /// The compatibility string of the given driver.
    pub fn compatible(&self, id: DriverId) -> (r: &'static str)
        ensures
            r@ == spec_compatible(id),
    {
        match id {
            DriverId::Gpio => self.gpio.compatible(),
            DriverId::SysTimer => self.systimer.compatible(),
            DriverId::Aux => self.aux.compatible(),
            DriverId::Rng => self.rng.compatible(),
            DriverId::MiniUart => self.mini_uart.compatible(),
            DriverId::Mbox => self.mbox.compatible(),
            DriverId::Uart0 => self.uart0.compatible(),
            DriverId::Usb => self.usb.compatible(),
        }
    }

    /// Query the board MAC address over the mailbox.
    pub fn board_mac(&mut self, buf_addr: u32, fw: &FirmwareResponse) -> (r: Result<
        u64,
        MboxError,
    >)
        requires
            fw.wf(),
            buf_addr & 0xF == 0,
            reply_arrives(fw.words@, buf_addr, Channel::ArmToVCProperty.spec_value()),
        ensures
            r == wide_outcome(*fw),
    {
        let mut mail = Mail::new();
        mail.get_board_mac(&mut self.mbox, buf_addr, fw)
    }

    /// Busy-wait `n` microseconds on the system timer; see
    /// [`SysTimer::wait_usec`].
    pub fn wait_usec(&self, n: u64, start: u64, samples: &Vec<u64>) -> (r: usize)
        requires
            start + n <= u64::MAX,
            start > 0 ==> exists|i: int|
                0 <= i < samples@.len() && samples@[i] > start + n,
        ensures
            start == 0 ==> r == 0,
            start > 0 ==> {
                &&& r < samples@.len()
                &&& samples@[r as int] > start + n
                &&& forall|j: int| 0 <= j < r ==> samples@[j] <= start + n
            },
    {
        self.systimer.wait_usec(n, start, samples)
    }

    /// A number in `min..max` from the hardware generator's entropy
    /// words.
    pub fn rand(&mut self, min: usize, max: usize, l: u32, r: u32) -> (out: usize)
        requires
            min < max,
        ensures
            out == spec_rand_value(l, r, min, max),
            min <= out < max,
    {
        self.rng.rand(min, max, l, r)
    }
}

/// The board's display name.
pub fn board_name() -> (r: &'static str)
    ensures
        r@ == "Raspberry Pi 3"@,
{
    "Raspberry Pi 3"
}

} // verus!
