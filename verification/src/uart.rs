//! The PL011 UART driver.
//!
//! Its one-time setup is the heart of the lifecycle dependency story:
//! before programming its baud divisors it negotiates the UART clock
//! rate over the mailbox, and if the rate the firmware actually applied
//! is not the rate this driver requires, setup aborts rather than run
//! at the wrong rate.

use vstd::prelude::*;

use crate::interface::DeviceDriver;
use crate::interface::DriverResult;
use crate::interface::Mutex;
use crate::mail::Clocks;
use crate::mail::Mail;
use crate::mailbox::call_outcome;
use crate::mailbox::FirmwareResponse;
use crate::mailbox::Mbox;
use crate::sync::NullLock;

verus! {

/// The UART clock rate the baud divisors below are computed for, in Hz.
pub const UART_CLOCK_RATE: u32 = 4_000_000;

/// Integer baud-rate divisor programmed on successful setup.
pub const UART_IBRD: u32 = 2;

/// Fractional baud-rate divisor programmed on successful setup.
pub const UART_FBRD: u32 = 0xB;

/// The clock negotiation succeeded and the firmware applied exactly
/// the rate the divisors require: the call completed successfully and
/// the applied rate echoed in response word 6 is [`UART_CLOCK_RATE`].
pub open spec fn clock_negotiated(fw: FirmwareResponse) -> bool {
    &&& call_outcome(fw.code()) is Ok
    &&& fw.buffer@[6] == UART_CLOCK_RATE
}

/// The PL011 UART register and soft state the driver reads or writes.
pub struct UartInner {
    pub base_addr: usize,
    /// Characters transmitted so far, in order.
    pub written: Vec<char>,
    /// Bytes received by the hardware and not yet read.
    pub incoming: Vec<u8>,
    /// Integer baud divisor.
    pub ibrd: u32,
    /// Fractional baud divisor.
    pub fbrd: u32,
    /// Whether the control register enables the device with TX and RX.
    pub enabled: bool,
}

impl UartInner {
    pub fn new(base_addr: usize) -> (r: UartInner)
        ensures
            r.base_addr == base_addr,
            r.written@.len() == 0,
            r.incoming@.len() == 0,
            r.ibrd == 0,
            r.fbrd == 0,
            !r.enabled,
    {
        UartInner {
            base_addr,
            written: Vec::new(),
            incoming: Vec::new(),
            ibrd: 0,
            fbrd: 0,
            enabled: false,
        }
    }

    /// One-time setup: disable the device, negotiate the UART clock
    /// rate over the mailbox, and only if the firmware applied exactly
    /// [`UART_CLOCK_RATE`] program the divisors and enable the device.
    /// Any other outcome aborts the setup.
    pub fn init(
        &mut self,
        mbox: &mut Mbox,
        buf_addr: u32,
        fw: &FirmwareResponse,
        clock_speed: u32,
    ) -> (r: DriverResult)
        requires
            fw.wf(),
            buf_addr & 0xF == 0,
            crate::mailbox::reply_arrives(
                fw.words@,
                buf_addr,
                crate::mailbox::Channel::ArmToVCProperty.spec_value(),
            ),
        ensures
            r is Ok <==> clock_negotiated(*fw),
            final(self).enabled <==> clock_negotiated(*fw),
            clock_negotiated(*fw) ==> final(self).ibrd == UART_IBRD && final(self).fbrd
                == UART_FBRD,
            final(self).base_addr == old(self).base_addr,
            final(self).written == old(self).written,
            final(self).incoming == old(self).incoming,
    {
        self.enabled = false;
        let mut mail = Mail::new();
        match mail.set_clock_rate(mbox, buf_addr, fw, Clocks::UART, clock_speed, 0) {
            Err(_) => Err(()),
            Ok((_, applied)) => {
                if applied != UART_CLOCK_RATE {
                    Err(())
                } else {
                    self.ibrd = UART_IBRD;
                    self.fbrd = UART_FBRD;
                    self.enabled = true;
                    Ok(())
                }
            },
        }
    }

    /// Transmit one character.
    pub fn write_char(&mut self, c: char)
        ensures
            final(self).written@ == old(self).written@.push(c),
            final(self).incoming == old(self).incoming,
            final(self).enabled == old(self).enabled,
            final(self).base_addr == old(self).base_addr,
            final(self).ibrd == old(self).ibrd,
            final(self).fbrd == old(self).fbrd,
    {
        self.written.push(c);
    }

    /// Receive one character: the oldest pending byte, with a carriage
    /// return converted to a newline; a space when nothing is pending.
    pub fn read_char(&mut self) -> (c: char)
        ensures
            old(self).incoming@.len() == 0 ==> c == ' ' && final(self).incoming
                == old(self).incoming,
            old(self).incoming@.len() > 0 ==> c == decoded_char(old(self).incoming@[0]) && final(self).incoming@ == old(self).incoming@.drop_first(),
            final(self).written == old(self).written,
            final(self).enabled == old(self).enabled,
            final(self).base_addr == old(self).base_addr,
            final(self).ibrd == old(self).ibrd,
            final(self).fbrd == old(self).fbrd,
    {
        if self.incoming.len() > 0 {
            let b = self.incoming.remove(0);
            decode_received(b)
        } else {
            ' '
        }
    }
}

/// A received byte as the console reports it: carriage return becomes
/// newline, everything else is taken as is.
pub open spec fn decoded_char(b: u8) -> char {
    if b == 13 {
        '\n'
    } else {
        b as char
    }
}

/// Decode one received byte; see [`decoded_char`].
pub fn decode_received(b: u8) -> (c: char)
    ensures
        c == decoded_char(b),
{
    let c = b as char;
    if c == '\r' {
        '\n'
    } else {
        c
    }
}

/// The PL011 UART driver: its state behind the mutual-exclusion cell.
pub struct Uart {
    pub inner: NullLock<UartInner>,
}

impl Uart {
    pub fn new(base_addr: usize) -> (r: Uart)
        ensures
            r.inner.data.base_addr == base_addr,
            r.inner.data.written@.len() == 0,
            r.inner.data.incoming@.len() == 0,
            !r.inner.data.enabled,
    {
        Uart { inner: NullLock::new(UartInner::new(base_addr)) }
    }

    /// Hand the driver one byte the hardware received, oldest first.
    pub fn push_incoming(&mut self, b: u8)
        ensures
            final(self).inner.data.incoming@ == old(self).inner.data.incoming@.push(b),
            final(self).inner.data.written == old(self).inner.data.written,
    {
        let inner = self.inner.lock();
        inner.incoming.push(b);
    }
}

impl crate::interface::Write for Uart {
    /// See [`UartInner::write_char`].
    fn write_char(&mut self, c: char)
        ensures
            final(self).inner.data.written@ == old(self).inner.data.written@.push(c),
            final(self).inner.data.incoming == old(self).inner.data.incoming,
    {
        let inner = self.inner.lock();
        inner.write_char(c);
    }
}

impl crate::interface::Read for Uart {
    /// See [`UartInner::read_char`].
    fn read_char(&mut self) -> (c: char)
        ensures
            old(self).inner.data.incoming@.len() == 0 ==> c == ' ',
            old(self).inner.data.incoming@.len() > 0 ==> c == decoded_char(
                old(self).inner.data.incoming@[0],
            ) && final(self).inner.data.incoming@ == old(self).inner.data.incoming@.drop_first(),
            final(self).inner.data.written == old(self).inner.data.written,
    {
        let inner = self.inner.lock();
        inner.read_char()
    }
}

impl crate::interface::Statistics for Uart {
    fn chars_written(&self) -> (r: usize)
        ensures
            r == self.inner.data.written@.len(),
    {
        self.inner.data.written.len()
    }

    /// Reads are not counted by this driver.
    fn chars_read(&self) -> (r: usize)
        ensures
            r == 0,
    {
        0
    }
}

impl DeviceDriver for Uart {
    fn compatible(&self) -> (r: &'static str)
        ensures
            r@ == "BCM2XXX UART"@,
    {
        "BCM2XXX UART"
    }

    /// The real setup needs the mailbox and the firmware's reply; the
    /// sequencer invokes [`UartInner::init`] with them instead of this
    /// method, which performs nothing on its own.
    fn init(&mut self) -> (r: DriverResult)
        ensures
            r == Ok::<(), ()>(()),
            *final(self) == *old(self),
    {
        Ok(())
    }
}

} // verus!
