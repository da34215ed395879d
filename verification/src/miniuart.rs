//! The mini UART driver: the first fully-initialized console surface.

use vstd::prelude::*;

use crate::interface::DeviceDriver;
use crate::interface::DriverResult;
use crate::interface::Mutex;
use crate::interface::Read;
use crate::interface::Statistics;
use crate::interface::Write;
use crate::sync::NullLock;
use crate::uart::decode_received;
use crate::uart::decoded_char;

verus! {

/// Baud-rate register value for 115200 baud.
pub const MINI_UART_BAUD: u32 = 270;

/// The mini UART register and soft state the driver reads or writes.
pub struct MiniUartInner {
    pub base_addr: usize,
    /// Characters transmitted so far, in order.
    pub written: Vec<char>,
    /// Bytes received by the hardware and not yet read.
    pub incoming: Vec<u8>,
    /// Baud-rate register.
    pub baud: u32,
    /// Whether the control register enables TX and RX.
    pub enabled: bool,
}

impl MiniUartInner {
    pub fn new(base_addr: usize) -> (r: MiniUartInner)
        ensures
            r.base_addr == base_addr,
            r.written@.len() == 0,
            r.incoming@.len() == 0,
            r.baud == 0,
            !r.enabled,
    {
        MiniUartInner {
            base_addr,
            written: Vec::new(),
            incoming: Vec::new(),
            baud: 0,
            enabled: false,
        }
    }

    /// One-time setup: program the data format and baud rate, clear
    /// the FIFOs, and enable transmitter and receiver.
    pub fn init(&mut self) -> (r: DriverResult)
        ensures
            r == Ok::<(), ()>(()),
            final(self).baud == MINI_UART_BAUD,
            final(self).enabled,
            final(self).base_addr == old(self).base_addr,
            final(self).written == old(self).written,
            final(self).incoming == old(self).incoming,
    {
        self.baud = MINI_UART_BAUD;
        self.enabled = true;
        Ok(())
    }

    /// Transmit one character.
    pub fn write_char(&mut self, c: char)
        ensures
            final(self).written@ == old(self).written@.push(c),
            final(self).incoming == old(self).incoming,
            final(self).enabled == old(self).enabled,
            final(self).baud == old(self).baud,
            final(self).base_addr == old(self).base_addr,
    {
        self.written.push(c);
    }

    /// Receive one character: the oldest pending byte, with a carriage
    /// return converted to a newline; a space when nothing is pending.
    pub fn read_char(&mut self) -> (c: char)
        ensures
            old(self).incoming@.len() == 0 ==> c == ' ' && final(self).incoming
                == old(self).incoming,
            old(self).incoming@.len() > 0 ==> c == decoded_char(old(self).incoming@[0]) && final(self).incoming@ == old(self).incoming@.drop_first(),
            final(self).written == old(self).written,
            final(self).enabled == old(self).enabled,
            final(self).baud == old(self).baud,
            final(self).base_addr == old(self).base_addr,
    {
        if self.incoming.len() > 0 {
            let b = self.incoming.remove(0);
            decode_received(b)
        } else {
            ' '
        }
    }
}

/// The mini UART driver: its state behind the mutual-exclusion cell.
pub struct MiniUart {
    pub inner: NullLock<MiniUartInner>,
}

impl MiniUart {
    pub fn new(base_addr: usize) -> (r: MiniUart)
        ensures
            r.inner.data.base_addr == base_addr,
            r.inner.data.written@.len() == 0,
            r.inner.data.incoming@.len() == 0,
            !r.inner.data.enabled,
    {
        MiniUart { inner: NullLock::new(MiniUartInner::new(base_addr)) }
    }

    /// Hand the driver one byte the hardware received, oldest first.
    pub fn push_incoming(&mut self, b: u8)
        ensures
            final(self).inner.data.incoming@ == old(self).inner.data.incoming@.push(b),
            final(self).inner.data.written == old(self).inner.data.written,
    {
        let inner = self.inner.lock();
        inner.incoming.push(b);
    }
}

impl Write for MiniUart {
    /// See [`MiniUartInner::write_char`].
    fn write_char(&mut self, c: char)
        ensures
            final(self).inner.data.written@ == old(self).inner.data.written@.push(c),
            final(self).inner.data.incoming == old(self).inner.data.incoming,
    {
        let inner = self.inner.lock();
        inner.write_char(c);
    }
}

impl Read for MiniUart {
    /// See [`MiniUartInner::read_char`].
    fn read_char(&mut self) -> (c: char)
        ensures
            old(self).inner.data.incoming@.len() == 0 ==> c == ' ',
            old(self).inner.data.incoming@.len() > 0 ==> c == decoded_char(
                old(self).inner.data.incoming@[0],
            ) && final(self).inner.data.incoming@ == old(self).inner.data.incoming@.drop_first(),
            final(self).inner.data.written == old(self).inner.data.written,
    {
        let inner = self.inner.lock();
        inner.read_char()
    }
}

impl Statistics for MiniUart {
    fn chars_written(&self) -> (r: usize)
        ensures
            r == self.inner.data.written@.len(),
    {
        self.inner.data.written.len()
    }

    /// Reads are not counted by this driver.
    fn chars_read(&self) -> (r: usize)
        ensures
            r == 0,
    {
        0
    }
}

impl DeviceDriver for MiniUart {
    fn compatible(&self) -> (r: &'static str)
        ensures
            r@ == "BCM2XXX MiniUart"@,
    {
        "BCM2XXX MiniUart"
    }

    /// See [`MiniUartInner::init`].
    fn init(&mut self) -> (r: DriverResult)
        ensures
            r == Ok::<(), ()>(()),
            final(self).inner.data.enabled,
            final(self).inner.data.baud == MINI_UART_BAUD,
            final(self).inner.data.written == old(self).inner.data.written,
            final(self).inner.data.incoming == old(self).inner.data.incoming,
    {
        let inner = self.inner.lock();
        inner.init()
    }
}

} // verus!
