//! Trait definitions coupling the kernel to the board support code:
//! the console surface, the mutual-exclusion contract, and the device
//! driver lifecycle contract.

use vstd::prelude::*;

verus! {

/// Console write operations.
pub trait Write {
    /// Send one character to the console.
    fn write_char(&mut self, c: char);
}

/// Console read operations.
pub trait Read {
    /// Receive one character from the console.
    fn read_char(&mut self) -> char;
}

/// Console usage counters.
pub trait Statistics {
    /// How many characters have been written so far.
    fn chars_written(&self) -> usize;

    /// How many characters have been read so far.
    fn chars_read(&self) -> usize;
}

/// Exclusive, scoped access to a wrapped piece of state.
///
/// `lock` hands out one mutable borrow of the data; the borrow rules
/// make a second simultaneously-live access unrepresentable, so all
/// mutation of the wrapped state is sequenced by call order.
pub trait Mutex {
    type Data;

    /// The wrapped state, as seen in contracts.
    spec fn contents(&self) -> Self::Data;

    /// Yield exclusive access to the wrapped state for the lifetime of
    /// the returned borrow.
    fn lock(&mut self) -> (guard: &mut Self::Data)
        ensures
            *guard == old(self).contents(),
            final(self).contents() == *final(guard),
    ;
}

/// Outcome of one driver's one-time hardware setup.
pub type DriverResult = Result<(), ()>;

/// The uniform lifecycle contract every peripheral driver conforms to.
pub trait DeviceDriver {
    /// A human-readable compatibility string, used only for diagnostics.
    fn compatible(&self) -> &'static str;

    /// One-time hardware setup, invoked by the lifecycle sequencer.
    fn init(&mut self) -> DriverResult;
}

} // verus!
