//! Bring-up core for a single-core ARM board: the firmware mailbox
//! property protocol, the ownership-enforcing cell that guards every
//! peripheral's register state, and the driver lifecycle sequencer.
//!
//! Register bit layouts of the individual peripherals are modelled as
//! plain owned fields; the memory-mapped accesses themselves live in the
//! unverified shell around this library.

pub mod board;
pub mod gpio;
pub mod interface;
pub mod lifecycle;
pub mod mail;
pub mod mailbox;
pub mod miniuart;
pub mod peripherals;
pub mod sync;
pub mod uart;
