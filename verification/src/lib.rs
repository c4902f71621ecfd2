//! Bring-up and periodic-scheduling core for a small single-core
//! microcontroller: clock-tree configuration, serial channel wiring, a
//! panic-safe diagnostic sink, and a cycle-counter driven scheduler.
//!
//! The hardware itself (register programming, the free-running cycle
//! counter, the UART transmitter) lives outside this crate; the crate holds
//! the decisions: which requested configurations are achievable, how pins
//! and multiplexers must be matched, when the periodic work is due, and
//! what every diagnostic write does to the one shared sink.
use vstd::prelude::*;

pub mod clock;
pub mod diag;
pub mod sched;
pub mod wiring;

verus! {

/// A fatal configuration failure during bring-up. Bring-up failures are
/// fatal to the whole system: no diagnostic channel exists yet when they
/// occur, so the caller halts rather than retries.
#[derive(Clone, Copy, Debug, PartialEq, Eq, Structural)]
pub enum BringUpError {
    /// The clock tree's PLL accepts only the board's supported crystal.
    UnsupportedCrystal,
    /// The requested peripheral clock cannot be derived from the UART PLL.
    UnsupportedUartClock,
    /// Transmit or receive pin, signal and multiplexer do not line up.
    MismatchedWiring,
    /// The requested baud rate is not exactly representable by the
    /// divisor hardware for the configured peripheral clock.
    UnrepresentableBaudRate,
}

} // verus!
