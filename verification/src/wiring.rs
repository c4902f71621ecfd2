//! Channel wiring: converts raw pin and multiplexer capabilities into a
//! configured serial transmit/receive channel, rejecting mismatched
//! wiring and baud rates the divisor hardware cannot represent exactly.
use vstd::prelude::*;

use crate::BringUpError;
use crate::clock::ClockDescriptor;

verus! {

/// Number of general-purpose pins in the package.
pub const PIN_COUNT: u8 = 23;

/// Number of serial signal lines in the pin matrix; pin `n` can attach
/// only to signal `n % SIGNAL_COUNT`.
pub const SIGNAL_COUNT: u8 = 8;

/// Largest divisor the baud-rate generator register holds.
pub const MAX_BAUD_DIVISOR: u32 = 0xFFFF;

/// The mutually exclusive modes a pin token can be in.
#[derive(Clone, Copy, Debug, PartialEq, Eq, Structural)]
pub enum PinMode {
    /// General purpose, not bound to any internal signal.
    Floating,
    /// Bound to its serial signal line in the pin matrix.
    UartSignal,
}

/// A typed token for one hardware pin in exactly one mode. Conversions
/// consume the token and hand back a new one, so a pin cannot exist in two
/// modes at once, nor be used again after a conversion. The token is
/// deliberately neither copyable nor clonable.
pub struct UartPin {
    id: u8,
    mode: PinMode,
}

impl UartPin {
    /// The pin's index in the package.
    pub closed spec fn spec_id(self) -> u8 {
        self.id
    }

    /// The mode the token currently witnesses.
    pub closed spec fn spec_mode(self) -> PinMode {
        self.mode
    }

    /// The serial signal line this pin reaches through the pin matrix.
    pub open spec fn spec_signal(self) -> u8 {
        self.spec_id() % SIGNAL_COUNT
    }

    pub fn id(&self) -> (r: u8)
        ensures
            r == self.spec_id(),
    {
        self.id
    }

    pub fn signal(&self) -> (r: u8)
        ensures
            r == self.spec_signal(),
    {
        self.id % SIGNAL_COUNT
    }
}

/// The token for pin `id`, in its reset (general purpose) mode. Claimed
/// once per pin at start-up, alongside the other hardware resources.
pub fn floating_pin(id: u8) -> (p: UartPin)
    requires
        id < PIN_COUNT,
    ensures
        p.spec_id() == id,
        p.spec_mode() == PinMode::Floating,
{
    UartPin { id, mode: PinMode::Floating }
}

/// Consumes a pin token and produces the token for the same pin bound to
/// its serial signal line.
pub fn into_uart_signal(pin: UartPin) -> (p: UartPin)
    ensures
        p.spec_id() == pin.spec_id(),
        p.spec_mode() == PinMode::UartSignal,
{
    UartPin { id: pin.id, mode: PinMode::UartSignal }
}

/// The mutually exclusive functions a signal multiplexer can route.
#[derive(Clone, Copy, Debug, PartialEq, Eq, Structural)]
pub enum MuxRole {
    /// The reset function: clear-to-send, routed nowhere useful here.
    ClearToSend,
    /// Serial transmit line of the one UART.
    UartTx,
    /// Serial receive line of the one UART.
    UartRx,
}

/// A typed token for one signal multiplexer in exactly one role; consumed
/// and reissued on every conversion, like [`UartPin`].
pub struct SignalMux {
    id: u8,
    role: MuxRole,
}

impl SignalMux {
    /// Which of the signal lines this multiplexer drives.
    pub closed spec fn spec_id(self) -> u8 {
        self.id
    }

    /// The role the token currently witnesses.
    pub closed spec fn spec_role(self) -> MuxRole {
        self.role
    }

    pub fn id(&self) -> (r: u8)
        ensures
            r == self.spec_id(),
    {
        self.id
    }
}

/// The token for signal multiplexer `id`, in its reset role.
pub fn signal_mux(id: u8) -> (m: SignalMux)
    requires
        id < SIGNAL_COUNT,
    ensures
        m.spec_id() == id,
        m.spec_role() == MuxRole::ClearToSend,
{
    SignalMux { id, role: MuxRole::ClearToSend }
}

/// Consumes a multiplexer token and produces the same multiplexer routed
/// to the UART transmit line.
pub fn into_uart_tx(mux: SignalMux) -> (m: SignalMux)
    ensures
        m.spec_id() == mux.spec_id(),
        m.spec_role() == MuxRole::UartTx,
{
    SignalMux { id: mux.id, role: MuxRole::UartTx }
}

/// Consumes a multiplexer token and produces the same multiplexer routed
/// to the UART receive line.
pub fn into_uart_rx(mux: SignalMux) -> (m: SignalMux)
    ensures
        m.spec_id() == mux.spec_id(),
        m.spec_role() == MuxRole::UartRx,
{
    SignalMux { id: mux.id, role: MuxRole::UartRx }
}

/// Exclusive ownership of the raw UART peripheral. Wiring the channel
/// consumes it, so exactly one [`SerialChannel`] ever owns the hardware;
/// claimed once at start-up.
pub struct UartHandle {
    claimed: (),
}

/// Claims the one UART peripheral handle.
pub fn take_uart() -> UartHandle {
    UartHandle { claimed: () }
}

/// Whether the four wiring tokens form a matched transmit/receive pair:
/// both pins bound to their signal lines, the transmit multiplexer routing
/// the transmit pin's signal and the receive multiplexer the receive
/// pin's.
pub open spec fn wiring_matched(
    tx_pin: UartPin,
    tx_mux: SignalMux,
    rx_pin: UartPin,
    rx_mux: SignalMux,
) -> bool {
    &&& tx_pin.spec_mode() == PinMode::UartSignal
    &&& rx_pin.spec_mode() == PinMode::UartSignal
    &&& tx_mux.spec_role() == MuxRole::UartTx
    &&& rx_mux.spec_role() == MuxRole::UartRx
    &&& tx_mux.spec_id() == tx_pin.spec_signal()
    &&& rx_mux.spec_id() == rx_pin.spec_signal()
}

/// Whether the divisor hardware can express `baud` exactly for peripheral
/// clock `uart_clk_hz`: an integral divisor in the register's range, with
/// no remainder — reject rather than silently approximate.
pub open spec fn baud_achievable(uart_clk_hz: u32, baud: u32) -> bool {
    &&& baud > 0
    &&& uart_clk_hz % baud == 0
    &&& 1 <= uart_clk_hz / baud <= MAX_BAUD_DIVISOR
}

/// The configured serial transmit/receive channel. It owns the UART
/// hardware exclusively from construction on; there is no shutdown path.
/// Its transcript is every byte accepted for transmission, oldest first.
pub struct SerialChannel {
    divisor: u16,
    baud: u32,
    tx_signal: u8,
    rx_signal: u8,
    written: Vec<u8>,
}

impl SerialChannel {
    /// Value programmed into the baud-rate divisor register.
    pub closed spec fn spec_divisor(self) -> u16 {
        self.divisor
    }

    /// Baud rate the channel was wired for.
    pub closed spec fn spec_baud(self) -> u32 {
        self.baud
    }

    /// Signal line carrying transmit data.
    pub closed spec fn spec_tx_signal(self) -> u8 {
        self.tx_signal
    }

    /// Signal line carrying receive data.
    pub closed spec fn spec_rx_signal(self) -> u8 {
        self.rx_signal
    }

    /// Every byte accepted for transmission since construction, oldest
    /// first.
    pub closed spec fn transcript(self) -> Seq<u8> {
        self.written@
    }

    pub fn divisor(&self) -> (r: u16)
        ensures
            r == self.spec_divisor(),
    {
        self.divisor
    }

    pub fn baud(&self) -> (r: u32)
        ensures
            r == self.spec_baud(),
    {
        self.baud
    }

    pub fn tx_signal(&self) -> (r: u8)
        ensures
            r == self.spec_tx_signal(),
    {
        self.tx_signal
    }

    pub fn rx_signal(&self) -> (r: u8)
        ensures
            r == self.spec_rx_signal(),
    {
        self.rx_signal
    }

    /// The bytes accepted so far, for inspection by the channel's owner.
    pub fn written(&self) -> (r: &Vec<u8>)
        ensures
            r@ == self.transcript(),
    {
        &self.written
    }

    /// Accepts one byte for transmission. The underlying hardware write
    /// busy-waits until the transmitter has capacity, so acceptance is
    /// total; nothing else about the channel changes.
    pub fn write_byte(&mut self, byte: u8)
        ensures
            final(self).transcript() == old(self).transcript().push(byte),
            final(self).spec_divisor() == old(self).spec_divisor(),
            final(self).spec_baud() == old(self).spec_baud(),
            final(self).spec_tx_signal() == old(self).spec_tx_signal(),
            final(self).spec_rx_signal() == old(self).spec_rx_signal(),
    {
        self.written.push(byte);
    }
}

/// Wires the serial channel: takes exclusive ownership of the UART, a
/// validated clock descriptor, the requested baud rate, and a matched
/// transmit/receive pin-and-multiplexer pair, and produces the configured
/// channel — or fails, fatally, when the wiring does not line up or the
/// baud rate is not exactly representable. There are no retries: no
/// diagnostic channel exists yet when this runs.
pub fn wire_channel(
    _uart: UartHandle,
    clocks: &ClockDescriptor,
    baud: u32,
    tx_pin: UartPin,
    tx_mux: SignalMux,
    rx_pin: UartPin,
    rx_mux: SignalMux,
) -> (r: Result<SerialChannel, BringUpError>)
    requires
        clocks.wf(),
    ensures
        match r {
            Ok(ch) => {
                &&& wiring_matched(tx_pin, tx_mux, rx_pin, rx_mux)
                &&& baud_achievable(clocks.spec_uart_clk_hz(), baud)
                &&& ch.spec_baud() == baud
                &&& ch.spec_divisor() == clocks.spec_uart_clk_hz() / baud
                &&& ch.spec_tx_signal() == tx_pin.spec_signal()
                &&& ch.spec_rx_signal() == rx_pin.spec_signal()
                &&& ch.transcript() == Seq::<u8>::empty()
            },
            Err(e) => {
                &&& !(wiring_matched(tx_pin, tx_mux, rx_pin, rx_mux)
                    && baud_achievable(clocks.spec_uart_clk_hz(), baud))
                &&& e == (if !wiring_matched(tx_pin, tx_mux, rx_pin, rx_mux) {
                    BringUpError::MismatchedWiring
                } else {
                    BringUpError::UnrepresentableBaudRate
                })
            },
        },
{
    let matched = tx_pin.mode == PinMode::UartSignal && rx_pin.mode == PinMode::UartSignal
        && tx_mux.role == MuxRole::UartTx && rx_mux.role == MuxRole::UartRx
        && tx_mux.id == tx_pin.id % SIGNAL_COUNT && rx_mux.id == rx_pin.id % SIGNAL_COUNT;
    if !matched {
        return Err(BringUpError::MismatchedWiring);
    }
    let uart_clk_hz = clocks.uart_clk_hz();
    if baud == 0 {
        return Err(BringUpError::UnrepresentableBaudRate);
    }
    let d: u32 = uart_clk_hz / baud;
    if uart_clk_hz % baud != 0 || d < 1 || d > MAX_BAUD_DIVISOR {
        return Err(BringUpError::UnrepresentableBaudRate);
    }
    Ok(SerialChannel {
        divisor: d as u16,
        baud,
        tx_signal: tx_pin.id % SIGNAL_COUNT,
        rx_signal: rx_pin.id % SIGNAL_COUNT,
        written: Vec::new(),
    })
}

} // verus!
