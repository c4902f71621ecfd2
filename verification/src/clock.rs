//! Clock configurator: derives a validated clock-tree descriptor from the
//! board's oscillator and the requested system and peripheral frequencies.
use vstd::prelude::*;

use crate::BringUpError;

verus! {

/// Frequency of the fixed PLL output that feeds the serial peripheral
/// clock, in Hz.
pub const UART_PLL_HZ: u32 = 160_000_000;

/// The only crystal frequency the clock tree's PLL accepts as its
/// reference, in Hz (the board's 40 MHz crystal).
pub const SUPPORTED_CRYSTAL_HZ: u32 = 40_000_000;

/// Largest value of the integer divider between the UART PLL output and
/// the peripheral clock (a three-bit divider field: divide by 1 to 8).
pub const MAX_UART_CLOCK_DIVIDER: u32 = 8;

/// The fixed, enumerated set of system-clock frequencies the clock tree
/// can produce.
#[derive(Clone, Copy, Debug, PartialEq, Eq, Structural)]
pub enum SysClkSel {
    Crystal40Mhz,
    Pll48Mhz,
    Pll120Mhz,
    Pll160Mhz,
    Pll192Mhz,
}

impl SysClkSel {
    /// The system-clock frequency this selection produces, in Hz.
    pub open spec fn hz_spec(self) -> u32 {
        match self {
            SysClkSel::Crystal40Mhz => 40_000_000,
            SysClkSel::Pll48Mhz => 48_000_000,
            SysClkSel::Pll120Mhz => 120_000_000,
            SysClkSel::Pll160Mhz => 160_000_000,
            SysClkSel::Pll192Mhz => 192_000_000,
        }
    }

    pub fn hz(self) -> (r: u32)
        ensures
            r == self.hz_spec(),
    {
        match self {
            SysClkSel::Crystal40Mhz => 40_000_000,
            SysClkSel::Pll48Mhz => 48_000_000,
            SysClkSel::Pll120Mhz => 120_000_000,
            SysClkSel::Pll160Mhz => 160_000_000,
            SysClkSel::Pll192Mhz => 192_000_000,
        }
    }
}

/// Whether the requested peripheral (serial) clock can be derived exactly
/// from the UART PLL output through the integer divider: reject rather
/// than silently approximate.
pub open spec fn uart_clock_achievable(uart_clk_hz: u32) -> bool {
    &&& uart_clk_hz > 0
    &&& UART_PLL_HZ % uart_clk_hz == 0
    &&& UART_PLL_HZ / uart_clk_hz <= MAX_UART_CLOCK_DIVIDER
}

/// Permission to program the clock-tree registers. Programming them is not
/// idempotent, so [`configure_clocks`] consumes the permit: one permit,
/// one programming. The caller claims it once at start-up, together with
/// the rest of the hardware resources.
pub struct ClockConfigPermit {
    claimed: (),
}

/// Claims the one clock-configuration permit. To be called once, at
/// start-up, before any clock-dependent peripheral is touched.
pub fn take_clock_config() -> ClockConfigPermit {
    ClockConfigPermit { claimed: () }
}

/// The validated clock-tree descriptor: the single source of truth for
/// every frequency-dependent configuration downstream. Its fields cannot
/// be changed after construction, and only [`configure_clocks`] constructs
/// it, so every descriptor in circulation is achievable.
pub struct ClockDescriptor {
    xtal_hz: u32,
    sysclk_hz: u32,
    uart_clk_hz: u32,
}

impl ClockDescriptor {
    /// Oscillator (crystal) source frequency, in Hz.
    pub closed spec fn spec_xtal_hz(self) -> u32 {
        self.xtal_hz
    }

    /// Selected system-clock frequency, in Hz.
    pub closed spec fn spec_sysclk_hz(self) -> u32 {
        self.sysclk_hz
    }

    /// Selected peripheral (serial) clock frequency, in Hz.
    pub closed spec fn spec_uart_clk_hz(self) -> u32 {
        self.uart_clk_hz
    }

    /// What holds of every descriptor the configurator hands out.
    pub open spec fn wf(self) -> bool {
        &&& self.spec_xtal_hz() == SUPPORTED_CRYSTAL_HZ
        &&& uart_clock_achievable(self.spec_uart_clk_hz())
    }

    pub fn xtal_hz(&self) -> (r: u32)
        ensures
            r == self.spec_xtal_hz(),
    {
        self.xtal_hz
    }

    pub fn sysclk_hz(&self) -> (r: u32)
        ensures
            r == self.spec_sysclk_hz(),
    {
        self.sysclk_hz
    }

    pub fn uart_clk_hz(&self) -> (r: u32)
        ensures
            r == self.spec_uart_clk_hz(),
    {
        self.uart_clk_hz
    }

    /// Runtime form of [`ClockDescriptor::wf`], for callers outside
    /// verified code that must check it before wiring a peripheral.
    pub fn is_valid(&self) -> (r: bool)
        ensures
            r == self.wf(),
    {
        self.xtal_hz == SUPPORTED_CRYSTAL_HZ && self.uart_clk_hz > 0
            && UART_PLL_HZ % self.uart_clk_hz == 0
            && UART_PLL_HZ / self.uart_clk_hz <= MAX_UART_CLOCK_DIVIDER
    }
}

/// Derives the validated clock descriptor for the requested combination,
/// or fails when the clock tree cannot achieve it. Consuming the permit
/// keeps the underlying register programming to once per program lifetime,
/// and every peripheral that needs clock timing takes the descriptor this
/// function returns, so clock configuration always comes first.
pub fn configure_clocks(
    _permit: ClockConfigPermit,
    xtal_hz: u32,
    sys_sel: SysClkSel,
    uart_clk_hz: u32,
) -> (r: Result<ClockDescriptor, BringUpError>)
    ensures
        match r {
            Ok(d) => {
                &&& xtal_hz == SUPPORTED_CRYSTAL_HZ
                &&& uart_clock_achievable(uart_clk_hz)
                &&& d.wf()
                &&& d.spec_xtal_hz() == xtal_hz
                &&& d.spec_sysclk_hz() == sys_sel.hz_spec()
                &&& d.spec_uart_clk_hz() == uart_clk_hz
            },
            Err(e) => {
                &&& !(xtal_hz == SUPPORTED_CRYSTAL_HZ && uart_clock_achievable(uart_clk_hz))
                &&& e == (if xtal_hz != SUPPORTED_CRYSTAL_HZ {
                    BringUpError::UnsupportedCrystal
                } else {
                    BringUpError::UnsupportedUartClock
                })
            },
        },
{
    if xtal_hz != SUPPORTED_CRYSTAL_HZ {
        return Err(BringUpError::UnsupportedCrystal);
    }
    if uart_clk_hz == 0 {
        return Err(BringUpError::UnsupportedUartClock);
    }
    if UART_PLL_HZ % uart_clk_hz != 0 || UART_PLL_HZ / uart_clk_hz > MAX_UART_CLOCK_DIVIDER {
        return Err(BringUpError::UnsupportedUartClock);
    }
    Ok(ClockDescriptor { xtal_hz, sysclk_hz: sys_sel.hz(), uart_clk_hz })
}

} // verus!
