use mcu_bringup::clock::{
    configure_clocks, take_clock_config, ClockDescriptor, SysClkSel, SUPPORTED_CRYSTAL_HZ,
    UART_PLL_HZ,
};
use mcu_bringup::wiring::{
    floating_pin, into_uart_rx, into_uart_signal, into_uart_tx, signal_mux, take_uart,
    wire_channel, SerialChannel,
};
use mcu_bringup::BringUpError;

fn reference_clocks() -> ClockDescriptor {
    configure_clocks(
        take_clock_config(),
        SUPPORTED_CRYSTAL_HZ,
        SysClkSel::Pll160Mhz,
        UART_PLL_HZ,
    )
    .expect("reference clock setup must be achievable")
}

fn reference_channel(baud: u32) -> Result<SerialChannel, BringUpError> {
    let clocks = reference_clocks();
    wire_channel(
        take_uart(),
        &clocks,
        baud,
        into_uart_signal(floating_pin(16)),
        into_uart_tx(signal_mux(0)),
        into_uart_signal(floating_pin(7)),
        into_uart_rx(signal_mux(7)),
    )
}

#[test]
fn reference_clock_setup_is_achievable() {
    let d = reference_clocks();
    assert_eq!(d.xtal_hz(), 40_000_000);
    assert_eq!(d.sysclk_hz(), 160_000_000);
    assert_eq!(d.uart_clk_hz(), 160_000_000);
    assert!(d.is_valid());
}

#[test]
fn unsupported_crystal_is_rejected() {
    let r = configure_clocks(take_clock_config(), 32_000_000, SysClkSel::Pll160Mhz, UART_PLL_HZ);
    assert_eq!(r.err(), Some(BringUpError::UnsupportedCrystal));
}

#[test]
fn underivable_uart_clock_is_rejected() {
    // 160 MHz is not an integer multiple of 150 MHz
    let r = configure_clocks(
        take_clock_config(),
        SUPPORTED_CRYSTAL_HZ,
        SysClkSel::Pll160Mhz,
        150_000_000,
    );
    assert_eq!(r.err(), Some(BringUpError::UnsupportedUartClock));
    // 10 MHz would need divider 16, beyond the three-bit divider
    let r2 = configure_clocks(
        take_clock_config(),
        SUPPORTED_CRYSTAL_HZ,
        SysClkSel::Pll160Mhz,
        10_000_000,
    );
    assert_eq!(r2.err(), Some(BringUpError::UnsupportedUartClock));
    // a zero peripheral clock is never derivable
    let r3 = configure_clocks(take_clock_config(), SUPPORTED_CRYSTAL_HZ, SysClkSel::Pll160Mhz, 0);
    assert_eq!(r3.err(), Some(BringUpError::UnsupportedUartClock));
}

#[test]
fn system_clock_selections_have_fixed_frequencies() {
    assert_eq!(SysClkSel::Crystal40Mhz.hz(), 40_000_000);
    assert_eq!(SysClkSel::Pll48Mhz.hz(), 48_000_000);
    assert_eq!(SysClkSel::Pll120Mhz.hz(), 120_000_000);
    assert_eq!(SysClkSel::Pll160Mhz.hz(), 160_000_000);
    assert_eq!(SysClkSel::Pll192Mhz.hz(), 192_000_000);
}

#[test]
fn pin_conversion_binds_matrix_signal() {
    let tx = into_uart_signal(floating_pin(16));
    assert_eq!(tx.id(), 16);
    assert_eq!(tx.signal(), 0);
    let rx = into_uart_signal(floating_pin(7));
    assert_eq!(rx.id(), 7);
    assert_eq!(rx.signal(), 7);
}

#[test]
fn reference_channel_wiring_succeeds() {
    let ch = reference_channel(2_000_000).expect("reference wiring must succeed");
    assert_eq!(ch.baud(), 2_000_000);
    assert_eq!(ch.divisor(), 80); // 160 MHz / 2 MBd, exactly
    assert_eq!(ch.tx_signal(), 0);
    assert_eq!(ch.rx_signal(), 7);
    assert!(ch.written().is_empty());
}

#[test]
fn unrepresentable_baud_rate_is_rejected_not_approximated() {
    // 160 MHz / 3 MBd has a remainder: no exact divisor exists
    let r = reference_channel(3_000_000);
    assert_eq!(r.err(), Some(BringUpError::UnrepresentableBaudRate));
}

#[test]
fn baud_rate_below_divisor_range_is_rejected() {
    // 160 MHz / 2000 Bd = 80000, beyond the 16-bit divisor register
    let r = reference_channel(2_000);
    assert_eq!(r.err(), Some(BringUpError::UnrepresentableBaudRate));
    let r2 = reference_channel(0);
    assert_eq!(r2.err(), Some(BringUpError::UnrepresentableBaudRate));
}

#[test]
fn mismatched_wiring_is_rejected() {
    let clocks = reference_clocks();
    // transmit multiplexer routed to the receive line
    let r = wire_channel(
        take_uart(),
        &clocks,
        2_000_000,
        into_uart_signal(floating_pin(16)),
        into_uart_rx(signal_mux(0)),
        into_uart_signal(floating_pin(7)),
        into_uart_rx(signal_mux(7)),
    );
    assert_eq!(r.err(), Some(BringUpError::MismatchedWiring));
    // multiplexer on the wrong signal line for the pin
    let r2 = wire_channel(
        take_uart(),
        &clocks,
        2_000_000,
        into_uart_signal(floating_pin(16)),
        into_uart_tx(signal_mux(1)),
        into_uart_signal(floating_pin(7)),
        into_uart_rx(signal_mux(7)),
    );
    assert_eq!(r2.err(), Some(BringUpError::MismatchedWiring));
    // pin left in its general-purpose mode
    let r3 = wire_channel(
        take_uart(),
        &clocks,
        2_000_000,
        floating_pin(16),
        into_uart_tx(signal_mux(0)),
        into_uart_signal(floating_pin(7)),
        into_uart_rx(signal_mux(7)),
    );
    assert_eq!(r3.err(), Some(BringUpError::MismatchedWiring));
}

#[test]
fn channel_records_written_bytes_in_order() {
    let mut ch = reference_channel(2_000_000).unwrap();
    ch.write_byte(0x41);
    ch.write_byte(0x42);
    assert_eq!(ch.written().as_slice(), b"AB");
    assert_eq!(ch.divisor(), 80);
}
