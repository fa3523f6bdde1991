use rvsim::bus::{Addressable, BusError};
use rvsim::devices::simple_uart::SimpleUart;

const UART_BASE: u64 = 0x2000_0000;

#[test]
fn transmitted_ascii_reads_back_as_text() {
    let mut uart = SimpleUart::new(UART_BASE);
    for byte in b"hi!" {
        uart.store8(UART_BASE, *byte).expect("transmit should succeed");
    }
    assert_eq!(uart.drained_output(), "hi!");
    assert_eq!(uart.load8(UART_BASE + 4), Ok(1));
    assert_eq!(uart.load8(UART_BASE), Ok(0));
}

#[test]
fn invalid_utf8_is_replaced() {
    let mut uart = SimpleUart::new(UART_BASE);
    uart.store8(UART_BASE, b'a').expect("transmit should succeed");
    uart.store8(UART_BASE, 0xff).expect("transmit should succeed");
    assert_eq!(uart.drained_output(), "a\u{fffd}");
}

#[test]
fn unknown_register_is_refused() {
    let mut uart = SimpleUart::new(UART_BASE);
    assert_eq!(
        uart.store8(UART_BASE + 2, 1),
        Err(BusError::UnmappedAddress { addr: UART_BASE + 2 })
    );
    uart.reset();
    assert_eq!(uart.drained_output(), "");
}
