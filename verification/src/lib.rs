//! Verified model of a 16550A-compatible UART platform driver: errno handling,
//! driver and port registration state, port configuration, console setup and
//! option parsing.
pub mod error;
pub mod uart_port;
pub mod platform_driver;
pub mod uart_driver;
pub mod uart;
pub mod serial8250;
pub mod uart_ops;
pub mod port;
pub mod cstr;
pub mod console;
pub mod of_match;
pub mod rust_uart;
