# rust_uart

A verified model of a Linux 16550A-compatible UART platform driver. The
library (`src/`) holds the driver's decisions, each proved against its
contract; `app/` holds the kernel glue (statics, `extern "C"`
callbacks, calls into the kernel) that feeds the library plain values and
performs what it decides. `app/` builds only inside a kernel tree.

- `error`: errno-valued errors, `to_result` / `from_result`.
- `uart_port`: the port record, console option parsing, memory-mapped set-up.
- `platform_driver`, `uart_driver`, `uart`: driver descriptions and their
  registration state.
- `uart_ops`: the operations table and the driver's operations.
- `serial8250`: the 16550A capabilities.
- `port`: per-port state and the preparation of a port before it is added.
- `console`: the console record, its binding to a port and its set-up.
- `of_match`, `cstr`: device-tree match entries and NUL-terminated buffers.
- `rust_uart`: the module's descriptions, its initialisation state machine,
  probing and console bring-up.
