//! The operations table a UART port exposes to the serial core, and the
//! behaviour of this driver's operations.
use vstd::prelude::*;
use crate::uart_port::UartPort;

verus! {

/// Which operations an operations table provides.
#[derive(Clone, Copy, Debug, PartialEq, Eq, Structural)]
pub struct UartOpsTable {
    pub tx_empty: bool,
    pub set_mctrl: bool,
    pub get_mctrl: bool,
    pub stop_tx: bool,
    pub start_tx: bool,
    pub stop_rx: bool,
    pub enable_ms: bool,
    pub break_ctl: bool,
    pub startup: bool,
    pub shutdown: bool,
    pub flush_buffer: bool,
    pub set_termios: bool,
    pub pm: bool,
    pub port_type: bool,
    pub release_port: bool,
    pub request_port: bool,
    pub config_port: bool,
    pub verify_port: bool,
}

/// The table with no operation.
pub open spec fn empty_ops_table() -> UartOpsTable {
    UartOpsTable {
        tx_empty: false,
        set_mctrl: false,
        get_mctrl: false,
        stop_tx: false,
        start_tx: false,
        stop_rx: false,
        enable_ms: false,
        break_ctl: false,
        startup: false,
        shutdown: false,
        flush_buffer: false,
        set_termios: false,
        pm: false,
        port_type: false,
        release_port: false,
        request_port: false,
        config_port: false,
        verify_port: false,
    }
}

/// The table this driver installs: transmit, modem-control, start-up,
/// termios, type and configuration operations; none for interrupts, break,
/// flushing, power management or port resources.
pub open spec fn driver_ops_table() -> UartOpsTable {
    UartOpsTable {
        tx_empty: true,
        set_mctrl: true,
        get_mctrl: true,
        stop_tx: true,
        start_tx: true,
        stop_rx: true,
        startup: true,
        shutdown: true,
        set_termios: true,
        port_type: true,
        config_port: true,
        ..empty_ops_table()
    }
}

impl Default for UartOpsTable {
    fn default() -> (t: Self)
        ensures
            t == empty_ops_table(),
    {
        UartOpsTable {
            tx_empty: false,
            set_mctrl: false,
            get_mctrl: false,
            stop_tx: false,
            start_tx: false,
            stop_rx: false,
            enable_ms: false,
            break_ctl: false,
            startup: false,
            shutdown: false,
            flush_buffer: false,
            set_termios: false,
            pm: false,
            port_type: false,
            release_port: false,
            request_port: false,
            config_port: false,
            verify_port: false,
        }
    }
}

/// An operations table owned by a port.
pub struct UartOps {
    table: UartOpsTable,
}

impl View for UartOps {
    type V = UartOpsTable;

    closed spec fn view(&self) -> UartOpsTable {
        self.table
    }
}

impl UartOps {
    /// Wraps a table.
    pub fn from_struct(value: UartOpsTable) -> (o: Self)
        ensures
            o@ == value,
    {
        UartOps { table: value }
    }

    /// The table this driver installs on its ports.
    pub fn new() -> (o: Self)
        ensures
            o@ == driver_ops_table(),
    {
        let mut table = UartOpsTable::default();
        table.tx_empty = true;
        table.set_mctrl = true;
        table.get_mctrl = true;
        table.stop_tx = true;
        table.start_tx = true;
        table.stop_rx = true;
        table.startup = true;
        table.shutdown = true;
        table.set_termios = true;
        table.port_type = true;
        table.config_port = true;
        UartOps { table }
    }

    /// The table handed to the serial core.
    pub fn as_ptr(&self) -> (t: &UartOpsTable)
        ensures
            *t == self@,
    {
        &self.table
    }
}

/// The operations wrapping `t`.
pub closed spec fn uart_ops_of(t: UartOpsTable) -> UartOps {
    UartOps { table: t }
}

/// The operations made from a table hold it.
pub proof fn lemma_uart_ops_of(t: UartOpsTable)
    ensures
        uart_ops_of(t)@ == t,
{
}

impl From<UartOpsTable> for UartOps {
    fn from(value: UartOpsTable) -> (o: Self) {
        UartOps { table: value }
    }
}

impl vstd::std_specs::convert::FromSpecImpl<UartOpsTable> for UartOps {
    open spec fn obeys_from_spec() -> bool {
        true
    }

    open spec fn from_spec(v: UartOpsTable) -> Self {
        uart_ops_of(v)
    }
}

/// Whether the transmitter is empty: this driver always answers `0` (not
/// empty).
pub fn tx_empty(port: &UartPort) -> (r: u32)
    ensures
        r == 0,
{
    0
}

/// The modem-control lines: this driver reports none.
pub fn get_mctrl(port: &UartPort) -> (r: u32)
    ensures
        r == 0,
{
    0
}

/// Starts the port up: always succeeds.
pub fn startup(port: &UartPort) -> (r: i32)
    ensures
        r == 0,
{
    0
}

/// The name of the port's type: always `"unknown"`.
pub fn port_type(port: &UartPort) -> (r: &'static str)
    ensures
        r@ == "unknown"@,
{
    "unknown"
}

} // verus!
