//! Capabilities of the 8250-family UART models this driver supports.
use vstd::prelude::*;

verus! {

/// FIFO control register: enable the FIFOs.
pub const UART_FCR_ENABLE_FIFO: u32 = 0x01;

/// FIFO control register: receive-trigger bits.
pub const UART_FCR_TRIGGER_MASK: u32 = 0xc0;

/// FIFO control register: receive trigger at the third level.
pub const UART_FCR_R_TRIG_10: u32 = 0x80;

/// Capability: the UART has a FIFO.
pub const UART_CAP_FIFO: u32 = 0x100;

/// The static description of a UART model.
#[derive(Clone, Copy, Debug)]
pub struct Serial8250Config {
    pub name: &'static str,
    pub fifo_size: u32,
    pub tx_loadsz: u32,
    pub fcr: u32,
    pub rxtrig_bytes: [u32; 4],
    pub flags: u32,
}

/// The receive-trigger level selected by a FIFO control value: an index into
/// the trigger byte counts.
pub open spec fn rx_trigger_index(fcr: u32) -> int {
    ((fcr & UART_FCR_TRIGGER_MASK) >> 6u32) as int
}

impl Serial8250Config {
    /// The 16550A: 16-byte FIFOs, FIFOs enabled with the receive trigger at
    /// 8 bytes, trigger levels of 1, 4, 8 and 14 bytes.
    pub fn ns16550a() -> (c: Self)
        ensures
            c.name@ == "16550A"@,
            c.fifo_size == 16,
            c.tx_loadsz == 16,
            c.fcr == UART_FCR_ENABLE_FIFO | UART_FCR_R_TRIG_10,
            c.rxtrig_bytes@ == seq![1u32, 4, 8, 14],
            c.flags == UART_CAP_FIFO,
            c.fcr & UART_FCR_ENABLE_FIFO != 0,
            c.rxtrig_bytes@[rx_trigger_index(c.fcr)] == 8,
            c.flags & UART_CAP_FIFO != 0,
    {
        let c = Serial8250Config {
            name: "16550A",
            fifo_size: 16,
            tx_loadsz: 16,
            fcr: UART_FCR_ENABLE_FIFO | UART_FCR_R_TRIG_10,
            rxtrig_bytes: [1, 4, 8, 14],
            flags: UART_CAP_FIFO,
        };
        assert((0x01u32 | 0x80u32) & 0x01u32 != 0 && (((0x01u32 | 0x80u32) & 0xc0u32) >> 6u32) == 2u32
            && 0x100u32 & 0x100u32 != 0) by (bit_vector);
        assert(c.rxtrig_bytes@ =~= seq![1u32, 4, 8, 14]);
        c
    }
}

} // verus!
