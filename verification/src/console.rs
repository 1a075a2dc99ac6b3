//! The system console backed by the UART ports, and its set-up.
use vstd::prelude::*;
use crate::cstr::{c_str, lemma_c_str_of_prefix};
use crate::error::{Error, ENODEV, enodev, result_view, status_result, to_result};
use crate::uart_port::UartPort;

verus! {

/// Number of ports the driver manages.
pub const NR: usize = 4;

/// Console flag: replay the log buffer when the console is registered.
pub const CON_PRINTBUFFER: i16 = 1;

/// Console flag: usable even before the CPU is online.
pub const CON_ANYTIME: i16 = 16;

/// A console: its name, which callbacks it provides, its flags and index, and
/// the address of its private data (`0` if none).
#[derive(Clone, Copy, Debug)]
pub struct Console {
    pub name: [u8; 16],
    pub write: bool,
    pub read: bool,
    pub device: bool,
    pub unblank: bool,
    pub setup: bool,
    pub exit: bool,
    pub match_: bool,
    pub write_atomic: bool,
    pub flags: i16,
    pub index: i16,
    pub cflag: i32,
    pub ispeed: u32,
    pub ospeed: u32,
    pub seq: u64,
    pub dropped: u64,
    pub data: usize,
}

/// The console name `ttyS`.
pub open spec fn tty_s() -> Seq<u8> {
    seq![116u8, 116, 121, 83]
}

impl Console {
    /// The UART console for the driver at address `reg`: named `ttyS`, with
    /// write, read, device, set-up and match callbacks, printing the log
    /// buffer and usable at any time, not yet bound to a port (index `-1`).
    pub fn new(reg: usize) -> (c: Console)
        ensures
            c.name@ == seq![116u8, 116, 121, 83, 0, 0, 0, 0, 0, 0, 0, 0, 0, 0, 0, 0],
            c_str(c.name@) == tty_s(),
            c.write && c.read && c.device && c.setup && c.match_,
            !c.unblank && !c.exit && !c.write_atomic,
            c.flags == CON_PRINTBUFFER | CON_ANYTIME,
            c.index == -1,
            c.cflag == 0 && c.ispeed == 0 && c.ospeed == 0,
            c.seq == 0 && c.dropped == 0,
            c.data == reg,
    {
        let name: [u8; 16] = [116, 116, 121, 83, 0, 0, 0, 0, 0, 0, 0, 0, 0, 0, 0, 0];
        let c = Console {
            name,
            write: true,
            read: true,
            device: true,
            unblank: false,
            setup: true,
            exit: false,
            match_: true,
            write_atomic: false,
            flags: CON_PRINTBUFFER | CON_ANYTIME,
            index: -1,
            cflag: 0,
            ispeed: 0,
            ospeed: 0,
            seq: 0,
            dropped: 0,
            data: reg,
        };
        assert(c.name@ =~= seq![116u8, 116, 121, 83, 0, 0, 0, 0, 0, 0, 0, 0, 0, 0, 0, 0]);
        proof {
            lemma_c_str_of_prefix(c.name@, tty_s());
        }
        c
    }
}

/// Binds the console at address `co_addr` to the first port: the console's
/// index becomes `0` and port `0` records the console; other ports are
/// untouched. Always answers `0` (match).
pub fn console_match(co: &mut Console, co_addr: usize, ports: &mut [UartPort; NR]) -> (r: i32)
    ensures
        r == 0,
        *final(co) == (Console { index: 0, ..*old(co) }),
        final(ports)@ == old(ports)@.update(0, UartPort { cons: co_addr, ..old(ports)@[0] }),
{
    co.index = 0;
    ports[0].cons = co_addr;
    0
}

/// Sets the console up with the option string `options`, on the port selected
/// by its index. Always succeeds.
pub fn console_setup(co: &Console, options: &str, ports: &[UartPort; NR]) -> (r: i32)
    requires
        0 <= co.index < NR,
    ensures
        r == 0,
{
    let index: usize = co.index as usize;
    let _port = &ports[index];
    0
}

/// Whether the port has neither an I/O port nor mapped registers.
pub open spec fn has_no_io(port: UartPort) -> bool {
    port.iobase == 0 && port.membase == 0
}

/// Whether early set-up of a console port must resume its device: exactly
/// when the port has I/O (an I/O port or mapped registers) and a device.
pub fn u8250_resume_owed(port: &UartPort) -> (b: bool)
    ensures
        b == (!has_no_io(*port) && port.dev != 0),
{
    !(port.iobase == 0 && port.membase == 0) && port.dev != 0
}

/// Early set-up of a console port: a port with neither an I/O port nor mapped
/// registers is refused with `ENODEV`; a port with a device has that device
/// resumed, `resume_status` being what the runtime-PM resume returned; any
/// other port succeeds. The device is resumed only where `u8250_resume_owed`
/// says so, and `resume_status` is read only there. The port is not changed.
pub fn u8250_console_setup(port: &UartPort, early: bool, resume_status: i32) -> (r: Result<(), Error>)
    ensures
        has_no_io(*port) ==> result_view(r) == Err::<(), i32>(ENODEV),
        !has_no_io(*port) && port.dev != 0 ==> result_view(r) == status_result(resume_status as int),
        !has_no_io(*port) && port.dev == 0 ==> r is Ok,
{
    if port.iobase == 0 && port.membase == 0 {
        return Err(enodev());
    }
    if port.dev != 0 {
        to_result(resume_status)?;
    }
    Ok(())
}

} // verus!
