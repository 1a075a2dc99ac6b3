//! The UART port record, its configuration and the console option string.
use vstd::prelude::*;
use vstd::arithmetic::div_mod::{lemma_add_mod_noop, lemma_mul_mod_noop_left};
use crate::error::{Error, result_view, status_result, to_result};

verus! {

/// Line settings parsed from a console option string such as `115200n8r`.
#[derive(Clone, Copy, Debug, PartialEq, Eq, Structural)]
pub struct UartOptions {
    pub baud: i32,
    pub parity: i32,
    pub bits: i32,
    pub flow: i32,
}

impl Default for UartOptions {
    fn default() -> (o: Self)
        ensures
            o == (UartOptions { baud: 0, parity: 0, bits: 0, flow: 0 }),
    {
        UartOptions { baud: 0, parity: 0, bits: 0, flow: 0 }
    }
}

/// Whether `b` is an ASCII decimal digit.
pub open spec fn is_digit(b: u8) -> bool {
    48 <= b <= 57
}

/// The byte at `i` of a C string whose bytes before the terminator are `s`:
/// past the end it reads the terminating NUL.
pub open spec fn byte_or_nul(s: Seq<u8>, i: int) -> u8 {
    if 0 <= i < s.len() {
        s[i]
    } else {
        0
    }
}

/// The number of leading decimal digits of `s`.
pub open spec fn leading_digits(s: Seq<u8>) -> nat
    decreases s.len(),
{
    if s.len() == 0 || !is_digit(s[0]) {
        0
    } else {
        1 + leading_digits(s.drop_first())
    }
}

/// The value of a string of decimal digits.
pub open spec fn decimal_value(s: Seq<u8>) -> nat
    decreases s.len(),
{
    if s.len() == 0 {
        0
    } else {
        decimal_value(s.drop_last()) * 10 + (s.last() - 48) as nat
    }
}

/// The settings read from `s`: the leading decimal number as the baud rate
/// (kept modulo 2^32, as the C `int` receives it), then one byte each for the
/// parity, the data bits (as a digit) and the flow control, each only if the
/// string has not ended; absent settings stay `0`.
pub open spec fn parsed_options(s: Seq<u8>) -> UartOptions {
    let n: int = leading_digits(s) as int;
    let p: u8 = byte_or_nul(s, n);
    let b: u8 = byte_or_nul(s, n + 1);
    let f: u8 = byte_or_nul(s, n + 2);
    UartOptions {
        baud: (decimal_value(s.take(n)) % 0x1_0000_0000) as u32 as i32,
        parity: if p != 0 {
            p as i32
        } else {
            0
        },
        bits: if p != 0 && b != 0 {
            (b - 48) as i32
        } else {
            0
        },
        flow: if p != 0 && b != 0 && f != 0 {
            f as i32
        } else {
            0
        },
    }
}

proof fn lemma_leading_digits(s: Seq<u8>, n: int)
    requires
        0 <= n <= s.len(),
        forall|j: int| 0 <= j < n ==> is_digit(#[trigger] s[j]),
        n == s.len() || !is_digit(s[n]),
    ensures
        leading_digits(s) == n,
    decreases n,
{
    if n > 0 {
        let t = s.drop_first();
        assert forall|j: int| 0 <= j < n - 1 implies is_digit(#[trigger] t[j]) by {
            assert(t[j] == s[j + 1]);
        }
        if n < s.len() {
            assert(t[n - 1] == s[n]);
        }
        lemma_leading_digits(t, n - 1);
    }
}

proof fn lemma_decimal_step(s: Seq<u8>, i: int, acc: int)
    requires
        0 <= i < s.len(),
        acc == decimal_value(s.take(i)) % 0x1_0000_0000,
        is_digit(s[i]),
    ensures
        (acc * 10 + (s[i] - 48)) % 0x1_0000_0000 == decimal_value(s.take(i + 1))
            % 0x1_0000_0000,
{
    let m: int = 0x1_0000_0000;
    let d: int = (s[i] - 48) as int;
    let x: int = decimal_value(s.take(i)) as int;
    assert(s.take(i + 1).drop_last() =~= s.take(i));
    assert(decimal_value(s.take(i + 1)) == x * 10 + d);
    lemma_mul_mod_noop_left(x, 10, m);
    lemma_add_mod_noop(x % m * 10, d, m);
    lemma_add_mod_noop(x * 10, d, m);
}

/// The decimal digits of `n`, most significant first (`0` has none).
pub open spec fn digits_of(n: nat) -> Seq<u8>
    decreases n,
{
    if n == 0 {
        Seq::empty()
    } else {
        digits_of(n / 10).push((48 + n % 10) as u8)
    }
}

proof fn lemma_digits_of(n: nat)
    ensures
        decimal_value(digits_of(n)) == n,
        forall|j: int| 0 <= j < digits_of(n).len() ==> is_digit(#[trigger] digits_of(n)[j]),
    decreases n,
{
    if n > 0 {
        lemma_digits_of(n / 10);
        let d = digits_of(n);
        assert(d.drop_last() =~= digits_of(n / 10));
        assert forall|j: int| 0 <= j < d.len() implies is_digit(#[trigger] d[j]) by {
            if j < d.len() - 1 {
                assert(d[j] == digits_of(n / 10)[j]);
            }
        }
    }
}

/// An option string written in the usual form, the baud rate `baud` in
/// decimal followed by a parity byte, a data-bits digit and a flow-control
/// byte (such as `115200n8r`), reads back as those settings, provided the
/// parity byte is not a digit and none of the three bytes is NUL.
pub proof fn lemma_parse_written_options(baud: u32, parity: u8, bits: u8, flow: u8)
    requires
        parity != 0 && !is_digit(parity),
        bits <= 9,
        flow != 0,
    ensures
        parsed_options(digits_of(baud as nat) + seq![parity, (48 + bits) as u8, flow])
            == (UartOptions {
            baud: baud as i32,
            parity: parity as i32,
            bits: bits as i32,
            flow: flow as i32,
        }),
{
    let d = digits_of(baud as nat);
    let s = d + seq![parity, (48 + bits) as u8, flow];
    lemma_digits_of(baud as nat);
    assert forall|j: int| 0 <= j < d.len() implies is_digit(#[trigger] s[j]) by {
        assert(s[j] == d[j]);
    }
    assert(s[d.len() as int] == parity);
    lemma_leading_digits(s, d.len() as int);
    assert(s.take(d.len() as int) =~= d);
    assert(baud as nat % 0x1_0000_0000 == baud as nat);
}

/// An I/O memory resource `[start, end]` (both ends inclusive).
#[derive(Clone, Copy, Debug, PartialEq, Eq, Structural)]
pub struct Resource {
    pub start: u64,
    pub end: u64,
}

impl Resource {
    /// Whether the range is non-empty and its size fits in 64 bits.
    pub open spec fn well_formed(self) -> bool {
        self.start <= self.end && self.end - self.start < u64::MAX
    }
}

/// `UPIO_MEM`: registers accessed as 8-bit memory-mapped I/O.
pub const UPIO_MEM: u8 = 2;

/// The port's IRQ may be shared.
pub const UPF_SHARE_IRQ: u64 = 0x0100_0000;

/// The port type is fixed; do not autodetect it.
pub const UPF_FIXED_TYPE: u64 = 0x0800_0000;

/// Autoconfigure the port at boot.
pub const UPF_BOOT_AUTOCONF: u64 = 0x1000_0000;

/// The port's address is fixed.
pub const UPF_FIXED_PORT: u64 = 0x2000_0000;

/// The port's registers must be ioremapped before use.
pub const UPF_IOREMAP: u64 = 0x8000_0000;

/// The input clock of the UART, in Hz.
pub const UART_CLOCK: u32 = 0x0038_4000;

/// A serial port record, with addresses and handles kept as integers
/// (`0` standing for a null pointer).
#[derive(Clone, Copy, Debug, PartialEq, Eq, Structural)]
pub struct UartPort {
    pub iobase: u64,
    pub membase: usize,
    pub mapbase: u64,
    pub mapsize: u64,
    pub irq: u32,
    pub uartclk: u32,
    pub regshift: u8,
    pub iotype: u8,
    pub flags: u64,
    pub line: u32,
    pub port_id: u32,
    pub ctrl_id: u32,
    pub has_sysrq: u8,
    pub port_type: u32,
    /// The device the port belongs to.
    pub dev: usize,
    /// The operations table the port uses.
    pub ops: usize,
    /// The console attached to the port.
    pub cons: usize,
    /// Whether a power-management callback is installed.
    pub pm: bool,
}

/// The all-zero port.
pub open spec fn zero_port() -> UartPort {
    UartPort {
        iobase: 0,
        membase: 0,
        mapbase: 0,
        mapsize: 0,
        irq: 0,
        uartclk: 0,
        regshift: 0,
        iotype: 0,
        flags: 0,
        line: 0,
        port_id: 0,
        ctrl_id: 0,
        has_sysrq: 0,
        port_type: 0,
        dev: 0,
        ops: 0,
        cons: 0,
        pm: false,
    }
}

/// The flags a memory-mapped port is given before its registers are mapped.
pub open spec fn mmio_port_flags() -> u64 {
    UPF_SHARE_IRQ | UPF_BOOT_AUTOCONF | UPF_FIXED_PORT | UPF_FIXED_TYPE
}

impl Default for UartPort {
    fn default() -> (p: Self)
        ensures
            p == zero_port(),
    {
        UartPort::zero()
    }
}

impl UartPort {
    /// The all-zero port.
    pub fn zero() -> (p: Self)
        ensures
            p == zero_port(),
    {
        UartPort {
            iobase: 0,
            membase: 0,
            mapbase: 0,
            mapsize: 0,
            irq: 0,
            uartclk: 0,
            regshift: 0,
            iotype: 0,
            flags: 0,
            line: 0,
            port_id: 0,
            ctrl_id: 0,
            has_sysrq: 0,
            port_type: 0,
            dev: 0,
            ops: 0,
            cons: 0,
            pm: false,
        }
    }

    /// Whether the port has a device whose runtime power management must be
    /// resumed before use.
    pub open spec fn has_dev(self) -> bool {
        self.dev != 0
    }

    /// Outcome of resuming the port's device: without a device there is
    /// nothing to resume and the call succeeds; otherwise `status` is what the
    /// runtime-PM resume of the device returned.
    pub fn pm_runtime_get_sync(&self, status: i32) -> (r: Result<(), Error>)
        ensures
            !self.has_dev() ==> r is Ok,
            self.has_dev() ==> result_view(r) == status_result(status as int),
    {
        if self.dev == 0 {
            return Ok(());
        }
        to_result(status)
    }

    /// Points the port at an operations table.
    pub fn set_ops(&mut self, ops: usize)
        ensures
            *final(self) == (UartPort { ops, ..*old(self) }),
    {
        self.ops = ops;
    }

    /// Outcome of applying line settings to the port: `status` is what the
    /// serial core returned when given `set_options_args` for `options`.
    pub fn uart_set_options(&self, options: UartOptions, status: i32) -> (r: Result<(), Error>)
        ensures
            result_view(r) == status_result(status as int),
    {
        to_result(status)
    }

    /// The arguments the serial core's option setter receives for this port,
    /// at address `port`, on console `co` with line settings `options`: the
    /// port, the console, then the baud rate, parity, data bits and flow
    /// control, in that order.
    pub fn set_options_args(&self, port: usize, co: usize, options: UartOptions) -> (a: (
        usize,
        usize,
        i32,
        i32,
        i32,
        i32,
    ))
        ensures
            a == (port, co, options.baud, options.parity, options.bits, options.flow),
    {
        (port, co, options.baud, options.parity, options.bits, options.flow)
    }

    /// Parses a console option string such as `115200n8r`. `options` holds the
    /// bytes of the C string before its terminator, or `None` for a null
    /// string, which gives `None`.
    pub fn uart_parse_options(&self, options: Option<&[u8]>) -> (r: Option<UartOptions>)
        ensures
            options is None ==> r is None,
            options matches Some(s) ==> r == Some(parsed_options(s@)),
    {
        match options {
            None => None,
            Some(s) => Some(parse_options(s)),
        }
    }

    /// Fills in a memory-mapped port from its device-tree description: the IRQ
    /// number `irq` (as returned by the IRQ lookup), the device `dev`, and the
    /// register window `res`.
    pub fn configure_mmio(&mut self, res: Resource, irq: i32, dev: usize)
        requires
            res.well_formed(),
        ensures
            *final(self) == (UartPort {
                irq: irq as u32,
                uartclk: UART_CLOCK,
                regshift: 0,
                dev,
                mapbase: res.start,
                mapsize: (res.end - res.start + 1) as u64,
                iotype: UPIO_MEM,
                flags: mmio_port_flags(),
                ..*old(self)
            }),
            final(self).mapbase + final(self).mapsize - 1 == res.end,
    {
        self.irq = irq as u32;
        self.uartclk = UART_CLOCK;
        self.regshift = 0;
        self.dev = dev;
        self.mapbase = res.start;
        self.mapsize = res.end - res.start + 1;
        self.iotype = UPIO_MEM;
        self.flags = UPF_SHARE_IRQ | UPF_BOOT_AUTOCONF | UPF_FIXED_PORT | UPF_FIXED_TYPE;
    }
}

fn byte_at(s: &[u8], i: usize) -> (b: u8)
    ensures
        b == byte_or_nul(s@, i as int),
{
    if i < s.len() {
        s[i]
    } else {
        0
    }
}

/// Parses the bytes of a console option string.
pub fn parse_options(s: &[u8]) -> (o: UartOptions)
    ensures
        o == parsed_options(s@),
{
    let mut i: usize = 0;
    let mut acc: u32 = 0;
    while i < s.len() && 48 <= s[i] && s[i] <= 57
        invariant
            0 <= i <= s.len(),
            forall|j: int| 0 <= j < i ==> is_digit(#[trigger] s@[j]),
            acc as int == decimal_value(s@.take(i as int)) % 0x1_0000_0000,
        decreases s.len() - i,
    {
        proof {
            lemma_decimal_step(s@, i as int, acc as int);
        }
        let next: u64 = (acc as u64 * 10 + (s[i] - 48) as u64) % 0x1_0000_0000;
        acc = next as u32;
        i = i + 1;
    }
    proof {
        lemma_leading_digits(s@, i as int);
    }
    let mut out = UartOptions::default();
    out.baud = acc as i32;
    let p: u8 = byte_at(s, i);
    if p != 0 {
        out.parity = p as i32;
        let b: u8 = byte_at(s, i + 1);
        if b != 0 {
            out.bits = b as i32 - 48;
            let f: u8 = byte_at(s, i + 2);
            if f != 0 {
                out.flow = f as i32;
            }
        }
    }
    out
}

} // verus!
