//! The UART driver description registered with the serial core.
use vstd::prelude::*;
use crate::error::{Error, result_view, status_result, to_result};
use crate::uart_port::UartPort;

verus! {

/// What the serial core is told about a UART driver: how many ports it has,
/// its character-device numbers and names, and the addresses of its owning
/// module and console (`0` if none).
#[derive(Clone, Copy, Debug)]
pub struct UartDriverInfo {
    pub nr: i32,
    pub major: i32,
    pub minor: i32,
    pub dev_name: &'static str,
    pub driver_name: &'static str,
    pub owner: usize,
    pub cons: usize,
}

/// The description with no port, no names and no owner or console.
pub open spec fn empty_uart_driver_info(d: UartDriverInfo) -> bool {
    &&& d.nr == 0 && d.major == 0 && d.minor == 0
    &&& d.dev_name@ == ""@ && d.driver_name@ == ""@
    &&& d.owner == 0 && d.cons == 0
}

impl Default for UartDriverInfo {
    fn default() -> (d: Self)
        ensures
            empty_uart_driver_info(d),
    {
        UartDriverInfo { nr: 0, major: 0, minor: 0, dev_name: "", driver_name: "", owner: 0, cons: 0 }
    }
}

/// A UART driver owned by this module.
pub struct UartDriver {
    driver: UartDriverInfo,
}

impl View for UartDriver {
    type V = UartDriverInfo;

    closed spec fn view(&self) -> UartDriverInfo {
        self.driver
    }
}

impl UartDriver {
    /// Wraps a driver description.
    pub fn from_struct(div: UartDriverInfo) -> (d: UartDriver)
        ensures
            d@ == div,
    {
        UartDriver { driver: div }
    }

    /// The driver description handed to the serial core.
    pub fn as_ptr(&self) -> (d: &UartDriverInfo)
        ensures
            *d == self@,
    {
        &self.driver
    }

    /// Outcome of registering the driver with the serial core: `status` is
    /// what the serial core returned.
    pub fn register(&self, status: i32) -> (r: Result<(), Error>)
        ensures
            result_view(r) == status_result(status as int),
    {
        to_result(status)
    }

    /// Outcome of adding `port` to the driver: `status` is what the serial
    /// core returned.
    pub fn add_one_port(&self, port: &UartPort, status: i32) -> (r: Result<(), Error>)
        ensures
            result_view(r) == status_result(status as int),
    {
        to_result(status)
    }
}

impl From<UartDriverInfo> for UartDriver {
    fn from(value: UartDriverInfo) -> (d: Self) {
        UartDriver { driver: value }
    }
}

impl vstd::std_specs::convert::FromSpecImpl<UartDriverInfo> for UartDriver {
    open spec fn obeys_from_spec() -> bool {
        true
    }

    open spec fn from_spec(v: UartDriverInfo) -> Self {
        uart_driver_of(v)
    }
}

/// The driver wrapping `v`.
pub closed spec fn uart_driver_of(v: UartDriverInfo) -> UartDriver {
    UartDriver { driver: v }
}

/// The driver made from a description holds it.
pub proof fn lemma_uart_driver_of(v: UartDriverInfo)
    ensures
        uart_driver_of(v)@ == v,
{
}

/// A reference to a UART driver owned elsewhere, kept as its address.
#[derive(Clone, Copy, Debug)]
pub struct UartDriverRef {
    addr: usize,
}

impl View for UartDriverRef {
    type V = usize;

    closed spec fn view(&self) -> usize {
        self.addr
    }
}

impl UartDriverRef {
    /// The address of the referenced driver.
    pub fn as_ptr(&self) -> (p: usize)
        ensures
            p == self@,
    {
        self.addr
    }
}

/// The reference to the driver at `addr`.
pub closed spec fn uart_driver_ref_of(addr: usize) -> UartDriverRef {
    UartDriverRef { addr }
}

/// The reference made from an address holds it.
pub proof fn lemma_uart_driver_ref_of(addr: usize)
    ensures
        uart_driver_ref_of(addr)@ == addr,
{
}

impl From<usize> for UartDriverRef {
    fn from(value: usize) -> (r: Self) {
        UartDriverRef { addr: value }
    }
}

impl vstd::std_specs::convert::FromSpecImpl<usize> for UartDriverRef {
    open spec fn obeys_from_spec() -> bool {
        true
    }

    open spec fn from_spec(v: usize) -> Self {
        uart_driver_ref_of(v)
    }
}

} // verus!
