//! Registration of the UART driver with the serial core, remembering whether
//! it succeeded.
use vstd::prelude::*;
use crate::error::{Error, result_view, status_result};
use crate::platform_driver::{RegistrationState, some_succeeded};
use crate::uart_driver::{UartDriverInfo, empty_uart_driver_info};

pub use crate::platform_driver::PlatformDriver;

verus! {

/// A UART driver description and whether its registration succeeded.
pub struct Registration {
    reg: UartDriverInfo,
    state: RegistrationState,
}

impl Default for Registration {
    fn default() -> (r: Self)
        ensures
            empty_uart_driver_info(r.info()),
            !r.is_registered(),
            r.history() == Seq::<i32>::empty(),
    {
        Registration { reg: UartDriverInfo::default(), state: RegistrationState::new() }
    }
}

impl Registration {
    /// The driver description.
    pub closed spec fn info(&self) -> UartDriverInfo {
        self.reg
    }

    /// Whether the driver is currently registered.
    pub closed spec fn is_registered(&self) -> bool {
        self.state.is_registered()
    }

    /// The outcomes of the driver's registrations since it was made or last
    /// released, in order.
    pub closed spec fn history(&self) -> Seq<i32> {
        self.state.history()
    }

    /// A registration that has not happened yet.
    pub fn new(reg: UartDriverInfo) -> (r: Registration)
        ensures
            r.info() == reg,
            !r.is_registered(),
            r.history() == Seq::<i32>::empty(),
    {
        Registration { reg, state: RegistrationState::new() }
    }

    /// The driver description handed to the serial core.
    pub fn reg(&self) -> (d: &UartDriverInfo)
        ensures
            *d == self.info(),
    {
        &self.reg
    }

    /// Registers the driver on behalf of `module`: the description's owner
    /// becomes `module` whatever happens, and `status` is what the serial
    /// core returned. On success the driver is marked registered. The outcome
    /// joins the history, and the driver is registered exactly when one
    /// outcome of its history succeeded.
    pub fn register(&mut self, module: usize, status: i32) -> (r: Result<(), Error>)
        ensures
            result_view(r) == status_result(status as int),
            final(self).info() == (UartDriverInfo { owner: module, ..old(self).info() }),
            final(self).is_registered() == (old(self).is_registered() || status >= 0),
            final(self).history() == old(self).history().push(status),
            final(self).is_registered() == some_succeeded(final(self).history()),
    {
        self.reg.owner = module;
        self.state.record(status)
    }

    /// Tears the registration down: returns whether the driver must be
    /// unregistered from the serial core, which is exactly when it is
    /// registered, that is when one registration in its history succeeded; it
    /// is then marked unregistered, with an empty history.
    pub fn release(&mut self) -> (must_unregister: bool)
        ensures
            must_unregister == old(self).is_registered(),
            must_unregister == some_succeeded(old(self).history()),
            !final(self).is_registered(),
            final(self).history() == Seq::<i32>::empty(),
            final(self).info() == old(self).info(),
    {
        self.state.release()
    }
}

} // verus!
