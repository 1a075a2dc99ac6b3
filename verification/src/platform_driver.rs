//! A platform driver and whether it is registered with the platform bus.
use vstd::prelude::*;
use crate::error::{Error, result_view, status_result, to_result};

verus! {

/// What the platform bus is told about the driver: its name, the address of
/// its device-tree match table (`0` if none) and whether it has a probe
/// callback.
#[derive(Clone, Copy, Debug)]
pub struct PlatformDriverInfo {
    pub name: &'static str,
    pub of_match_table: usize,
    pub has_probe: bool,
}

impl Default for PlatformDriverInfo {
    fn default() -> (d: Self)
        ensures
            d.name@ == ""@,
            d.of_match_table == 0,
            !d.has_probe,
    {
        PlatformDriverInfo { name: "", of_match_table: 0, has_probe: false }
    }
}

/// Whether one of the registration outcomes in `statuses` succeeded.
pub open spec fn some_succeeded(statuses: Seq<i32>) -> bool {
    exists|i: int| 0 <= i < statuses.len() && statuses[i] >= 0
}

/// Appending an outcome: the history has a success exactly when it had one
/// before or the new outcome is one.
pub proof fn lemma_some_succeeded_push(statuses: Seq<i32>, status: i32)
    ensures
        some_succeeded(statuses.push(status)) == (some_succeeded(statuses) || status >= 0),
{
    let t = statuses.push(status);
    if some_succeeded(statuses) {
        let i = choose|i: int| 0 <= i < statuses.len() && statuses[i] >= 0;
        assert(t[i] == statuses[i]);
    }
    if status >= 0 {
        assert(t[statuses.len() as int] == status);
    }
    if some_succeeded(t) {
        let i = choose|i: int| 0 <= i < t.len() && t[i] >= 0;
        if i < statuses.len() {
            assert(t[i] == statuses[i]);
        }
    }
}

/// Whether a driver is registered, with the outcomes of its registrations
/// since it was made or last released: it is registered exactly when one of
/// them succeeded.
pub struct RegistrationState {
    registered: bool,
    history: Ghost<Seq<i32>>,
}

impl RegistrationState {
    #[verifier::type_invariant]
    closed spec fn inv(self) -> bool {
        self.registered == some_succeeded(self.history@)
    }

    /// Whether the driver is registered.
    pub closed spec fn is_registered(&self) -> bool {
        self.registered
    }

    /// The outcomes of the registrations since the state was made or last
    /// released, in order.
    pub closed spec fn history(&self) -> Seq<i32> {
        self.history@
    }

    /// The state of a driver never registered.
    pub closed spec fn initial() -> RegistrationState {
        RegistrationState { registered: false, history: Ghost(Seq::empty()) }
    }

    /// The initial state is not registered and has no history.
    pub proof fn lemma_initial()
        ensures
            !RegistrationState::initial().is_registered(),
            RegistrationState::initial().history() == Seq::<i32>::empty(),
    {
    }

    /// The state of a driver never registered.
    pub fn new() -> (s: RegistrationState)
        ensures
            s == RegistrationState::initial(),
            !s.is_registered(),
            s.history() == Seq::<i32>::empty(),
    {
        RegistrationState { registered: false, history: Ghost(Seq::empty()) }
    }

    /// Records the outcome `status` of a registration: on success the driver
    /// is registered; on failure the state is left as it was. The outcome
    /// joins the history, and the driver is registered exactly when one
    /// outcome of its history succeeded.
    pub fn record(&mut self, status: i32) -> (r: Result<(), Error>)
        ensures
            result_view(r) == status_result(status as int),
            final(self).is_registered() == (old(self).is_registered() || status >= 0),
            final(self).history() == old(self).history().push(status),
            final(self).is_registered() == some_succeeded(final(self).history()),
    {
        proof {
            use_type_invariant(&*self);
            lemma_some_succeeded_push(self.history@, status);
        }
        let r = to_result(status);
        let registered: bool = self.registered || r.is_ok();
        let ghost history = self.history@.push(status);
        *self = RegistrationState { registered, history: Ghost(history) };
        r
    }

    /// Tears the registration down: returns whether the driver must be
    /// unregistered, which is exactly when it is registered, that is when one
    /// registration in its history succeeded; the state then becomes
    /// unregistered, with an empty history.
    pub fn release(&mut self) -> (must_unregister: bool)
        ensures
            must_unregister == old(self).is_registered(),
            must_unregister == some_succeeded(old(self).history()),
            !final(self).is_registered(),
            final(self).history() == Seq::<i32>::empty(),
    {
        proof {
            use_type_invariant(&*self);
        }
        let was = self.registered;
        *self = RegistrationState { registered: false, history: Ghost(Seq::empty()) };
        was
    }
}

/// A platform driver together with whether its registration succeeded, so
/// that it is unregistered exactly when it was registered.
pub struct PlatformDriver {
    driver: PlatformDriverInfo,
    state: RegistrationState,
}

impl PlatformDriver {
    /// The driver description.
    pub closed spec fn info(&self) -> PlatformDriverInfo {
        self.driver
    }

    /// Whether the driver is currently registered.
    pub closed spec fn is_registered(&self) -> bool {
        self.state.is_registered()
    }

    /// The outcomes of the driver's registrations since it was made or last
    /// released, in order.
    pub closed spec fn history(&self) -> Seq<i32> {
        self.state.history()
    }

    /// A driver that is not registered.
    pub closed spec fn unregistered(driver: PlatformDriverInfo) -> PlatformDriver {
        PlatformDriver { driver, state: RegistrationState::initial() }
    }

    /// A driver made from a description holds it, has no registration history
    /// and is not registered.
    pub proof fn lemma_unregistered(driver: PlatformDriverInfo)
        ensures
            PlatformDriver::unregistered(driver).info() == driver,
            !PlatformDriver::unregistered(driver).is_registered(),
            PlatformDriver::unregistered(driver).history() == Seq::<i32>::empty(),
    {
    }

    /// Outcome of registering the driver: `status` is what the platform bus
    /// returned. On success the driver is marked registered; on failure it is
    /// left as it was. The outcome joins the driver's history, and the driver
    /// is registered exactly when one outcome of its history succeeded.
    pub fn register(&mut self, status: i32) -> (r: Result<(), Error>)
        ensures
            result_view(r) == status_result(status as int),
            final(self).info() == old(self).info(),
            final(self).is_registered() == (old(self).is_registered() || status >= 0),
            final(self).history() == old(self).history().push(status),
            final(self).is_registered() == some_succeeded(final(self).history()),
    {
        self.state.record(status)
    }

    /// Mutable access to the driver description handed to the platform bus.
    pub fn as_ptr(&mut self) -> (d: &mut PlatformDriverInfo)
        ensures
            *d == old(self).info(),
            final(self).info() == *final(d),
            final(self).is_registered() == old(self).is_registered(),
            final(self).history() == old(self).history(),
    {
        &mut self.driver
    }

    /// Tears the driver down: returns whether it must be unregistered from
    /// the platform bus, which is exactly when it is registered, that is when
    /// one registration in its history succeeded; it is then marked
    /// unregistered, with an empty history.
    pub fn release(&mut self) -> (must_unregister: bool)
        ensures
            must_unregister == old(self).is_registered(),
            must_unregister == some_succeeded(old(self).history()),
            !final(self).is_registered(),
            final(self).history() == Seq::<i32>::empty(),
            final(self).info() == old(self).info(),
    {
        self.state.release()
    }
}

impl Default for PlatformDriver {
    fn default() -> (d: Self)
        ensures
            d.info().name@ == ""@,
            d.info().of_match_table == 0,
            !d.info().has_probe,
            !d.is_registered(),
            d.history() == Seq::<i32>::empty(),
    {
        PlatformDriver { driver: PlatformDriverInfo::default(), state: RegistrationState::new() }
    }
}

impl From<PlatformDriverInfo> for PlatformDriver {
    fn from(value: PlatformDriverInfo) -> (d: Self) {
        PlatformDriver { driver: value, state: RegistrationState::new() }
    }
}

impl vstd::std_specs::convert::FromSpecImpl<PlatformDriverInfo> for PlatformDriver {
    open spec fn obeys_from_spec() -> bool {
        true
    }

    open spec fn from_spec(v: PlatformDriverInfo) -> Self {
        PlatformDriver::unregistered(v)
    }
}

} // verus!
