//! The driver module: its static descriptions, its initialisation sequence,
//! console bring-up and the probing of a device.
use vstd::prelude::*;
use crate::console::NR;
use crate::error::{errno_of, status_result, to_result};
use crate::of_match::{OfDeviceId, is_ns16550a_entry, of_device_id_list};
use crate::platform_driver::{PlatformDriver, PlatformDriverInfo};
use crate::port::{
    RPort, SetupAction, SetupEvent, SetupState, event_well_formed, setup_action, setup_next, setup_port, setup_start,
    uart_port_init,
};
use crate::uart_driver::UartDriverInfo;
use crate::uart_port::{Resource, UartPort};

verus! {

/// Major number of the tty devices.
pub const TTY_MAJOR: i32 = 4;

/// First minor number of the tty devices.
pub const TTY_MINOR: i32 = 64;

/// Platform device id meaning "legacy device".
pub const PLAT8250_DEV_LEGACY: i32 = -1;

/// The UART driver description: `NR` ports named `ttySZ` from major `4`,
/// minor `64`, driver `serial`, owned by `owner` and with console `cons`.
pub fn uart_driver_info(owner: usize, cons: usize) -> (d: UartDriverInfo)
    ensures
        d.nr == NR as i32,
        d.major == TTY_MAJOR,
        d.minor == TTY_MINOR,
        d.dev_name@ == "ttySZ"@,
        d.driver_name@ == "serial"@,
        d.owner == owner,
        d.cons == cons,
{
    UartDriverInfo {
        nr: 4,
        major: TTY_MAJOR,
        minor: TTY_MINOR,
        dev_name: "ttySZ",
        driver_name: "serial",
        owner,
        cons,
    }
}

/// The platform driver description: driver `of_serial` matching the table at
/// `of_match_table`, with a probe callback.
pub fn platform_driver_info(of_match_table: usize) -> (d: PlatformDriverInfo)
    ensures
        d.name@ == "of_serial"@,
        d.of_match_table == of_match_table,
        d.has_probe,
{
    PlatformDriverInfo { name: "of_serial", of_match_table, has_probe: true }
}

/// The module's data, kept while the module is loaded: its device-tree match
/// table (which the platform driver points at) and a test value.
pub struct PlatformData {
    pub of: Vec<OfDeviceId>,
    pub test: u32,
}

impl PlatformData {
    /// The module's data: the driver's match table and the test value `5`.
    pub fn new() -> (d: PlatformData)
        ensures
            d.of@.len() == 1,
            is_ns16550a_entry(d.of@[0]),
            d.test == 5,
    {
        PlatformData { of: of_device_id_list(), test: 5 }
    }
}

/// The loaded module: its platform driver and its data.
pub struct RustUartModule {
    pub platform_driver: PlatformDriver,
    pub data: PlatformData,
}

impl RustUartModule {
    /// The module once initialisation has succeeded: `data` as allocated, and
    /// the platform driver described by `platform_driver_info(of_match_table)`
    /// (`of_match_table` being the address of `data`'s match table), whose
    /// registration the platform bus answered with `platform_status`; that
    /// answer is recorded but does not make the module fail.
    pub fn new(data: PlatformData, of_match_table: usize, platform_status: i32) -> (m: RustUartModule)
        ensures
            m.data == data,
            m.platform_driver.info().name@ == "of_serial"@,
            m.platform_driver.info().of_match_table == of_match_table,
            m.platform_driver.info().has_probe,
            m.platform_driver.is_registered() == (platform_status >= 0),
            m.platform_driver.history() == seq![platform_status],
    {
        let info = platform_driver_info(of_match_table);
        let mut platform_driver = PlatformDriver::from(info);
        proof {
            PlatformDriver::lemma_unregistered(info);
        }
        let _ = platform_driver.register(platform_status);
        assert(Seq::<i32>::empty().push(platform_status) =~= seq![platform_status]);
        RustUartModule { platform_driver, data }
    }
}

/// Where the initialisation of the module stands.
#[derive(Clone, Copy, Debug, PartialEq, Eq, Structural)]
pub enum InitState {
    /// Nothing done yet.
    Start,
    /// Waiting for the UART driver's registration.
    RegisteringUart,
    /// Waiting for the platform device and the module data to be allocated.
    Allocating,
    /// Waiting for the platform device to be added.
    AddingDevice,
    /// Waiting for the platform driver's registration.
    RegisteringPlatform,
    /// Waiting for the platform device to be deleted.
    DeletingDevice,
    /// Initialisation succeeded.
    Finished,
    /// Initialisation failed with this errno.
    Failed(i32),
}

/// What the module must do next.
#[derive(Clone, Copy, Debug, PartialEq, Eq, Structural)]
pub enum InitAction {
    /// Register the UART driver with the serial core.
    RegisterUartDriver,
    /// Allocate the platform device and the module data.
    Allocate,
    /// Add the platform device.
    AddDevice,
    /// Register the platform driver.
    RegisterPlatformDriver,
    /// Delete the platform device.
    DeleteDevice,
    /// Initialisation is over: succeed.
    Succeed,
    /// Initialisation is over: fail with this errno.
    Fail(i32),
}

/// The transition of the initialisation: from `state`, having observed
/// `status` as the outcome of the last action, the next state and action.
/// Failures of the UART registration, of the allocation and of the device
/// addition abort; the platform driver's registration outcome is not checked.
pub open spec fn init_transition(state: InitState, status: i32) -> (InitState, InitAction) {
    let failed = status_result(status as int);
    match state {
        InitState::Start => (InitState::RegisteringUart, InitAction::RegisterUartDriver),
        InitState::RegisteringUart => match failed {
            Err(e) => (InitState::Failed(e), InitAction::Fail(e)),
            Ok(_) => (InitState::Allocating, InitAction::Allocate),
        },
        InitState::Allocating => match failed {
            Err(e) => (InitState::Failed(e), InitAction::Fail(e)),
            Ok(_) => (InitState::AddingDevice, InitAction::AddDevice),
        },
        InitState::AddingDevice => match failed {
            Err(e) => (InitState::Failed(e), InitAction::Fail(e)),
            Ok(_) => (InitState::RegisteringPlatform, InitAction::RegisterPlatformDriver),
        },
        InitState::RegisteringPlatform => (InitState::DeletingDevice, InitAction::DeleteDevice),
        InitState::DeletingDevice => (InitState::Finished, InitAction::Succeed),
        InitState::Finished => (InitState::Finished, InitAction::Succeed),
        InitState::Failed(e) => (InitState::Failed(e), InitAction::Fail(e)),
    }
}

/// One step of the module's initialisation: `status` is the outcome of the
/// last action (ignored in the states where nothing was awaited).
pub fn init_step(state: InitState, status: i32) -> (r: (InitState, InitAction))
    ensures
        r == init_transition(state, status),
{
    match state {
        InitState::Start => (InitState::RegisteringUart, InitAction::RegisterUartDriver),
        InitState::RegisteringUart => match to_result(status) {
            Err(e) => (InitState::Failed(e.to_errno()), InitAction::Fail(e.to_errno())),
            Ok(()) => (InitState::Allocating, InitAction::Allocate),
        },
        InitState::Allocating => match to_result(status) {
            Err(e) => (InitState::Failed(e.to_errno()), InitAction::Fail(e.to_errno())),
            Ok(()) => (InitState::AddingDevice, InitAction::AddDevice),
        },
        InitState::AddingDevice => match to_result(status) {
            Err(e) => (InitState::Failed(e.to_errno()), InitAction::Fail(e.to_errno())),
            Ok(()) => (InitState::RegisteringPlatform, InitAction::RegisterPlatformDriver),
        },
        InitState::RegisteringPlatform => (InitState::DeletingDevice, InitAction::DeleteDevice),
        InitState::DeletingDevice => (InitState::Finished, InitAction::Succeed),
        InitState::Finished => (InitState::Finished, InitAction::Succeed),
        InitState::Failed(e) => (InitState::Failed(e), InitAction::Fail(e)),
    }
}

/// The state reached from `state` after observing `statuses` in turn.
pub open spec fn init_run(state: InitState, statuses: Seq<i32>) -> InitState
    decreases statuses.len(),
{
    if statuses.len() == 0 {
        state
    } else {
        init_run(init_transition(state, statuses[0]).0, statuses.drop_first())
    }
}

/// Initialisation, started and fed the outcomes `uart` of the UART driver's
/// registration, `alloc` of the allocation, `add` of the device addition and
/// `platform` of the platform driver's registration (then that of the device
/// deletion), finishes exactly when the first three succeed, whatever the
/// platform driver's registration gave; otherwise it fails with the errno of
/// the first of them that failed.
pub proof fn lemma_init_outcome(uart: i32, alloc: i32, add: i32, platform: i32, del: i32)
    ensures
        ({
            let end = init_run(InitState::Start, seq![0i32, uart, alloc, add, platform, del]);
            &&& (end == InitState::Finished) <==> (uart >= 0 && alloc >= 0 && add >= 0)
            &&& uart < 0 ==> status_result(uart as int) == Err::<(), i32>(end->Failed_0)
            &&& uart >= 0 && alloc < 0 ==> status_result(alloc as int) == Err::<(), i32>(
                end->Failed_0,
            )
            &&& uart >= 0 && alloc >= 0 && add < 0 ==> status_result(add as int) == Err::<
                (),
                i32,
            >(end->Failed_0)
        }),
{
    let s = seq![0i32, uart, alloc, add, platform, del];
    assert(s.drop_first() =~= seq![uart, alloc, add, platform, del]);
    assert(s.drop_first().drop_first() =~= seq![alloc, add, platform, del]);
    assert(s.drop_first().drop_first().drop_first() =~= seq![add, platform, del]);
    assert(s.drop_first().drop_first().drop_first().drop_first() =~= seq![platform, del]);
    assert(s.drop_first().drop_first().drop_first().drop_first().drop_first() =~= seq![del]);
    assert(seq![del].drop_first() =~= Seq::<i32>::empty());
    reveal_with_fuel(init_run, 7);
}

/// The action a module in state `s` is waiting to have performed.
pub open spec fn init_awaits(s: InitState) -> InitAction {
    match s {
        InitState::Start => InitAction::RegisterUartDriver,
        InitState::RegisteringUart => InitAction::RegisterUartDriver,
        InitState::Allocating => InitAction::Allocate,
        InitState::AddingDevice => InitAction::AddDevice,
        InitState::RegisteringPlatform => InitAction::RegisterPlatformDriver,
        InitState::DeletingDevice => InitAction::DeleteDevice,
        InitState::Finished => InitAction::Succeed,
        InitState::Failed(e) => InitAction::Fail(e),
    }
}

/// Every initialisation step asks for the action its new state waits for:
/// it fails with `e` exactly when it reaches `Failed(e)`, succeeds exactly
/// when it reaches `Finished`, and asks to delete the device exactly when it
/// reaches `DeletingDevice`, whatever status it observed.
pub proof fn lemma_init_action_awaited(state: InitState, status: i32)
    ensures
        ({
            let (next, action) = init_transition(state, status);
            &&& action == init_awaits(next)
            &&& (action is Fail) == (next is Failed)
            &&& action is Fail ==> action->Fail_0 == next->Failed_0
            &&& (action == InitAction::Succeed) == (next == InitState::Finished)
            &&& (action == InitAction::DeleteDevice) == (next == InitState::DeletingDevice)
            &&& next != InitState::Start
        }),
{
}

/// A failed step reaches `Failed` with the errno of the status it observed.
pub proof fn lemma_init_failure_errno(state: InitState, status: i32)
    requires
        state == InitState::RegisteringUart || state == InitState::Allocating || state
            == InitState::AddingDevice,
        status < 0,
    ensures
        init_transition(state, status) == (InitState::Failed(errno_of(status)), InitAction::Fail(
            errno_of(status),
        )),
{
}

/// The actions asked for from `state` while observing `statuses` in turn.
pub open spec fn init_actions(state: InitState, statuses: Seq<i32>) -> Seq<InitAction>
    decreases statuses.len(),
{
    if statuses.len() == 0 {
        Seq::empty()
    } else {
        let (next, action) = init_transition(state, statuses[0]);
        seq![action] + init_actions(next, statuses.drop_first())
    }
}

/// Initialisation asks, in order: register the UART driver, allocate, add the
/// device, register the platform driver, delete the device, succeed, as soon
/// as the UART registration, the allocation and the device addition succeed,
/// whatever the platform driver's registration gave. If one of those three
/// fails, every later action is `Fail` with its errno.
pub proof fn lemma_init_actions(uart: i32, alloc: i32, add: i32, platform: i32, del: i32)
    ensures
        ({
            let acts = init_actions(InitState::Start, seq![0i32, uart, alloc, add, platform, del]);
            &&& uart >= 0 && alloc >= 0 && add >= 0 ==> acts == seq![
                InitAction::RegisterUartDriver,
                InitAction::Allocate,
                InitAction::AddDevice,
                InitAction::RegisterPlatformDriver,
                InitAction::DeleteDevice,
                InitAction::Succeed,
            ]
            &&& uart < 0 ==> acts == seq![
                InitAction::RegisterUartDriver,
                InitAction::Fail(errno_of(uart)),
                InitAction::Fail(errno_of(uart)),
                InitAction::Fail(errno_of(uart)),
                InitAction::Fail(errno_of(uart)),
                InitAction::Fail(errno_of(uart)),
            ]
            &&& uart >= 0 && alloc < 0 ==> acts == seq![
                InitAction::RegisterUartDriver,
                InitAction::Allocate,
                InitAction::Fail(errno_of(alloc)),
                InitAction::Fail(errno_of(alloc)),
                InitAction::Fail(errno_of(alloc)),
                InitAction::Fail(errno_of(alloc)),
            ]
            &&& uart >= 0 && alloc >= 0 && add < 0 ==> acts == seq![
                InitAction::RegisterUartDriver,
                InitAction::Allocate,
                InitAction::AddDevice,
                InitAction::Fail(errno_of(add)),
                InitAction::Fail(errno_of(add)),
                InitAction::Fail(errno_of(add)),
            ]
        }),
{
    let s = seq![0i32, uart, alloc, add, platform, del];
    assert(s.drop_first() =~= seq![uart, alloc, add, platform, del]);
    assert(s.drop_first().drop_first() =~= seq![alloc, add, platform, del]);
    assert(s.drop_first().drop_first().drop_first() =~= seq![add, platform, del]);
    assert(s.drop_first().drop_first().drop_first().drop_first() =~= seq![platform, del]);
    assert(s.drop_first().drop_first().drop_first().drop_first().drop_first() =~= seq![del]);
    assert(seq![del].drop_first() =~= Seq::<i32>::empty());
    reveal_with_fuel(init_actions, 7);
    let a = init_actions(InitState::Start, s);
    if uart >= 0 && alloc >= 0 && add >= 0 {
        assert(a =~= seq![
            InitAction::RegisterUartDriver,
            InitAction::Allocate,
            InitAction::AddDevice,
            InitAction::RegisterPlatformDriver,
            InitAction::DeleteDevice,
            InitAction::Succeed,
        ]);
    }
    if uart < 0 {
        assert(a =~= seq![
            InitAction::RegisterUartDriver,
            InitAction::Fail(errno_of(uart)),
            InitAction::Fail(errno_of(uart)),
            InitAction::Fail(errno_of(uart)),
            InitAction::Fail(errno_of(uart)),
            InitAction::Fail(errno_of(uart)),
        ]);
    }
    if uart >= 0 && alloc < 0 {
        assert(a =~= seq![
            InitAction::RegisterUartDriver,
            InitAction::Allocate,
            InitAction::Fail(errno_of(alloc)),
            InitAction::Fail(errno_of(alloc)),
            InitAction::Fail(errno_of(alloc)),
            InitAction::Fail(errno_of(alloc)),
        ]);
    }
    if uart >= 0 && alloc >= 0 && add < 0 {
        assert(a =~= seq![
            InitAction::RegisterUartDriver,
            InitAction::Allocate,
            InitAction::AddDevice,
            InitAction::Fail(errno_of(add)),
            InitAction::Fail(errno_of(add)),
            InitAction::Fail(errno_of(add)),
        ]);
    }
}

/// The port a probe uses: the console's index, or port `0` if the console is
/// not bound to a port.
pub fn probe_port_index(console_index: i16) -> (i: usize)
    requires
        (console_index as int) < NR,
    ensures
        i == if console_index < 0 {
            0
        } else {
            console_index as int
        },
{
    if console_index < 0 {
        0
    } else {
        console_index as usize
    }
}

/// Begins probing device `dev`: the port is the one `probe_port_index` picks
/// from the console index, runtime power management is to be resumed, and the
/// first action is the lookup of the register window.
pub fn probe_start(console_index: i16, dev: usize) -> (r: (SetupState, SetupAction))
    requires
        (console_index as int) < NR,
    ensures
        r.0 == setup_start(
            (if console_index < 0 {
                0
            } else {
                console_index as int
            }) as usize,
            dev,
            true,
        ),
        r.1 == SetupAction::LookupResource,
{
    let index: usize = probe_port_index(console_index);
    (SetupState::AwaitResource { index, dev, with_pm: true }, SetupAction::LookupResource)
}

/// One step of probing a device: the step `RPort::register` takes, on the
/// port the probe works on; the other ports are untouched.
pub fn probe_step(state: SetupState, ports: &mut [UartPort; NR], event: SetupEvent) -> (r: (
    SetupState,
    SetupAction,
))
    requires
        state.well_formed(),
        event_well_formed(state, event),
        state.port_index() matches Some(i) ==> i < NR,
    ensures
        r.0 == setup_next(state, event),
        r.0.well_formed(),
        r.0.port_index() matches Some(i) ==> i < NR,
        setup_action(state, event, r.1),
        state.port_index() is None ==> final(ports)@ == old(ports)@,
        state.port_index() matches Some(i) ==> final(ports)@ == old(ports)@.update(
            i as int,
            setup_port(state, old(ports)@[i as int], event),
        ),
{
    let index: usize = match state {
        SetupState::AwaitResource { index, .. } => index,
        SetupState::AwaitIrq { index, .. } => index,
        SetupState::AwaitAllocation { index } => index,
        SetupState::AwaitAdd { index } => index,
        SetupState::Done(code) => {
            return (SetupState::Done(code), SetupAction::Finish(code));
        },
    };
    let mut port = ports[index];
    let r = RPort::register(state, &mut port, event);
    ports[index] = port;
    r
}

/// Early bring-up of the console ports: port `i` gets id and line `i`, the
/// operations table `ops`, controller 0, no power-management callback and its
/// SysRq byte `'1'`.
pub fn console_init(ports: &mut [UartPort; NR], ops: usize)
    ensures
        forall|i: int|
            0 <= i < NR ==> #[trigger] final(ports)@[i] == (UartPort {
                port_id: i as u32,
                line: i as u32,
                ctrl_id: 0,
                pm: false,
                ops,
                has_sysrq: 49,
                ..old(ports)@[i]
            }),
{
    let ghost orig = ports@;
    let mut i: usize = 0;
    while i < NR
        invariant
            0 <= i <= NR,
            ports@.len() == NR,
            forall|j: int|
                0 <= j < i ==> #[trigger] ports@[j] == (UartPort {
                    port_id: j as u32,
                    line: j as u32,
                    ctrl_id: 0,
                    pm: false,
                    ops,
                    has_sysrq: 49,
                    ..orig[j]
                }),
            forall|j: int| i <= j < NR ==> #[trigger] ports@[j] == orig[j],
        decreases NR - i,
    {
        let mut port = ports[i];
        uart_port_init(i as u32, &mut port, ops);
        ports[i] = port;
        i = i + 1;
    }
}

/// Removing a device: nothing to undo, always `0`.
pub fn remove() -> (r: i32)
    ensures
        r == 0,
{
    0
}

/// Suspending a device: nothing to save, always `0`.
pub fn suspend() -> (r: i32)
    ensures
        r == 0,
{
    0
}

/// Resuming a device: nothing to restore, always `0`.
pub fn resume() -> (r: i32)
    ensures
        r == 0,
{
    0
}

} // verus!
