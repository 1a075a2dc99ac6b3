//! Per-port driver state and the set-up of a port before it is added to the
//! serial core.
use vstd::prelude::*;
use crate::error::{errno_of, Error, ENOMEM, enomem, is_valid_errno, result_code, status_result, to_result, zero_on_success};
use crate::uart_ops::{UartOps, driver_ops_table};
use crate::uart_port::{Resource, UartPort, UPF_IOREMAP, zero_port, mmio_port_flags, UART_CLOCK, UPIO_MEM};

verus! {

/// A port added to the serial core, with its index and line number.
pub struct Port {
    id: u32,
    line: u32,
    port: UartPort,
}

impl Port {
    /// The port's index.
    pub closed spec fn id(&self) -> u32 {
        self.id
    }

    /// The port's line number.
    pub closed spec fn line(&self) -> u32 {
        self.line
    }

    /// The port record.
    pub closed spec fn port(&self) -> UartPort {
        self.port
    }

    /// The record handed to the serial core for a new port: all zero but for
    /// its operations table `ops` and its device `dev`, with no
    /// power-management callback and controller 0.
    pub fn port_template(ops: usize, dev: usize) -> (p: UartPort)
        ensures
            p == (UartPort { ops, dev, ctrl_id: 0, pm: false, ..zero_port() }),
    {
        let mut port = UartPort::default();
        port.ctrl_id = 0;
        port.pm = false;
        port.ops = ops;
        port.dev = dev;
        port
    }

    /// Creates port `index` once the serial core has answered `status` to
    /// adding `Port::port_template(ops, dev)`: on success the port keeps that
    /// record and uses `index` as both its id and its line.
    pub fn new(index: u32, ops: usize, dev: usize, status: i32) -> (r: Result<Port, Error>)
        ensures
            (r is Ok) == (status >= 0),
            r matches Err(e) ==> status_result(status as int) == Err::<(), i32>(e@),
            r matches Ok(p) ==> p.id() == index && p.line() == index && p.port() == (UartPort {
                ops,
                dev,
                ctrl_id: 0,
                pm: false,
                ..zero_port()
            }),
    {
        let port = Port::port_template(ops, dev);
        match to_result(status) {
            Err(e) => Err(e),
            Ok(()) => Ok(Port { id: index, line: index, port }),
        }
    }
}

/// Driver state attached to a probed port: its index and a shadow of its FIFO
/// control register.
#[derive(Debug)]
pub struct RPort {
    pub index: usize,
    cfr: u32,
}

impl RPort {
    /// The index of the port this state belongs to.
    pub closed spec fn port_index(&self) -> usize {
        self.index
    }

    /// The shadowed FIFO control register value.
    pub closed spec fn cfr(&self) -> u32 {
        self.cfr
    }

    /// Fresh state for port `index`, with the FIFO control shadow cleared.
    /// `allocated` is whether the memory for the state was granted; without
    /// it the state cannot be made and the answer is `ENOMEM`.
    pub fn new(index: usize, allocated: bool) -> (r: Result<RPort, Error>)
        ensures
            allocated ==> (r matches Ok(rp) && rp.port_index() == index && rp.cfr() == 0),
            !allocated ==> (r matches Err(e) && e@ == ENOMEM),
    {
        if allocated {
            Ok(RPort { index, cfr: 0 })
        } else {
            Err(enomem())
        }
    }

    /// One step of registering a port with the serial core. From `state`,
    /// having observed `event` as the outcome of the last action, updates the
    /// port record and gives the next state and action, as `setup_next`,
    /// `setup_port` and `setup_action` state:
    ///
    /// - the register window is looked up first; if the lookup fails the
    ///   answer is its errno and nothing else is done;
    /// - then the IRQ is looked up (after enabling and resuming runtime power
    ///   management when the set-up asks for it);
    /// - the port is then configured for memory-mapped access, its lock
    ///   initialised and its state allocated; if the allocation is refused
    ///   the answer is `ENOMEM`;
    /// - otherwise the port is marked for ioremapping, the state (returned in
    ///   the action) is attached to the device and the port is added; the
    ///   answer is `0`, or the errno the serial core gave.
    ///
    /// An event that does not answer the pending action changes nothing and
    /// asks for nothing.
    pub fn register(state: SetupState, port: &mut UartPort, event: SetupEvent) -> (r: (SetupState, SetupAction))
        requires
            state.well_formed(),
            event_well_formed(state, event),
        ensures
            r.0 == setup_next(state, event),
            r.0.well_formed(),
            *final(port) == setup_port(state, *old(port), event),
            setup_action(state, event, r.1),
    {
        match (state, event) {
            (SetupState::AwaitResource { index, dev, with_pm }, SetupEvent::ResourceLooked { status, window }) => {
                match to_result(status) {
                    Err(e) => (SetupState::Done(e.to_errno()), SetupAction::Finish(e.to_errno())),
                    Ok(()) => (
                        SetupState::AwaitIrq { index, dev, window },
                        if with_pm {
                            SetupAction::EnablePmAndGetIrq
                        } else {
                            SetupAction::GetIrq
                        },
                    ),
                }
            },
            (SetupState::AwaitIrq { index, dev, window }, SetupEvent::IrqFound { irq }) => {
                port.configure_mmio(window, irq, dev);
                (SetupState::AwaitAllocation { index }, SetupAction::InitLockAndAllocate)
            },
            (SetupState::AwaitAllocation { index }, SetupEvent::Allocated { granted }) => {
                match RPort::new(index, granted) {
                    Err(e) => (SetupState::Done(e.to_errno()), SetupAction::Finish(e.to_errno())),
                    Ok(rp) => {
                        port.flags = port.flags | UPF_IOREMAP;
                        (SetupState::AwaitAdd { index }, SetupAction::AttachAndAdd(rp))
                    },
                }
            },
            (SetupState::AwaitAdd { index }, SetupEvent::PortAdded { status }) => {
                match to_result(status) {
                    Err(e) => (SetupState::Done(e.to_errno()), SetupAction::Finish(e.to_errno())),
                    Ok(()) => (SetupState::Done(0), SetupAction::Finish(0)),
                }
            },
            (SetupState::Done(code), _) => (SetupState::Done(code), SetupAction::Finish(code)),
            _ => (state, SetupAction::Wait),
        }
    }
}

/// Where the registration of a port stands.
#[derive(Clone, Copy, Debug, PartialEq, Eq, Structural)]
pub enum SetupState {
    /// Waiting for the lookup of the register window of device `dev`, for
    /// port `index`; `with_pm` says whether runtime power management is to be
    /// enabled and resumed before the IRQ lookup.
    AwaitResource { index: usize, dev: usize, with_pm: bool },
    /// Waiting for the IRQ lookup; the register window is `window`.
    AwaitIrq { index: usize, dev: usize, window: Resource },
    /// Waiting for the allocation of the port's state.
    AwaitAllocation { index: usize },
    /// Waiting for the serial core's answer to adding the port.
    AwaitAdd { index: usize },
    /// Over, with this answer: `0` or an errno.
    Done(i32),
}

/// What was observed after an action.
#[derive(Clone, Copy, Debug, PartialEq, Eq, Structural)]
pub enum SetupEvent {
    /// The register window lookup returned `status`, and `window` when it
    /// succeeded.
    ResourceLooked { status: i32, window: Resource },
    /// The IRQ lookup returned `irq`.
    IrqFound { irq: i32 },
    /// The memory for the port's state was granted or not.
    Allocated { granted: bool },
    /// The serial core answered `status` to adding the port.
    PortAdded { status: i32 },
}

/// What the driver must do next.
#[derive(Debug)]
pub enum SetupAction {
    /// Look up the device's register window.
    LookupResource,
    /// Enable runtime power management of the device, resume it (its answer
    /// is not used), then look up the IRQ.
    EnablePmAndGetIrq,
    /// Look up the IRQ.
    GetIrq,
    /// Initialise the port's lock, then allocate the memory for its state.
    InitLockAndAllocate,
    /// Attach this state to the device, then add the port to the serial core.
    AttachAndAdd(RPort),
    /// Over: answer this code.
    Finish(i32),
    /// The event did not answer the pending action: nothing to do.
    Wait,
}

impl SetupState {
    /// A register window awaiting configuration is well formed.
    pub open spec fn well_formed(self) -> bool {
        match self {
            SetupState::AwaitIrq { window, .. } => window.well_formed(),
            _ => true,
        }
    }

    /// The port the registration is about, if it is not over.
    pub open spec fn port_index(self) -> Option<usize> {
        match self {
            SetupState::AwaitResource { index, .. } => Some(index),
            SetupState::AwaitIrq { index, .. } => Some(index),
            SetupState::AwaitAllocation { index } => Some(index),
            SetupState::AwaitAdd { index } => Some(index),
            SetupState::Done(_) => None,
        }
    }
}

/// A successful lookup of a register window gives a well-formed window (the
/// driver cannot size an ill-formed one).
pub open spec fn event_well_formed(state: SetupState, event: SetupEvent) -> bool {
    match (state, event) {
        (SetupState::AwaitResource { .. }, SetupEvent::ResourceLooked { status, window }) => status
            >= 0 ==> window.well_formed(),
        _ => true,
    }
}

/// The state of a registration that begins with the lookup of port `index`'s
/// register window on device `dev`.
pub open spec fn setup_start(index: usize, dev: usize, with_pm: bool) -> SetupState {
    SetupState::AwaitResource { index, dev, with_pm }
}

/// The errno a C status gives, or `0` for success.
pub open spec fn status_code(status: i32) -> i32 {
    result_code(zero_on_success(status_result(status as int)))
}

/// The next state of a registration.
pub open spec fn setup_next(state: SetupState, event: SetupEvent) -> SetupState {
    match (state, event) {
        (SetupState::AwaitResource { index, dev, with_pm }, SetupEvent::ResourceLooked { status, window }) => if status
            < 0 {
            SetupState::Done(status_code(status))
        } else {
            SetupState::AwaitIrq { index, dev, window }
        },
        (SetupState::AwaitIrq { index, .. }, SetupEvent::IrqFound { .. }) => SetupState::AwaitAllocation {
            index,
        },
        (SetupState::AwaitAllocation { index }, SetupEvent::Allocated { granted }) => if granted {
            SetupState::AwaitAdd { index }
        } else {
            SetupState::Done(ENOMEM)
        },
        (SetupState::AwaitAdd { .. }, SetupEvent::PortAdded { status }) => SetupState::Done(
            status_code(status),
        ),
        _ => state,
    }
}

/// The port record after a step: configured for memory-mapped access when the
/// IRQ is found, marked for ioremapping when the state is allocated, and
/// otherwise unchanged.
pub open spec fn setup_port(state: SetupState, port: UartPort, event: SetupEvent) -> UartPort {
    match (state, event) {
        (SetupState::AwaitIrq { dev, window, .. }, SetupEvent::IrqFound { irq }) => mmio_prepared(
            port,
            window,
            irq,
            dev,
        ),
        (SetupState::AwaitAllocation { .. }, SetupEvent::Allocated { granted }) => if granted {
            UartPort { flags: port.flags | UPF_IOREMAP, ..port }
        } else {
            port
        },
        _ => port,
    }
}

/// The action a step asks for: the one the next state awaits (the state to
/// attach being fresh state for the port), `Finish` with the answer once the
/// registration is over, and `Wait` for an event that answers nothing.
pub open spec fn setup_action(state: SetupState, event: SetupEvent, action: SetupAction) -> bool {
    let next = setup_next(state, event);
    match next {
        SetupState::Done(code) => action == SetupAction::Finish(code),
        _ => if next == state {
            action == SetupAction::Wait
        } else {
            match next {
                SetupState::AwaitIrq { .. } => action == (if state->with_pm {
                    SetupAction::EnablePmAndGetIrq
                } else {
                    SetupAction::GetIrq
                }),
                SetupState::AwaitAllocation { .. } => action == SetupAction::InitLockAndAllocate,
                SetupState::AwaitAdd { index } => action matches SetupAction::AttachAndAdd(rp)
                    && rp.port_index() == index && rp.cfr() == 0,
                _ => false,
            }
        },
    }
}

/// The state reached from `state` after observing `events` in turn.
pub open spec fn setup_run(state: SetupState, events: Seq<SetupEvent>) -> SetupState
    decreases events.len(),
{
    if events.len() == 0 {
        state
    } else {
        setup_run(setup_next(state, events[0]), events.drop_first())
    }
}

/// The answer to registering a port whose window lookup returned `lookup`,
/// whose state allocation was `granted` or not, and whose addition the serial
/// core answered with `add`: the errno of the first of them that failed, or
/// `0`.
pub open spec fn setup_answer(lookup: i32, granted: bool, add: i32) -> i32 {
    if lookup < 0 {
        status_code(lookup)
    } else if !granted {
        ENOMEM
    } else {
        status_code(add)
    }
}

/// A registration fed, in order, the outcomes of the window lookup, the IRQ
/// lookup, the allocation and the addition ends with the answer of the first
/// of them that failed (later outcomes being ignored), or `0`; the answer is
/// `0` exactly when the lookup, the allocation and the addition all
/// succeeded, and otherwise a valid errno.
pub proof fn lemma_setup_outcome(
    index: usize,
    dev: usize,
    with_pm: bool,
    lookup: i32,
    window: Resource,
    irq: i32,
    granted: bool,
    add: i32,
)
    ensures
        ({
            let end = setup_run(
                setup_start(index, dev, with_pm),
                seq![
                    SetupEvent::ResourceLooked { status: lookup, window },
                    SetupEvent::IrqFound { irq },
                    SetupEvent::Allocated { granted },
                    SetupEvent::PortAdded { status: add },
                ],
            );
            &&& end == SetupState::Done(setup_answer(lookup, granted, add))
            &&& (setup_answer(lookup, granted, add) == 0) == (lookup >= 0 && granted && add >= 0)
            &&& setup_answer(lookup, granted, add) != 0 ==> is_valid_errno(
                setup_answer(lookup, granted, add) as int,
            )
        }),
{
    let s = seq![
        SetupEvent::ResourceLooked { status: lookup, window },
        SetupEvent::IrqFound { irq },
        SetupEvent::Allocated { granted },
        SetupEvent::PortAdded { status: add },
    ];
    assert(s.drop_first() =~= seq![
        SetupEvent::IrqFound { irq },
        SetupEvent::Allocated { granted },
        SetupEvent::PortAdded { status: add },
    ]);
    assert(s.drop_first().drop_first() =~= seq![
        SetupEvent::Allocated { granted },
        SetupEvent::PortAdded { status: add },
    ]);
    assert(s.drop_first().drop_first().drop_first() =~= seq![SetupEvent::PortAdded { status: add }]);
    assert(seq![SetupEvent::PortAdded { status: add }].drop_first() =~= Seq::<SetupEvent>::empty());
    reveal_with_fuel(setup_run, 5);
}

/// The window lookup step: a failed lookup ends the registration with the
/// lookup's errno and asks for nothing more than answering it; a successful
/// one goes on to the IRQ lookup, resuming runtime power management first
/// when the set-up asks for it. The port is not touched.
pub proof fn lemma_setup_lookup_step(
    index: usize,
    dev: usize,
    with_pm: bool,
    port: UartPort,
    status: i32,
    window: Resource,
    action: SetupAction,
)
    requires
        setup_action(
            SetupState::AwaitResource { index, dev, with_pm },
            SetupEvent::ResourceLooked { status, window },
            action,
        ),
    ensures
        ({
            let st = SetupState::AwaitResource { index, dev, with_pm };
            let ev = SetupEvent::ResourceLooked { status, window };
            &&& setup_port(st, port, ev) == port
            &&& status < 0 ==> setup_next(st, ev) == SetupState::Done(errno_of(status))
                && action == SetupAction::Finish(errno_of(status))
            &&& status >= 0 ==> setup_next(st, ev) == (SetupState::AwaitIrq { index, dev, window })
                && action == (if with_pm {
                SetupAction::EnablePmAndGetIrq
            } else {
                SetupAction::GetIrq
            })
        }),
{
}

/// The IRQ step fills in the port for memory-mapped access: IRQ `irq`, the
/// 3.6864 MHz input clock, no register shift, 8-bit memory-mapped I/O, the
/// device, the window's base and size (its last byte being the window's end),
/// and the flags shared IRQ, boot autoconfiguration, fixed port and fixed
/// type; nothing else changes. It then asks to initialise the lock and
/// allocate the port's state.
pub proof fn lemma_setup_irq_step(
    index: usize,
    dev: usize,
    window: Resource,
    port: UartPort,
    irq: i32,
    action: SetupAction,
)
    requires
        window.well_formed(),
        setup_action(SetupState::AwaitIrq { index, dev, window }, SetupEvent::IrqFound { irq }, action),
    ensures
        ({
            let p = setup_port(SetupState::AwaitIrq { index, dev, window }, port, SetupEvent::IrqFound { irq });
            &&& p == (UartPort {
                irq: irq as u32,
                uartclk: 0x0038_4000u32,
                regshift: 0u8,
                iotype: 2u8,
                dev,
                mapbase: window.start,
                mapsize: (window.end - window.start + 1) as u64,
                flags: 0x3900_0000u64,
                ..port
            })
            &&& p.mapbase + p.mapsize - 1 == window.end
            &&& setup_next(SetupState::AwaitIrq { index, dev, window }, SetupEvent::IrqFound { irq })
                == (SetupState::AwaitAllocation { index })
            &&& action == SetupAction::InitLockAndAllocate
        }),
{
    assert((0x0100_0000u64 | 0x1000_0000u64 | 0x2000_0000u64 | 0x0800_0000u64) == 0x3900_0000u64)
        by (bit_vector);
}

/// The allocation step: a refused allocation ends the registration with
/// `-ENOMEM` and leaves the port as it was; a granted one marks the port's
/// registers for ioremapping and asks to attach fresh state for the port and
/// add it.
pub proof fn lemma_setup_alloc_step(index: usize, port: UartPort, granted: bool, action: SetupAction)
    requires
        setup_action(SetupState::AwaitAllocation { index }, SetupEvent::Allocated { granted }, action),
    ensures
        ({
            let st = SetupState::AwaitAllocation { index };
            let ev = SetupEvent::Allocated { granted };
            &&& !granted ==> setup_next(st, ev) == SetupState::Done(-12i32) && action
                == SetupAction::Finish(-12i32) && setup_port(st, port, ev) == port
            &&& granted ==> setup_next(st, ev) == (SetupState::AwaitAdd { index }) && setup_port(
                st,
                port,
                ev,
            ) == (UartPort { flags: port.flags | 0x8000_0000u64, ..port }) && (action matches SetupAction::AttachAndAdd(
                rp,
            ) && rp.port_index() == index && rp.cfr() == 0)
        }),
{
}

/// The add step ends the registration: the answer, which the action
/// finishes with, is `0` when the serial core accepted the port and its errno
/// otherwise. The port is not touched.
pub proof fn lemma_setup_add_step(index: usize, port: UartPort, status: i32, action: SetupAction)
    requires
        setup_action(SetupState::AwaitAdd { index }, SetupEvent::PortAdded { status }, action),
    ensures
        ({
            let st = SetupState::AwaitAdd { index };
            let ev = SetupEvent::PortAdded { status };
            let code: i32 = if status >= 0 {
                0
            } else {
                errno_of(status)
            };
            &&& setup_next(st, ev) == SetupState::Done(code)
            &&& action == SetupAction::Finish(code)
            &&& setup_port(st, port, ev) == port
        }),
{
}

/// Whenever a step ends the registration with answer `c`, the action it asks
/// for is to finish with `c`; a finished registration stays finished with the
/// same answer.
pub proof fn lemma_setup_finish_action(state: SetupState, event: SetupEvent, action: SetupAction)
    requires
        setup_action(state, event, action),
    ensures
        setup_next(state, event) is Done ==> action == SetupAction::Finish(
            setup_next(state, event)->Done_0,
        ),
        state is Done ==> setup_next(state, event) == state,
{
}

/// An event that does not answer the pending action of an unfinished
/// registration changes nothing and asks for nothing.
pub proof fn lemma_setup_unexpected_event(state: SetupState, port: UartPort, event: SetupEvent, action: SetupAction)
    requires
        setup_action(state, event, action),
        !(state is Done),
        !(state is AwaitResource && event is ResourceLooked),
        !(state is AwaitIrq && event is IrqFound),
        !(state is AwaitAllocation && event is Allocated),
        !(state is AwaitAdd && event is PortAdded),
    ensures
        setup_next(state, event) == state,
        setup_port(state, port, event) == port,
        action == SetupAction::Wait,
{
}

/// `port` configured for memory-mapped access through window `res`, with
/// IRQ lookup result `irq` and device `dev`.
pub open spec fn mmio_prepared(port: UartPort, res: Resource, irq: i32, dev: usize) -> UartPort {
    UartPort {
        irq: irq as u32,
        uartclk: UART_CLOCK,
        regshift: 0,
        dev,
        mapbase: res.start,
        mapsize: (res.end - res.start + 1) as u64,
        iotype: UPIO_MEM,
        flags: mmio_port_flags(),
        ..port
    }
}

/// Early initialisation of port `index`: its id and line become `index`, it
/// gets controller 0, no power-management callback, the operations table
/// `ops`, and its SysRq field is set to the byte `'1'`.
pub fn uart_port_init(index: u32, port: &mut UartPort, ops: usize)
    ensures
        *final(port) == (UartPort {
            port_id: index,
            line: index,
            ctrl_id: 0,
            pm: false,
            ops,
            has_sysrq: 49,
            ..*old(port)
        }),
{
    port.port_id = index;
    port.line = index;
    port.ctrl_id = 0;
    port.pm = false;
    port.ops = ops;
    port.has_sysrq = 49;
}

/// A port's operations together with its driver state.
pub struct PortWarp {
    pub ops: UartOps,
    pub rport: RPort,
}

impl PortWarp {
    /// The driver's operations table and fresh state for port `index`.
    pub fn new(index: usize) -> (w: PortWarp)
        ensures
            w.ops@ == driver_ops_table(),
            w.rport.port_index() == index,
            w.rport.cfr() == 0,
    {
        PortWarp { ops: UartOps::new(), rport: RPort { index, cfr: 0 } }
    }
}

} // verus!
