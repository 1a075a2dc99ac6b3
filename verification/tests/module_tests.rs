use rust_uart::console::{console_match, console_setup, u8250_console_setup, u8250_resume_owed, Console, CON_ANYTIME, CON_PRINTBUFFER};
use rust_uart::error::{enodev, ENODEV};
use rust_uart::of_match::{new_of_device_id, of_device_id_list, PORT_16550A};
use rust_uart::rust_uart::{
    PlatformData, RustUartModule,
    console_init, init_step, platform_driver_info, probe_port_index, probe_start, probe_step, remove, resume, suspend,
    uart_driver_info, InitAction, InitState,
};
use rust_uart::uart_port::{Resource, UartPort};
use rust_uart::port::{SetupAction, SetupEvent, SetupState};

fn c_str(buf: &[u8]) -> &[u8] {
    let n = buf.iter().position(|&b| b == 0).unwrap_or(buf.len());
    &buf[..n]
}

#[test]
fn console_new_fields() {
    let c = Console::new(0x900);
    assert_eq!(c_str(&c.name), b"ttyS");
    assert_eq!(c.name.len(), 16);
    assert_eq!(c.flags, CON_PRINTBUFFER | CON_ANYTIME);
    assert_eq!(c.flags, 17);
    assert_eq!(c.index, -1);
    assert_eq!(c.data, 0x900);
    assert!(c.write && c.read && c.device && c.setup && c.match_);
    assert!(!c.unblank && !c.exit && !c.write_atomic);
    assert_eq!((c.cflag, c.ispeed, c.ospeed, c.seq, c.dropped), (0, 0, 0, 0, 0));
}

#[test]
fn console_match_binds_first_port() {
    let mut c = Console::new(0x900);
    let mut ports = [UartPort::zero(); 4];
    ports[1].line = 1;
    assert_eq!(console_match(&mut c, 0x555, &mut ports), 0);
    assert_eq!(c.index, 0);
    assert_eq!(ports[0].cons, 0x555);
    assert_eq!(ports[1].cons, 0);
    assert_eq!(ports[1].line, 1);
}

#[test]
fn console_setup_answers_zero() {
    let mut c = Console::new(0);
    c.index = 3;
    let ports = [UartPort::zero(); 4];
    assert_eq!(console_setup(&c, "115200n8", &ports), 0);
}

#[test]
fn console_setup_without_io_is_enodev() {
    let p = UartPort::zero();
    assert_eq!(u8250_console_setup(&p, true, 0), Err(enodev()));
    assert_eq!(u8250_console_setup(&p, true, 0).unwrap_err().to_errno(), ENODEV);
}

#[test]
fn console_setup_resumes_device() {
    let mut p = UartPort::zero();
    p.membase = 0x8000;
    assert_eq!(u8250_console_setup(&p, false, -5), Ok(()));
    p.dev = 0x10;
    assert_eq!(u8250_console_setup(&p, false, 0), Ok(()));
    assert_eq!(u8250_console_setup(&p, false, -5).unwrap_err().to_errno(), -5);
    let mut q = UartPort::zero();
    q.iobase = 0x3f8;
    assert_eq!(u8250_console_setup(&q, true, -5), Ok(()));
}

#[test]
fn of_device_id_copies_compatible() {
    let id = new_of_device_id(b"ns16550a", 4);
    assert_eq!(c_str(&id.compatible), b"ns16550a");
    assert!(id.compatible[8..].iter().all(|&b| b == 0));
    assert!(id.name.iter().all(|&b| b == 0));
    assert!(id.type_.iter().all(|&b| b == 0));
    assert_eq!(id.data, 4);
}

#[test]
fn of_device_id_full_buffer() {
    let comp = [b'x'; 128];
    let id = new_of_device_id(&comp, 1);
    assert_eq!(id.compatible, comp);
}

#[test]
fn of_device_id_list_has_ns16550a() {
    let l = of_device_id_list();
    assert_eq!(l.len(), 1);
    assert_eq!(c_str(&l[0].compatible), b"ns16550a");
    assert_eq!(l[0].data, PORT_16550A as usize);
    assert_eq!(l[0].data, 4);
}

#[test]
fn driver_descriptions() {
    let d = uart_driver_info(0x11, 0x22);
    assert_eq!((d.nr, d.major, d.minor), (4, 4, 64));
    assert_eq!(d.dev_name, "ttySZ");
    assert_eq!(d.driver_name, "serial");
    assert_eq!((d.owner, d.cons), (0x11, 0x22));
    let p = platform_driver_info(0x33);
    assert_eq!(p.name, "of_serial");
    assert_eq!(p.of_match_table, 0x33);
    assert!(p.has_probe);
}

fn run(statuses: &[i32]) -> (InitState, Vec<InitAction>) {
    let mut st = InitState::Start;
    let mut actions = Vec::new();
    for &s in statuses {
        let (n, a) = init_step(st, s);
        st = n;
        actions.push(a);
    }
    (st, actions)
}

#[test]
fn init_succeeds_in_order() {
    let (st, actions) = run(&[0, 0, 0, 0, 0, 0]);
    assert_eq!(st, InitState::Finished);
    assert_eq!(
        actions,
        vec![
            InitAction::RegisterUartDriver,
            InitAction::Allocate,
            InitAction::AddDevice,
            InitAction::RegisterPlatformDriver,
            InitAction::DeleteDevice,
            InitAction::Succeed,
        ]
    );
}

#[test]
fn init_ignores_platform_driver_failure() {
    let (st, _) = run(&[0, 0, 0, 0, -19, 0]);
    assert_eq!(st, InitState::Finished);
}

#[test]
fn init_fails_on_uart_registration() {
    let (st, actions) = run(&[0, -16, 0, 0, 0, 0]);
    assert_eq!(st, InitState::Failed(-16));
    assert_eq!(actions[1], InitAction::Fail(-16));
    assert_eq!(actions[5], InitAction::Fail(-16));
}

#[test]
fn init_fails_on_allocation_and_add() {
    assert_eq!(run(&[0, 0, -12, 0, 0, 0]).0, InitState::Failed(-12));
    assert_eq!(run(&[0, 0, 0, -22, 0, 0]).0, InitState::Failed(-22));
    assert_eq!(run(&[0, 0, 0, -70000, 0, 0]).0, InitState::Failed(-22));
}

#[test]
fn probe_index_selection() {
    assert_eq!(probe_port_index(-1), 0);
    assert_eq!(probe_port_index(0), 0);
    assert_eq!(probe_port_index(3), 3);
}

#[test]
fn console_init_numbers_ports() {
    let mut ports = [UartPort::zero(); 4];
    console_init(&mut ports, 0x500);
    for (i, p) in ports.iter().enumerate() {
        assert_eq!(p.line, i as u32);
        assert_eq!(p.port_id, i as u32);
        assert_eq!(p.ops, 0x500);
        assert_eq!(p.has_sysrq, b'1');
    }
}

#[test]
fn platform_callbacks_answer_zero() {
    assert_eq!(remove(), 0);
    assert_eq!(suspend(), 0);
    assert_eq!(resume(), 0);
}

#[test]
fn of_device_id_list_entry_is_exact() {
    let l = of_device_id_list();
    let mut expected = [0u8; 128];
    expected[..8].copy_from_slice(b"ns16550a");
    assert_eq!(l[0].compatible, expected);
    assert_eq!(l[0].name, [0u8; 32]);
    assert_eq!(l[0].type_, [0u8; 32]);
}

#[test]
fn module_data_and_assembly() {
    let data = PlatformData::new();
    assert_eq!(data.test, 5);
    assert_eq!(data.of.len(), 1);
    assert_eq!(c_str(&data.of[0].compatible), b"ns16550a");
    let mut m = RustUartModule::new(data, 0x4000, -19);
    assert_eq!(m.data.test, 5);
    assert_eq!(m.platform_driver.as_ptr().name, "of_serial");
    assert_eq!(m.platform_driver.as_ptr().of_match_table, 0x4000);
    assert!(m.platform_driver.as_ptr().has_probe);
    assert!(!m.platform_driver.release());
    let mut m2 = RustUartModule::new(PlatformData::new(), 0x4000, 0);
    assert!(m2.platform_driver.release());
}

#[test]
fn probe_configures_selected_port() {
    let mut ports = [UartPort::zero(); 4];
    let (st, a) = probe_start(2, 0x99);
    assert_eq!(st, SetupState::AwaitResource { index: 2, dev: 0x99, with_pm: true });
    assert!(matches!(a, SetupAction::LookupResource));
    let (st, a) = probe_step(st, &mut ports, SetupEvent::ResourceLooked { status: 0, window: Resource { start: 0x1000, end: 0x10ff } });
    assert!(matches!(a, SetupAction::EnablePmAndGetIrq));
    let (st, a) = probe_step(st, &mut ports, SetupEvent::IrqFound { irq: 33 });
    assert!(matches!(a, SetupAction::InitLockAndAllocate));
    assert_eq!(ports[2].flags, 0x3900_0000);
    let (st, a) = probe_step(st, &mut ports, SetupEvent::Allocated { granted: true });
    assert!(matches!(a, SetupAction::AttachAndAdd(ref rp) if rp.index == 2));
    let (st, a) = probe_step(st, &mut ports, SetupEvent::PortAdded { status: 0 });
    assert!(matches!(a, SetupAction::Finish(0)));
    assert_eq!(st, SetupState::Done(0));
    assert_eq!(ports[2].mapbase, 0x1000);
    assert_eq!(ports[2].mapsize, 0x100);
    assert_eq!(ports[2].flags, 0xb900_0000);
    assert_eq!(ports[2].irq, 33);
    assert_eq!(ports[0], UartPort::zero());
}

#[test]
fn probe_resource_failure() {
    let mut ports = [UartPort::zero(); 4];
    let (st, _) = probe_start(-1, 0x99);
    assert_eq!(st, SetupState::AwaitResource { index: 0, dev: 0x99, with_pm: true });
    let (st, a) = probe_step(st, &mut ports, SetupEvent::ResourceLooked { status: -19, window: Resource { start: 0, end: 0 } });
    assert!(matches!(a, SetupAction::Finish(-19)));
    let (_, a) = probe_step(st, &mut ports, SetupEvent::IrqFound { irq: 1 });
    assert!(matches!(a, SetupAction::Finish(-19)));
    assert_eq!(ports, [UartPort::zero(); 4]);
}

#[test]
fn probe_allocation_failure_is_enomem() {
    let mut ports = [UartPort::zero(); 4];
    let (st, _) = probe_start(1, 0x99);
    let (st, _) = probe_step(st, &mut ports, SetupEvent::ResourceLooked { status: 0, window: Resource { start: 0x1000, end: 0x10ff } });
    let (st, _) = probe_step(st, &mut ports, SetupEvent::IrqFound { irq: 33 });
    let (st, a) = probe_step(st, &mut ports, SetupEvent::Allocated { granted: false });
    assert!(matches!(a, SetupAction::Finish(-12)));
    assert_eq!(st, SetupState::Done(-12));
    assert_eq!(ports[1].flags, 0x3900_0000);
    assert_eq!(ports[0], UartPort::zero());
}

#[test]
fn resume_owed_only_with_io_and_device() {
    let mut p = UartPort::zero();
    assert!(!u8250_resume_owed(&p));
    p.dev = 0x10;
    assert!(!u8250_resume_owed(&p));
    p.membase = 0x8000;
    assert!(u8250_resume_owed(&p));
    p.dev = 0;
    assert!(!u8250_resume_owed(&p));
}
