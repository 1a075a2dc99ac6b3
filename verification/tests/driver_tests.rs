use rust_uart::error::{enodev, enomem, EINVAL};
use rust_uart::platform_driver::{PlatformDriver, PlatformDriverInfo};
use rust_uart::uart::Registration;
use rust_uart::uart_driver::{UartDriver, UartDriverInfo, UartDriverRef};
use rust_uart::uart_ops::{get_mctrl, port_type, startup, tx_empty, UartOps, UartOpsTable};
use rust_uart::uart_port::UartPort;
use rust_uart::serial8250::{Serial8250Config, UART_CAP_FIFO, UART_FCR_ENABLE_FIFO, UART_FCR_R_TRIG_10};

fn info() -> PlatformDriverInfo {
    PlatformDriverInfo { name: "of_serial", of_match_table: 0x100, has_probe: true }
}

fn uart_info() -> UartDriverInfo {
    UartDriverInfo {
        nr: 4,
        major: 4,
        minor: 64,
        dev_name: "ttySZ",
        driver_name: "serial",
        owner: 0,
        cons: 0,
    }
}

#[test]
fn platform_driver_registered_then_released() {
    let mut d = PlatformDriver::from(info());
    assert_eq!(d.register(0), Ok(()));
    assert!(d.release());
    assert!(!d.release());
}

#[test]
fn platform_driver_failed_registration_is_not_released() {
    let mut d = PlatformDriver::from(info());
    assert_eq!(d.register(-19), Err(enodev()));
    assert!(!d.release());
}

#[test]
fn platform_driver_as_ptr_edits_description() {
    let mut d = PlatformDriver::from(info());
    d.as_ptr().of_match_table = 0x200;
    assert_eq!(d.as_ptr().of_match_table, 0x200);
    assert_eq!(d.as_ptr().name, "of_serial");
}

#[test]
fn uart_driver_register_and_add_port() {
    let d = UartDriver::from_struct(uart_info());
    assert_eq!(d.register(0), Ok(()));
    assert_eq!(d.register(-12), Err(enomem()));
    let p = UartPort::zero();
    assert_eq!(d.add_one_port(&p, 0), Ok(()));
    assert_eq!(d.add_one_port(&p, -9999).unwrap_err().to_errno(), EINVAL);
    assert_eq!(d.as_ptr().minor, 64);
    assert_eq!(UartDriver::from(uart_info()).as_ptr().nr, 4);
}

#[test]
fn uart_driver_ref_address() {
    assert_eq!(UartDriverRef::from(0x1234usize).as_ptr(), 0x1234);
}

#[test]
fn registration_sets_owner_even_on_failure() {
    let mut r = Registration::new(uart_info());
    assert_eq!(r.register(0x77, -19), Err(enodev()));
    assert_eq!(r.reg().owner, 0x77);
    assert!(!r.release());
    assert_eq!(r.register(0x78, 0), Ok(()));
    assert_eq!(r.reg().owner, 0x78);
    assert!(r.release());
    assert!(!r.release());
}

#[test]
fn ops_new_installs_driver_callbacks() {
    let ops = UartOps::new();
    let t = ops.as_ptr();
    assert!(t.tx_empty && t.set_mctrl && t.get_mctrl && t.stop_tx && t.start_tx && t.stop_rx);
    assert!(t.startup && t.shutdown && t.set_termios && t.port_type && t.config_port);
    assert!(!t.pm && !t.enable_ms && !t.break_ctl && !t.flush_buffer);
    assert!(!t.release_port && !t.request_port && !t.verify_port);
}

#[test]
fn ops_from_table() {
    let mut t = UartOpsTable::default();
    assert!(!t.startup);
    t.pm = true;
    assert!(UartOps::from(t).as_ptr().pm);
    assert_eq!(*UartOps::from_struct(t).as_ptr(), t);
}

#[test]
fn driver_callbacks() {
    let p = UartPort::zero();
    assert_eq!(tx_empty(&p), 0);
    assert_eq!(get_mctrl(&p), 0);
    assert_eq!(startup(&p), 0);
    assert_eq!(port_type(&p), "unknown");
}

#[test]
fn ns16550a_config() {
    let c = Serial8250Config::ns16550a();
    assert_eq!(c.name, "16550A");
    assert_eq!(c.fifo_size, 16);
    assert_eq!(c.tx_loadsz, 16);
    assert_eq!(c.fcr, UART_FCR_ENABLE_FIFO | UART_FCR_R_TRIG_10);
    assert_eq!(c.fcr, 0x81);
    assert_eq!(c.rxtrig_bytes, [1, 4, 8, 14]);
    assert_eq!(c.flags, UART_CAP_FIFO);
    assert_eq!(c.flags, 0x100);
    assert_eq!(c.rxtrig_bytes[((c.fcr & 0xc0) >> 6) as usize], 8);
}

#[test]
fn defaults_are_empty_and_unregistered() {
    let mut d = PlatformDriver::default();
    assert_eq!(d.as_ptr().name, "");
    assert_eq!(d.as_ptr().of_match_table, 0);
    assert!(!d.as_ptr().has_probe);
    assert!(!d.release());
    let mut r = Registration::default();
    assert_eq!(r.reg().nr, 0);
    assert_eq!(r.reg().dev_name, "");
    assert_eq!(r.reg().owner, 0);
    assert!(!r.release());
    let i = UartDriverInfo::default();
    assert_eq!((i.major, i.minor, i.cons), (0, 0, 0));
    assert_eq!(PlatformDriverInfo::default().name, "");
}

#[test]
fn unregister_iff_some_registration_succeeded() {
    let mut d = PlatformDriver::from(info());
    assert_eq!(d.register(-19), Err(enodev()));
    assert_eq!(d.register(0), Ok(()));
    assert_eq!(d.register(-12), Err(enomem()));
    assert!(d.release());
    assert!(!d.release());
    let mut r = Registration::default();
    assert!(r.register(1, -1).is_err());
    assert!(r.register(1, -2).is_err());
    assert!(!r.release());
    assert!(r.register(1, -2).is_err());
    assert!(r.register(1, 3).is_ok());
    assert!(r.release());
}
