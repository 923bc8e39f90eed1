use moonlight_os::instructions::{interrupts_enabled, InterruptStatus};
use moonlight_os::{exit_qemu, test_runner, PortWriteU32, QemuExitCode, Testable};
use std::cell::Cell;

#[test]
fn interrupt_flag_is_bit_nine() {
    assert!(interrupts_enabled(0x200));
    assert!(interrupts_enabled(0x202));
    assert!(interrupts_enabled(u64::MAX));
    assert!(!interrupts_enabled(0));
    assert!(!interrupts_enabled(0x002));
    assert!(!interrupts_enabled(!0x200u64));
    assert!(!interrupts_enabled(0x400));
    assert!(!interrupts_enabled(0x100));
}

#[test]
fn section_without_interrupts_restores_the_flag() {
    let on = InterruptStatus::save(0x246);
    assert!(on.disable_on_entry());
    assert!(on.enable_on_exit());
    let off = InterruptStatus::save(0x046);
    assert!(!off.disable_on_entry());
    assert!(!off.enable_on_exit());
}

#[test]
fn exit_codes_go_to_the_exit_port() {
    assert_eq!(QemuExitCode::Success.code(), 0x10);
    assert_eq!(QemuExitCode::Failed.code(), 0x11);
    assert_eq!(exit_qemu(QemuExitCode::Success), PortWriteU32 { port: 0xf4, value: 0x10 });
    assert_eq!(exit_qemu(QemuExitCode::Failed), PortWriteU32 { port: 0xf4, value: 0x11 });
}

#[test]
fn test_runner_runs_every_test_in_order() {
    let log: Cell<u32> = Cell::new(0);
    let first = || log.set(log.get() * 10 + 1);
    let second = || log.set(log.get() * 10 + 2);
    let third = || log.set(log.get() * 10 + 3);
    let tests: [&dyn Testable; 3] = [&first, &second, &third];
    let write = test_runner(&tests);
    assert_eq!(log.get(), 123);
    assert_eq!(write, PortWriteU32 { port: 0xf4, value: 0x10 });
    assert_eq!(test_runner(&[]), PortWriteU32 { port: 0xf4, value: 0x10 });
}
