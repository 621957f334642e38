use batch_os::batch::run_next_app;
use batch_os::batch::Diagnostic;
use batch_os::batch::Kernel;
use batch_os::batch::RunOutcome;
use batch_os::batch::APP_BASE_ADDRESS;
use batch_os::syscall::syscall;
use batch_os::syscall::SyscallOutcome;
use batch_os::trap::trap_handler;
use batch_os::trap::Spp;
use batch_os::trap::TrapCause;
use batch_os::trap::TrapContext;
use batch_os::trap::TrapOutcome;

const USER_BASE: usize = 0x100000;
const KERNEL_BASE: usize = 0x200000;

fn boot(images: &[&[u8]]) -> Kernel {
    let mut image: Vec<u8> = Vec::new();
    let mut app_start: Vec<usize> = vec![0];
    for img in images {
        image.extend_from_slice(img);
        app_start.push(image.len());
    }
    Kernel::new(image, app_start, USER_BASE, KERNEL_BASE)
}

fn running_context(kernel: &mut Kernel) -> TrapContext {
    kernel.kernel_stack.saved.take().expect("an app was launched")
}

#[test]
fn app_init_context_builds_the_launch_frame() {
    let cx = TrapContext::app_init_context(0x80400000, 0x87654321);
    assert_eq!(cx.x.len(), 32);
    assert_eq!(cx.x[2], 0x87654321);
    for (i, &reg) in cx.x.iter().enumerate() {
        if i != 2 {
            assert_eq!(reg, 0);
        }
    }
    assert_eq!(cx.sepc, 0x80400000);
    assert_eq!(cx.sstatus.spp, Spp::User);
}

#[test]
fn set_spp_switches_the_pre_trap_mode() {
    let mut cx = TrapContext::app_init_context(0x80400000, 1);
    cx.sstatus.set_spp(Spp::Supervisor);
    assert_eq!(cx.sstatus.spp, Spp::Supervisor);
    cx.sstatus.set_spp(Spp::User);
    assert_eq!(cx.sstatus.spp, Spp::User);
}

#[test]
fn set_sp_touches_only_the_stack_pointer_slot() {
    let mut cx = TrapContext::app_init_context(0x80400000, 1);
    cx.set_sp(0x4000);
    assert_eq!(cx.x[2], 0x4000);
    assert_eq!(cx.sepc, 0x80400000);
    assert_eq!(cx.x[3], 0);
}

#[test]
fn write_to_stdout_returns_the_length() {
    let mut kernel = boot(&[&[1]]);
    run_next_app(&mut kernel);
    let buf: Vec<u8> = b"hello".to_vec();
    let r = syscall(&mut kernel, 64, [1, 0, buf.len()], &buf);
    assert_eq!(r, SyscallOutcome::Return(5));
    assert_eq!(kernel.console, b"hello".to_vec());
}

#[test]
fn write_of_an_empty_buffer_returns_zero() {
    let mut kernel = boot(&[&[1]]);
    let buf: Vec<u8> = Vec::new();
    let r = syscall(&mut kernel, 64, [1, 0, 0], &buf);
    assert_eq!(r, SyscallOutcome::Return(0));
    assert!(kernel.console.is_empty());
}

#[test]
fn write_to_another_descriptor_is_fatal() {
    let mut kernel = boot(&[&[1]]);
    let buf: Vec<u8> = b"x".to_vec();
    let r = syscall(&mut kernel, 64, [3, 0, 1], &buf);
    assert_eq!(r, SyscallOutcome::FatalUnsupportedFd(3));
    assert!(kernel.console.is_empty());
}

#[test]
fn an_unknown_syscall_number_is_fatal() {
    let mut kernel = boot(&[&[1]]);
    let buf: Vec<u8> = Vec::new();
    let r = syscall(&mut kernel, 17, [0, 0, 0], &buf);
    assert_eq!(r, SyscallOutcome::FatalUnsupportedSyscall(17));
}

#[test]
fn exit_never_resumes_and_advances_exactly_once() {
    let mut kernel = boot(&[&[1], &[2]]);
    run_next_app(&mut kernel);
    assert_eq!(kernel.current_app(), 1);
    let buf: Vec<u8> = Vec::new();
    let r = syscall(&mut kernel, 93, [42, 0, 0], &buf);
    assert_eq!(r, SyscallOutcome::Exited(RunOutcome::Launched));
    assert_eq!(kernel.current_app(), 2);
    assert!(kernel.log.contains(&Diagnostic::AppExited(42)));
}

#[test]
fn syscall_trap_resumes_with_the_result_in_a0() {
    let mut kernel = boot(&[&[1]]);
    run_next_app(&mut kernel);
    let mut cx = running_context(&mut kernel);
    let sepc_before = cx.sepc;
    let buf: Vec<u8> = b"hello".to_vec();
    cx.x[17] = 64; // write
    cx.x[10] = 1; // stdout
    cx.x[11] = APP_BASE_ADDRESS; // buffer pointer, resolved by the stub
    cx.x[12] = buf.len();
    let r = trap_handler(&mut kernel, &mut cx, TrapCause::UserEnvCall, 0, &buf);
    assert_eq!(r, TrapOutcome::Resume);
    assert_eq!(cx.x[10], 5);
    assert_eq!(cx.sepc, sepc_before + 4);
    assert_eq!(kernel.console, b"hello".to_vec());
}

#[test]
fn a_store_fault_kills_the_app_and_advances() {
    let mut kernel = boot(&[&[1], &[2]]);
    run_next_app(&mut kernel);
    let mut cx = running_context(&mut kernel);
    let r = trap_handler(&mut kernel, &mut cx, TrapCause::StoreFault, 0x3000, &Vec::new());
    assert_eq!(r, TrapOutcome::NextApp(RunOutcome::Launched));
    assert_eq!(kernel.current_app(), 2);
    assert!(kernel.log.contains(&Diagnostic::PageFault));
}

#[test]
fn an_unknown_trap_cause_is_fatal() {
    let mut kernel = boot(&[&[1]]);
    run_next_app(&mut kernel);
    let mut cx = running_context(&mut kernel);
    let log_before = kernel.log.clone();
    let r = trap_handler(&mut kernel, &mut cx, TrapCause::Other(5), 0xdead, &Vec::new());
    assert_eq!(r, TrapOutcome::FatalUnknownTrap(5, 0xdead));
    assert_eq!(kernel.log, log_before);
}

#[test]
fn two_apps_run_to_shutdown_end_to_end() {
    // app 0 exits with code 0; app 1 hits an illegal instruction
    let mut kernel = boot(&[&[1, 2, 3], &[9, 8]]);
    let r = run_next_app(&mut kernel);
    assert_eq!(r, RunOutcome::Launched);
    assert_eq!(kernel.current_app(), 1);

    let mut cx = running_context(&mut kernel);
    cx.x[17] = 93; // exit
    cx.x[10] = 0; // code 0
    let r = trap_handler(&mut kernel, &mut cx, TrapCause::UserEnvCall, 0, &Vec::new());
    assert_eq!(r, TrapOutcome::NextApp(RunOutcome::Launched));
    assert!(kernel.log.contains(&Diagnostic::AppExited(0)));
    assert!(kernel.log.contains(&Diagnostic::LoadedApp(1)));
    assert_eq!(kernel.current_app(), 2);
    assert_eq!(&kernel.window[..2], &[9, 8]);

    let mut cx = running_context(&mut kernel);
    let r = trap_handler(&mut kernel, &mut cx, TrapCause::IllegalInstruction, 0, &Vec::new());
    assert_eq!(r, TrapOutcome::NextApp(RunOutcome::Shutdown));
    assert!(kernel.log.contains(&Diagnostic::IllegalInstruction));
    assert_eq!(kernel.log.last(), Some(&Diagnostic::AllAppsCompleted));
    assert_eq!(kernel.current_app(), 2);
    // nothing further was loaded: the window still holds app 1 alone
    assert_eq!(&kernel.window[..2], &[9, 8]);
}
