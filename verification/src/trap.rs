//! Trap context and trap dispatch.
//!
//! A trap is any synchronous event raised while an app runs in unprivileged
//! mode: a system call or a fault. The platform stub saves the interrupted
//! register file into a [`TrapContext`] and hands the trap cause and auxiliary
//! fault value to [`trap_handler`], the single control-transfer point, which
//! decides whether the same app resumes, the next app is launched, or the
//! kernel halts.

use vstd::prelude::*;

use crate::batch::advance_diag;
use crate::batch::advance_transition;
use crate::batch::run_next_app;
use crate::batch::Diagnostic;
use crate::batch::Kernel;
use crate::batch::RunOutcome;
use crate::syscall::kernel_unchanged;
use crate::syscall::same_but_console;
use crate::syscall::syscall;
use crate::syscall::SyscallOutcome;
use crate::syscall::FD_STDOUT;
use crate::syscall::SYSCALL_EXIT;
use crate::syscall::SYSCALL_WRITE;

verus! {

/// Number of general registers in a trap frame.
pub const NUM_REGS: usize = 32;

/// The privilege mode a trap came from (and that the paired restore returns
/// to).
#[derive(Clone, Copy, PartialEq, Eq, Structural, Debug)]
pub enum Spp {
    /// Unprivileged application mode.
    User,
    /// Privileged kernel mode.
    Supervisor,
}

/// The privilege-status word of a trap frame. Of the machine's status
/// register the kernel logic reads exactly one field: the mode the coming
/// return-from-trap will drop to, so only that field is modelled.
#[derive(Clone, Copy, PartialEq, Eq, Structural, Debug)]
pub struct Sstatus {
    /// Mode before the trap; the mode the restore returns to.
    pub spp: Spp,
}

impl Sstatus {
    /// Set the pre-trap privilege mode.
    pub fn set_spp(&mut self, spp: Spp)
        ensures
            final(self).spp == spp,
    {
        self.spp = spp;
    }
}

/// Snapshot of the machine state needed to suspend and later resume an app
/// across the privilege boundary: all general registers, the privilege-status
/// word, and the resume address.
pub struct TrapContext {
    /// General registers; index 2 is the stack pointer.
    pub x: Vec<usize>,
    /// Privilege-status word.
    pub sstatus: Sstatus,
    /// Resume address: where the restore operation continues execution.
    pub sepc: usize,
}

/// Register index of the stack pointer.
pub const REG_SP: usize = 2;

/// Register index of a syscall's first argument and of its return value.
pub const REG_A0: usize = 10;

/// Register index of a syscall's second argument.
pub const REG_A1: usize = 11;

/// Register index of a syscall's third argument.
pub const REG_A2: usize = 12;

/// Register index of the syscall number.
pub const REG_A7: usize = 17;

impl TrapContext {
    /// The frame carries a full register file.
    pub open spec fn wf(&self) -> bool {
        self.x@.len() == NUM_REGS
    }

    /// A freshly built launch frame: every general register zero except the
    /// stack pointer, pre-trap mode unprivileged, resume address at the app's
    /// entry.
    pub open spec fn is_launch(&self, entry: usize, sp: usize) -> bool {
        &&& self.x@.len() == NUM_REGS
        &&& self.x@[REG_SP as int] == sp
        &&& (forall|i: int| 0 <= i < NUM_REGS && i != REG_SP ==> self.x@[i] == 0)
        &&& self.sstatus.spp == Spp::User
        &&& self.sepc == entry
    }

    /// Set the stack-pointer register slot in place.
    pub fn set_sp(&mut self, sp: usize)
        requires
            old(self).wf(),
        ensures
            final(self).wf(),
            final(self).x@ == old(self).x@.update(REG_SP as int, sp),
            final(self).sstatus == old(self).sstatus,
            final(self).sepc == old(self).sepc,
    {
        self.x[REG_SP] = sp;
    }

    /// Build the context that launches a fresh app: zeroed registers, the
    /// user stack pointer in the stack-pointer slot, pre-trap mode set to
    /// unprivileged, and the resume address at `entry`. Used only when
    /// starting an app, never when returning from an ordinary trap.
    pub fn app_init_context(entry: usize, sp: usize) -> (r: TrapContext)
        ensures
            r.wf(),
            r.is_launch(entry, sp),
    {
        let mut x: Vec<usize> = Vec::new();
        let mut i: usize = 0;
        while i < NUM_REGS
            invariant
                i <= NUM_REGS,
                x@.len() == i,
                forall|j: int| 0 <= j < i ==> x@[j] == 0,
            decreases NUM_REGS - i,
        {
            x.push(0);
            i = i + 1;
        }
        let mut cx = TrapContext { x, sstatus: Sstatus { spp: Spp::User }, sepc: entry };
        cx.set_sp(sp);
        cx
    }
}

/// The cause of a trap, as the hardware reports it. The platform stub reads
/// the cause register and passes one of these; causes the kernel does not
/// handle carry their raw code for the diagnostic.
#[derive(Clone, Copy, PartialEq, Eq, Structural, Debug)]
pub enum TrapCause {
    /// Explicit service request from unprivileged code.
    UserEnvCall,
    /// Store access fault.
    StoreFault,
    /// Store page fault.
    StorePageFault,
    /// Illegal instruction.
    IllegalInstruction,
    /// Any other cause, by its raw code.
    Other(usize),
}

/// What the dispatcher decided; the platform acts on it. `Resume` restores
/// the mutated frame into the same app; `NextApp` means the interrupted app
/// is gone for good and either the next one launches or the machine shuts
/// down; the fatal variants halt the machine with a diagnostic.
#[derive(Clone, Copy, PartialEq, Eq, Structural, Debug)]
pub enum TrapOutcome {
    /// Resume the interrupted app via the restore operation.
    Resume,
    /// The interrupted app exited or was killed; the advance already ran
    /// with this outcome. Control never returns to that app.
    NextApp(RunOutcome),
    /// Fatal: write to an unsupported file descriptor.
    FatalUnsupportedFd(usize),
    /// Fatal: an unsupported syscall number.
    FatalUnsupportedSyscall(usize),
    /// Fatal: a trap cause the kernel does not handle, with the auxiliary
    /// fault value.
    FatalUnknownTrap(usize, usize),
}

/// Kill the running app after a fault: emit the diagnostic, then advance to
/// the next app through the same launch machinery exit uses. The faulted
/// app's entire state is discarded; nothing of it is retried.
fn kill_and_advance(kernel: &mut Kernel, diag: Diagnostic) -> (r: RunOutcome)
    requires
        old(kernel).wf(),
    ensures
        final(kernel).wf(),
        advance_transition(*old(kernel), *final(kernel), r),
        final(kernel).log@ == old(kernel).log@.push(diag).push(advance_diag(old(kernel).mgr())),
{
    kernel.log.push(diag);
    run_next_app(kernel)
}

/// The single control-transfer point for every synchronous event raised
/// while an app runs. The platform stub has already saved the interrupted
/// register file into `cx` and read the cause and auxiliary fault value. A
/// service request advances the saved resume address past the trigger
/// instruction (fixed width), dispatches on the number in the frame, and
/// writes the signed result into the return-value slot; a store fault,
/// store page fault or illegal instruction kills the app and advances; any
/// other cause is an unrecoverable kernel error. `write_buf` is a write's
/// buffer as the stub resolved it from app memory (the pointer and length
/// are the app's responsibility; the stub resolves exactly the named
/// length).
pub fn trap_handler(
    kernel: &mut Kernel,
    cx: &mut TrapContext,
    cause: TrapCause,
    stval: usize,
    write_buf: &Vec<u8>,
) -> (r: TrapOutcome)
    requires
        old(kernel).wf(),
        old(cx).wf(),
        old(cx).sepc + 4 <= usize::MAX,
        write_buf@.len() <= isize::MAX,
    ensures
        final(kernel).wf(),
        final(cx).wf(),
        (match cause {
            TrapCause::UserEnvCall => {
                let id = old(cx).x@[REG_A7 as int];
                let a0 = old(cx).x@[REG_A0 as int];
                &&& final(cx).sepc == old(cx).sepc + 4
                &&& final(cx).sstatus == old(cx).sstatus
                &&& if id == SYSCALL_WRITE {
                    &&& same_but_console(*old(kernel), *final(kernel))
                    &&& if a0 == FD_STDOUT {
                        &&& r == TrapOutcome::Resume
                        &&& final(cx).x@ == old(cx).x@.update(
                            REG_A0 as int,
                            write_buf@.len() as usize,
                        )
                        &&& final(kernel).console@ == old(kernel).console@ + write_buf@
                    } else {
                        &&& r == TrapOutcome::FatalUnsupportedFd(a0)
                        &&& final(cx).x@ == old(cx).x@
                        &&& final(kernel).console@ == old(kernel).console@
                    }
                } else if id == SYSCALL_EXIT {
                    &&& final(cx).x@ == old(cx).x@
                    &&& (r matches TrapOutcome::NextApp(run) && advance_transition(
                        *old(kernel),
                        *final(kernel),
                        run,
                    ))
                    &&& final(kernel).log@ == old(kernel).log@.push(
                        Diagnostic::AppExited(a0 as i32),
                    ).push(advance_diag(old(kernel).mgr()))
                } else {
                    &&& r == TrapOutcome::FatalUnsupportedSyscall(id)
                    &&& final(cx).x@ == old(cx).x@
                    &&& kernel_unchanged(*old(kernel), *final(kernel))
                }
            },
            TrapCause::StoreFault | TrapCause::StorePageFault => {
                &&& *final(cx) == *old(cx)
                &&& (r matches TrapOutcome::NextApp(run) && advance_transition(
                    *old(kernel),
                    *final(kernel),
                    run,
                ))
                &&& final(kernel).log@ == old(kernel).log@.push(Diagnostic::PageFault).push(
                    advance_diag(old(kernel).mgr()),
                )
            },
            TrapCause::IllegalInstruction => {
                &&& *final(cx) == *old(cx)
                &&& (r matches TrapOutcome::NextApp(run) && advance_transition(
                    *old(kernel),
                    *final(kernel),
                    run,
                ))
                &&& final(kernel).log@ == old(kernel).log@.push(
                    Diagnostic::IllegalInstruction,
                ).push(advance_diag(old(kernel).mgr()))
            },
            TrapCause::Other(code) => {
                &&& *final(cx) == *old(cx)
                &&& r == TrapOutcome::FatalUnknownTrap(code, stval)
                &&& kernel_unchanged(*old(kernel), *final(kernel))
            },
        }),
{
    match cause {
        TrapCause::UserEnvCall => {
            cx.sepc = cx.sepc + 4;
            let id = cx.x[REG_A7];
            let a0 = cx.x[REG_A0];
            let a1 = cx.x[REG_A1];
            let a2 = cx.x[REG_A2];
            let res = syscall(kernel, id, [a0, a1, a2], write_buf);
            match res {
                SyscallOutcome::Return(v) => {
                    cx.x[REG_A0] = v as usize;
                    TrapOutcome::Resume
                },
                SyscallOutcome::Exited(run) => TrapOutcome::NextApp(run),
                SyscallOutcome::FatalUnsupportedFd(fd) => TrapOutcome::FatalUnsupportedFd(fd),
                SyscallOutcome::FatalUnsupportedSyscall(n) => TrapOutcome::FatalUnsupportedSyscall(
                    n,
                ),
            }
        },
        TrapCause::StoreFault | TrapCause::StorePageFault => {
            let run = kill_and_advance(kernel, Diagnostic::PageFault);
            TrapOutcome::NextApp(run)
        },
        TrapCause::IllegalInstruction => {
            let run = kill_and_advance(kernel, Diagnostic::IllegalInstruction);
            TrapOutcome::NextApp(run)
        },
        TrapCause::Other(code) => TrapOutcome::FatalUnknownTrap(code, stval),
    }
}

} // verus!
