//! The syscall layer: pure dispatch by numeric code onto the two supported
//! operations, write and exit.
//!
//! The calling convention is register-based: the platform stub reads the
//! syscall number and up to three arguments out of the saved trap frame. A
//! write's buffer lives in app memory; its pointer and length are the app's
//! responsibility, and the stub resolves them to bytes before the dispatch —
//! this layer performs no bounds validation against app memory.

use vstd::prelude::*;

use crate::batch::advance_diag;
use crate::batch::advance_transition;
use crate::batch::run_next_app;
use crate::batch::Diagnostic;
use crate::batch::Kernel;
use crate::batch::RunOutcome;

verus! {

/// Syscall number of write.
pub const SYSCALL_WRITE: usize = 64;

/// Syscall number of exit.
pub const SYSCALL_EXIT: usize = 93;

/// The only file descriptor write supports: standard output.
pub const FD_STDOUT: usize = 1;

/// What a syscall dispatch decided. Exit never returns to its caller, and an
/// unsupported number or descriptor is a kernel-scoped fatal error; both are
/// outcomes the platform acts on, never values handed back to the app.
#[derive(Clone, Copy, PartialEq, Eq, Structural, Debug)]
pub enum SyscallOutcome {
    /// The call completed; this signed value goes into the return-value
    /// register slot and the same app resumes.
    Return(isize),
    /// The app exited: exactly one advance-to-next-app transition was taken,
    /// with this outcome. Control never returns to the exited app.
    Exited(RunOutcome),
    /// Fatal: write to a descriptor other than standard output. The platform
    /// halts the machine with a diagnostic.
    FatalUnsupportedFd(usize),
    /// Fatal: a syscall number the kernel does not know. The platform halts
    /// the machine with a diagnostic.
    FatalUnsupportedSyscall(usize),
}

/// `post` differs from `pre` at most in the console bytes.
pub open spec fn same_but_console(pre: Kernel, post: Kernel) -> bool {
    &&& post.app_manager == pre.app_manager
    &&& post.image@ == pre.image@
    &&& post.window@ == pre.window@
    &&& post.user_stack == pre.user_stack
    &&& post.kernel_stack == pre.kernel_stack
    &&& post.log@ == pre.log@
}

/// Nothing observable changed.
pub open spec fn kernel_unchanged(pre: Kernel, post: Kernel) -> bool {
    &&& same_but_console(pre, post)
    &&& post.console@ == pre.console@
}

/// Write `buf` to the file `fd`: supported only for standard output, where
/// it emits the bytes on the console and returns how many were written; any
/// other descriptor is a kernel-scoped fatal error. The byte count bound is
/// a machine limit: the count is returned as a signed value.
pub fn sys_write(kernel: &mut Kernel, fd: usize, buf: &Vec<u8>) -> (r: SyscallOutcome)
    requires
        old(kernel).wf(),
        buf@.len() <= isize::MAX,
    ensures
        final(kernel).wf(),
        same_but_console(*old(kernel), *final(kernel)),
        if fd == FD_STDOUT {
            &&& r == SyscallOutcome::Return(buf@.len() as isize)
            &&& final(kernel).console@ == old(kernel).console@ + buf@
        } else {
            &&& r == SyscallOutcome::FatalUnsupportedFd(fd)
            &&& final(kernel).console@ == old(kernel).console@
        },
{
    if fd == FD_STDOUT {
        let len = buf.len();
        let mut i: usize = 0;
        while i < len
            invariant
                i <= len,
                len == buf@.len(),
                same_but_console(*old(kernel), *kernel),
                kernel.console@ == old(kernel).console@ + buf@.subrange(0, i as int),
            decreases len - i,
        {
            let b = buf[i];
            kernel.console.push(b);
            proof {
                assert(kernel.console@ =~= old(kernel).console@ + buf@.subrange(
                    0,
                    i as int + 1,
                ));
            }
            i = i + 1;
        }
        proof {
            assert(buf@.subrange(0, len as int) =~= buf@);
        }
        SyscallOutcome::Return(len as isize)
    } else {
        SyscallOutcome::FatalUnsupportedFd(fd)
    }
}

/// The app exits with `exit_code`: record the code for diagnostics, then
/// take exactly one advance-to-next-app transition through the same launch
/// machinery fault handling uses. Never returns to its caller; the returned
/// outcome is what the platform acts on.
pub fn sys_exit(kernel: &mut Kernel, exit_code: i32) -> (r: RunOutcome)
    requires
        old(kernel).wf(),
    ensures
        final(kernel).wf(),
        advance_transition(*old(kernel), *final(kernel), r),
        final(kernel).log@ == old(kernel).log@.push(Diagnostic::AppExited(exit_code)).push(
            advance_diag(old(kernel).mgr()),
        ),
{
    kernel.log.push(Diagnostic::AppExited(exit_code));
    run_next_app(kernel)
}

/// Dispatch a syscall by number: write emits bytes and returns their count,
/// exit advances to the next app and never returns, and any other number is
/// a kernel-scoped fatal error. `buf` is the write buffer as the platform
/// stub resolved it from the second and third argument registers.
pub fn syscall(
    kernel: &mut Kernel,
    syscall_id: usize,
    args: [usize; 3],
    buf: &Vec<u8>,
) -> (r: SyscallOutcome)
    requires
        old(kernel).wf(),
        buf@.len() <= isize::MAX,
    ensures
        final(kernel).wf(),
        syscall_id == SYSCALL_WRITE ==> {
            &&& same_but_console(*old(kernel), *final(kernel))
            &&& if args[0] == FD_STDOUT {
                &&& r == SyscallOutcome::Return(buf@.len() as isize)
                &&& final(kernel).console@ == old(kernel).console@ + buf@
            } else {
                &&& r == SyscallOutcome::FatalUnsupportedFd(args[0])
                &&& final(kernel).console@ == old(kernel).console@
            }
        },
        syscall_id == SYSCALL_EXIT ==> {
            &&& r == SyscallOutcome::Exited(run_of(r))
            &&& advance_transition(*old(kernel), *final(kernel), run_of(r))
            &&& final(kernel).log@ == old(kernel).log@.push(
                Diagnostic::AppExited(args[0] as i32),
            ).push(advance_diag(old(kernel).mgr()))
        },
        syscall_id != SYSCALL_WRITE && syscall_id != SYSCALL_EXIT ==> {
            &&& r == SyscallOutcome::FatalUnsupportedSyscall(syscall_id)
            &&& kernel_unchanged(*old(kernel), *final(kernel))
        },
{
    if syscall_id == SYSCALL_WRITE {
        sys_write(kernel, args[0], buf)
    } else if syscall_id == SYSCALL_EXIT {
        #[verifier::truncate]
        let code = args[0] as i32;
        let run = sys_exit(kernel, code);
        SyscallOutcome::Exited(run)
    } else {
        SyscallOutcome::FatalUnsupportedSyscall(syscall_id)
    }
}

/// The advance outcome inside an `Exited`, for speaking of it in contracts.
pub open spec fn run_of(r: SyscallOutcome) -> RunOutcome
    recommends
        r is Exited,
{
    r->Exited_0
}

} // verus!
