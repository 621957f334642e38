//! The batch subsystem: the app-image table, the fixed app-memory window, the
//! two stacks, and the advance-to-next-app machinery.
//!
//! Physical memory that only the privileged kernel can touch is modelled by
//! plain values: the read-only image blob and the app window are byte
//! vectors, the stacks are their base addresses (the kernel never reads their
//! bytes), and the saved trap frame is the one slot at the kernel stack's
//! top. The platform stub that performs the actual privilege switch drives
//! these operations and acts on their outcomes.

use vstd::prelude::*;

use crate::sync::UPSafeCell;
use crate::trap::TrapContext;

verus! {

/// Size of the user stack in bytes.
pub const USER_STACK_SIZE: usize = 4096 * 2;

/// Size of the kernel stack in bytes.
pub const KERNEL_STACK_SIZE: usize = 4096 * 2;

/// Largest number of apps the table may hold.
pub const MAX_APP_NUM: usize = 16;

/// Base address of the fixed app-memory window.
pub const APP_BASE_ADDRESS: usize = 0x80400000;

/// Size of the fixed app-memory window in bytes; every loaded image must fit.
pub const APP_SIZE_LIMIT: usize = 0x20000;

/// One line of the kernel's diagnostic output, as data; the platform renders
/// and prints these.
#[derive(Clone, Copy, PartialEq, Eq, Structural, Debug)]
pub enum Diagnostic {
    /// An app image was copied into the window.
    LoadedApp(usize),
    /// The table is exhausted; the machine shuts down successfully.
    AllAppsCompleted,
    /// An app exited voluntarily with this code.
    AppExited(i32),
    /// A store fault or store page fault killed the running app.
    PageFault,
    /// An illegal instruction killed the running app.
    IllegalInstruction,
}

/// Two address ranges share no byte.
pub open spec fn ranges_disjoint(a_start: int, a_len: int, b_start: int, b_len: int) -> bool {
    a_start + a_len <= b_start || b_start + b_len <= a_start
}

/// A sequence of `n` zero bytes.
pub open spec fn zeros(n: nat) -> Seq<u8> {
    Seq::new(n, |j: int| 0u8)
}

/// The window's contents right after the image at `[start, end)` of the blob
/// was loaded: the image's bytes at the window's start and zeros elsewhere.
pub open spec fn loaded_window(image: Seq<u8>, start: int, end: int) -> Seq<u8>
    recommends
        0 <= start <= end <= image.len(),
        end - start <= APP_SIZE_LIMIT,
{
    image.subrange(start, end) + zeros((APP_SIZE_LIMIT - (end - start)) as nat)
}

/// The user stack: one fixed-size region; the kernel only ever hands out its
/// top address, so the model keeps the base alone.
#[derive(Clone, Copy, PartialEq, Eq, Structural, Debug)]
pub struct UserStack {
    /// Lowest address of the region.
    pub base: usize,
}

impl UserStack {
    /// The region does not wrap around the address space.
    pub open spec fn wf(&self) -> bool {
        self.base + USER_STACK_SIZE <= usize::MAX
    }

    /// The stack grows down from its top address.
    pub fn get_sp(&self) -> (r: usize)
        requires
            self.wf(),
        ensures
            r == self.base + USER_STACK_SIZE,
    {
        self.base + USER_STACK_SIZE
    }
}

/// The kernel stack: one fixed-size region whose top holds the single live
/// trap frame, written fresh at every launch and overwritten on every trap.
pub struct KernelStack {
    /// Lowest address of the region.
    pub base: usize,
    /// The one trap frame stored at a fixed offset below the stack's top;
    /// `None` until the first launch.
    pub saved: Option<TrapContext>,
}

impl KernelStack {
    /// The region does not wrap around the address space.
    pub open spec fn wf(&self) -> bool {
        self.base + KERNEL_STACK_SIZE <= usize::MAX
    }

    /// The stack grows down from its top address.
    pub fn get_sp(&self) -> (r: usize)
        requires
            self.wf(),
        ensures
            r == self.base + KERNEL_STACK_SIZE,
    {
        self.base + KERNEL_STACK_SIZE
    }

    /// Store a trap frame at the stack's top, replacing whatever frame was
    /// there: at most one frame is ever live.
    pub fn push_context(&mut self, cx: TrapContext)
        ensures
            final(self).base == old(self).base,
            final(self).saved == Some(cx),
    {
        self.saved = Some(cx);
    }
}

/// Outcome of one load operation.
#[derive(Clone, Copy, PartialEq, Eq, Structural, Debug)]
pub enum LoadOutcome {
    /// The requested image now fills the window's start.
    Loaded,
    /// The index was past the table: nothing was loaded and the machine is to
    /// shut down successfully.
    AllLoaded,
}

/// Owner of the app-image table and of the index of the next app to run.
pub struct AppManager {
    /// Number of apps in the table.
    pub num_app: usize,
    /// Index of the next app to load; runs from `0` to `num_app`.
    pub current_app: usize,
    /// `num_app + 1` strictly increasing byte offsets into the image blob,
    /// delimiting the `num_app` contiguous images.
    pub app_start: Vec<usize>,
}

impl AppManager {
    /// Table invariant: the count is bounded, the index never passes the
    /// count, and the offsets are strictly monotonic with every image small
    /// enough for the window. (The loader itself never checks the image
    /// sizes; the link-time table is trusted to be size-bounded, and that
    /// trust is recorded here as an invariant rather than enforced at run
    /// time.)
    pub open spec fn wf(&self) -> bool {
        &&& self.num_app <= MAX_APP_NUM
        &&& self.current_app <= self.num_app
        &&& self.app_start@.len() == self.num_app + 1
        &&& (forall|i: int, j: int|
            0 <= i < j <= self.num_app ==> #[trigger] self.app_start@[i] < #[trigger] self.app_start@[j])
        &&& (forall|i: int|
            0 <= i < self.num_app ==> #[trigger] self.app_start@[i + 1] - self.app_start@[i]
                <= APP_SIZE_LIMIT)
    }

    /// The table's offsets all lie within the image blob.
    pub open spec fn table_in(&self, image: Seq<u8>) -> bool {
        self.app_start@[self.num_app as int] <= image.len()
    }

    /// The index of the next app to load (equally: how many launches have
    /// happened so far).
    pub fn get_current_app(&self) -> (r: usize)
        ensures
            r == self.current_app,
    {
        self.current_app
    }

    /// Advance the index past the app that just ran; called exactly once per
    /// completed run cycle, after its load and before the next resume.
    pub fn move_to_next_app(&mut self)
        requires
            old(self).current_app < old(self).num_app,
        ensures
            final(self).num_app == old(self).num_app,
            final(self).app_start@ == old(self).app_start@,
            final(self).current_app == old(self).current_app + 1,
    {
        self.current_app = self.current_app + 1;
    }

    /// The table's entries as `(start, end)` offset pairs, for diagnostics;
    /// the platform renders and prints them.
    pub fn app_ranges(&self) -> (r: Vec<(usize, usize)>)
        requires
            self.wf(),
        ensures
            r@.len() == self.num_app,
            forall|i: int|
                0 <= i < self.num_app ==> #[trigger] r@[i] == (
                    self.app_start@[i],
                    self.app_start@[i + 1],
                ),
    {
        let mut r: Vec<(usize, usize)> = Vec::new();
        let mut i: usize = 0;
        while i < self.num_app
            invariant
                self.wf(),
                i <= self.num_app,
                r@.len() == i,
                forall|t: int|
                    0 <= t < i ==> #[trigger] r@[t] == (self.app_start@[t], self.app_start@[t + 1]),
            decreases self.num_app - i,
        {
            let start = self.app_start[i];
            let end = self.app_start[i + 1];
            r.push((start, end));
            i = i + 1;
        }
        r
    }

    /// Load the image at `app_index` into the window: zero-fill the entire
    /// window first, so no byte of an earlier image survives, then copy the
    /// image's bytes to the window's start. An index past the table loads
    /// nothing and signals successful shutdown instead — graceful
    /// termination, not an error. (The platform then issues its
    /// instruction-visibility barrier before the freshly written bytes run as
    /// code.)
    pub fn load_app(
        &self,
        app_index: usize,
        image: &Vec<u8>,
        window: &mut Vec<u8>,
        log: &mut Vec<Diagnostic>,
    ) -> (r: LoadOutcome)
        requires
            self.wf(),
            self.table_in(image@),
            old(window)@.len() == APP_SIZE_LIMIT,
        ensures
            final(window)@.len() == APP_SIZE_LIMIT,
            if app_index < self.num_app {
                &&& r == LoadOutcome::Loaded
                &&& final(window)@ == loaded_window(
                    image@,
                    self.app_start@[app_index as int] as int,
                    self.app_start@[app_index as int + 1] as int,
                )
                &&& final(log)@ == old(log)@.push(Diagnostic::LoadedApp(app_index))
            } else {
                &&& r == LoadOutcome::AllLoaded
                &&& final(window)@ == old(window)@
                &&& final(log)@ == old(log)@.push(Diagnostic::AllAppsCompleted)
            },
    {
        if app_index >= self.num_app {
            log.push(Diagnostic::AllAppsCompleted);
            return LoadOutcome::AllLoaded;
        }
        log.push(Diagnostic::LoadedApp(app_index));
        // full zero-fill precedes every copy
        let mut j: usize = 0;
        while j < APP_SIZE_LIMIT
            invariant
                window@.len() == APP_SIZE_LIMIT,
                j <= APP_SIZE_LIMIT,
                forall|t: int| 0 <= t < j ==> window@[t] == 0,
            decreases APP_SIZE_LIMIT - j,
        {
            window[j] = 0;
            j = j + 1;
        }
        let start = self.app_start[app_index];
        let end = self.app_start[app_index + 1];
        proof {
            assert(self.app_start@[app_index as int] < self.app_start@[app_index as int + 1]);
            let last = self.num_app as int;
            assert(self.app_start@[app_index as int + 1] <= self.app_start@[last]);
        }
        let size = end - start;
        let mut t: usize = 0;
        while t < size
            invariant
                self.wf(),
                self.table_in(image@),
                app_index < self.num_app,
                start == self.app_start@[app_index as int],
                end == self.app_start@[app_index as int + 1],
                size == end - start,
                start + size <= image@.len(),
                size <= APP_SIZE_LIMIT,
                t <= size,
                window@.len() == APP_SIZE_LIMIT,
                forall|u: int| 0 <= u < t ==> window@[u] == image@[start + u],
                forall|u: int| t <= u < APP_SIZE_LIMIT ==> window@[u] == 0,
            decreases size - t,
        {
            window[t] = image[start + t];
            t = t + 1;
        }
        proof {
            let s = loaded_window(image@, start as int, end as int);
            assert(window@ =~= s);
        }
        LoadOutcome::Loaded
    }
}

/// Outcome of one advance-to-next-app operation.
#[derive(Clone, Copy, PartialEq, Eq, Structural, Debug)]
pub enum RunOutcome {
    /// The next app was loaded and its launch frame stored; the platform's
    /// restore now drops to unprivileged mode at the window's base. Control
    /// never returns to whatever ran before.
    Launched,
    /// The table is exhausted; the platform invokes its successful-shutdown
    /// primitive and nothing runs afterwards.
    Shutdown,
}

/// The whole machine as the kernel sees it: the managed table behind its
/// exclusive-access guard, the read-only image blob, the app window, the two
/// stacks, and the bytes and diagnostics produced so far.
pub struct Kernel {
    /// The app table and current index, behind the exclusive-access guard.
    pub app_manager: UPSafeCell<AppManager>,
    /// The read-only blob holding all app images, laid down at link time.
    pub image: Vec<u8>,
    /// The fixed app-memory window at [`APP_BASE_ADDRESS`].
    pub window: Vec<u8>,
    /// The user stack.
    pub user_stack: UserStack,
    /// The kernel stack, holding the one live trap frame.
    pub kernel_stack: KernelStack,
    /// Every byte the kernel has emitted on behalf of apps, in order.
    pub console: Vec<u8>,
    /// Every diagnostic the kernel has produced, in order.
    pub log: Vec<Diagnostic>,
}

/// The index after one advance: one step forward until it reaches the count,
/// where it stays (the machine shuts down instead of loading).
pub open spec fn step_current(cur: nat, num_app: nat) -> nat {
    if cur < num_app {
        cur + 1
    } else {
        cur
    }
}

/// The diagnostic one advance emits: which app was loaded, or that the table
/// is exhausted.
pub open spec fn advance_diag(m: AppManager) -> Diagnostic {
    if m.current_app < m.num_app {
        Diagnostic::LoadedApp(m.current_app)
    } else {
        Diagnostic::AllAppsCompleted
    }
}

/// A stored launch frame for the app window's base, with the stack pointer
/// at the user stack's top.
pub open spec fn launch_saved(saved: Option<TrapContext>, us: UserStack) -> bool {
    saved matches Some(c) && c.is_launch(APP_BASE_ADDRESS, (us.base + USER_STACK_SIZE) as usize)
}

/// `window` holds at most one image of `m`'s table: it is all zeros (the
/// boot state) or exactly one entry's bytes followed by zeros.
pub open spec fn window_one_image(window: Seq<u8>, image: Seq<u8>, m: AppManager) -> bool {
    ||| window == zeros(APP_SIZE_LIMIT as nat)
    ||| (exists|i: int|
        0 <= i < m.num_app && window == loaded_window(
            image,
            #[trigger] m.app_start@[i] as int,
            m.app_start@[i + 1] as int,
        ))
}

impl Kernel {
    /// The managed table (the guard must be available).
    pub open spec fn mgr(&self) -> AppManager {
        self.app_manager.value()
    }

    /// The window holds at most one image: it is all zeros (boot state) or
    /// exactly one table entry's bytes followed by zeros. Every operation
    /// preserves this, because a full zero-fill precedes every copy.
    pub open spec fn window_from_table(&self) -> bool {
        window_one_image(self.window@, self.image@, self.mgr())
    }

    /// Kernel invariant: the guard is available between operations, the
    /// table is well formed and lies within the blob, the window has its
    /// fixed size and holds at most one image, and the three fixed regions —
    /// user stack, kernel stack, app window — are pairwise disjoint.
    pub open spec fn wf(&self) -> bool {
        &&& self.app_manager.is_available()
        &&& self.mgr().wf()
        &&& self.mgr().table_in(self.image@)
        &&& self.window@.len() == APP_SIZE_LIMIT
        &&& self.window_from_table()
        &&& self.user_stack.wf()
        &&& self.kernel_stack.wf()
        &&& ranges_disjoint(
            self.user_stack.base as int,
            USER_STACK_SIZE as int,
            self.kernel_stack.base as int,
            KERNEL_STACK_SIZE as int,
        )
        &&& ranges_disjoint(
            self.user_stack.base as int,
            USER_STACK_SIZE as int,
            APP_BASE_ADDRESS as int,
            APP_SIZE_LIMIT as int,
        )
        &&& ranges_disjoint(
            self.kernel_stack.base as int,
            KERNEL_STACK_SIZE as int,
            APP_BASE_ADDRESS as int,
            APP_SIZE_LIMIT as int,
        )
    }

    /// Build the kernel state at boot: the table read from the link-time
    /// blob, index zero, a zeroed window, empty console and log, and no trap
    /// frame yet. The table and the region layout come from the linker and
    /// are trusted to satisfy the stated invariants.
    pub fn new(
        image: Vec<u8>,
        app_start: Vec<usize>,
        user_stack_base: usize,
        kernel_stack_base: usize,
    ) -> (r: Kernel)
        requires
            1 <= app_start@.len() <= MAX_APP_NUM + 1,
            forall|i: int, j: int|
                0 <= i < j < app_start@.len() ==> #[trigger] app_start@[i]
                    < #[trigger] app_start@[j],
            forall|i: int|
                0 <= i < app_start@.len() - 1 ==> #[trigger] app_start@[i + 1] - app_start@[i]
                    <= APP_SIZE_LIMIT,
            app_start@[app_start@.len() - 1] <= image@.len(),
            user_stack_base + USER_STACK_SIZE <= usize::MAX,
            kernel_stack_base + KERNEL_STACK_SIZE <= usize::MAX,
            ranges_disjoint(
                user_stack_base as int,
                USER_STACK_SIZE as int,
                kernel_stack_base as int,
                KERNEL_STACK_SIZE as int,
            ),
            ranges_disjoint(
                user_stack_base as int,
                USER_STACK_SIZE as int,
                APP_BASE_ADDRESS as int,
                APP_SIZE_LIMIT as int,
            ),
            ranges_disjoint(
                kernel_stack_base as int,
                KERNEL_STACK_SIZE as int,
                APP_BASE_ADDRESS as int,
                APP_SIZE_LIMIT as int,
            ),
        ensures
            r.wf(),
            r.mgr().num_app == app_start@.len() - 1,
            r.mgr().current_app == 0,
            r.mgr().app_start@ == app_start@,
            r.image@ == image@,
            r.window@ == zeros(APP_SIZE_LIMIT as nat),
            r.user_stack.base == user_stack_base,
            r.kernel_stack.base == kernel_stack_base,
            r.kernel_stack.saved is None,
            r.console@ == Seq::<u8>::empty(),
            r.log@ == Seq::<Diagnostic>::empty(),
    {
        let mut window: Vec<u8> = Vec::new();
        let mut j: usize = 0;
        while j < APP_SIZE_LIMIT
            invariant
                j <= APP_SIZE_LIMIT,
                window@.len() == j,
                forall|t: int| 0 <= t < j ==> window@[t] == 0,
            decreases APP_SIZE_LIMIT - j,
        {
            window.push(0);
            j = j + 1;
        }
        proof {
            assert(window@ =~= zeros(APP_SIZE_LIMIT as nat));
        }
        let num_app = app_start.len() - 1;
        let manager = AppManager { num_app, current_app: 0, app_start };
        Kernel {
            app_manager: UPSafeCell::new(manager),
            image,
            window,
            user_stack: UserStack { base: user_stack_base },
            kernel_stack: KernelStack { base: kernel_stack_base, saved: None },
            console: Vec::new(),
            log: Vec::new(),
        }
    }

    /// The index of the next app to load.
    pub fn current_app(&self) -> (r: usize)
        requires
            self.wf(),
        ensures
            r == self.mgr().current_app,
    {
        self.app_manager.borrow_value().get_current_app()
    }
}

/// How one advance-to-next-app operation relates the machine before it to
/// the machine after it (everything but the diagnostics, which differ
/// between the paths that reach the advance): the blob, the table, the
/// console and the stack bases are untouched; the index steps once; and
/// either the next image fills the window with a fresh launch frame stored,
/// or — the table exhausted — nothing is loaded and the outcome is shutdown.
pub open spec fn advance_transition(pre: Kernel, post: Kernel, r: RunOutcome) -> bool {
    let m = pre.mgr();
    let m2 = post.mgr();
    &&& post.app_manager.is_available()
    &&& m2.num_app == m.num_app
    &&& m2.app_start@ == m.app_start@
    &&& m2.current_app == step_current(m.current_app as nat, m.num_app as nat)
    &&& post.image@ == pre.image@
    &&& post.console@ == pre.console@
    &&& post.user_stack == pre.user_stack
    &&& post.kernel_stack.base == pre.kernel_stack.base
    &&& if m.current_app < m.num_app {
        &&& r == RunOutcome::Launched
        &&& post.window@ == loaded_window(
            pre.image@,
            m.app_start@[m.current_app as int] as int,
            m.app_start@[m.current_app as int + 1] as int,
        )
        &&& launch_saved(post.kernel_stack.saved, pre.user_stack)
    } else {
        &&& r == RunOutcome::Shutdown
        &&& post.window@ == pre.window@
        &&& post.kernel_stack.saved == pre.kernel_stack.saved
    }
}

/// Advance to the next app: load the image at the current index, step the
/// index, and store a fresh launch frame — or, the table exhausted, signal
/// successful shutdown. In the running kernel the `Launched` path ends in
/// the restore operation and never returns to its caller; the outcome value
/// is what the platform acts on.
pub fn run_next_app(kernel: &mut Kernel) -> (r: RunOutcome)
    requires
        old(kernel).wf(),
    ensures
        final(kernel).wf(),
        advance_transition(*old(kernel), *final(kernel), r),
        final(kernel).log@ == old(kernel).log@.push(advance_diag(old(kernel).mgr())),
{
    let mut manager = kernel.app_manager.exclusive_access();
    let current = manager.get_current_app();
    let outcome = manager.load_app(current, &kernel.image, &mut kernel.window, &mut kernel.log);
    match outcome {
        LoadOutcome::AllLoaded => {
            kernel.app_manager.release(manager);
            RunOutcome::Shutdown
        },
        LoadOutcome::Loaded => {
            manager.move_to_next_app();
            kernel.app_manager.release(manager);
            let sp = kernel.user_stack.get_sp();
            let cx = TrapContext::app_init_context(APP_BASE_ADDRESS, sp);
            kernel.kernel_stack.push_context(cx);
            RunOutcome::Launched
        },
    }
}

/// The index reached after `k` consecutive advance steps from `start`.
pub open spec fn current_after_events(start: nat, num_app: nat, k: nat) -> nat
    decreases k,
{
    if k == 0 {
        start
    } else {
        step_current(current_after_events(start, num_app, (k - 1) as nat), num_app)
    }
}

/// Each exit-or-fault event advances the index by exactly one: after `k`
/// consecutive events on a fresh table (`k` at most the app count) the
/// current index is exactly `k`; and once the index equals the count, a
/// further event leaves it there — the load is refused and the machine shuts
/// down instead.
pub proof fn lemma_current_counts_events(num_app: nat, k: nat)
    requires
        k <= num_app,
    ensures
        current_after_events(0, num_app, k) == k,
        step_current(num_app, num_app) == num_app,
    decreases k,
{
    if k > 0 {
        lemma_current_counts_events(num_app, (k - 1) as nat);
    }
}

} // verus!
