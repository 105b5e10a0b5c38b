//! A set of tracees driven together: the tasks it owns, the address spaces
//! and thread groups they belong to, statistics, and orderly shutdown.

use vstd::prelude::*;
use crate::kernel::{SupportedArch, ESRCH};
use crate::registers::{view_with, Reg, Registers};
use crate::task::{AddressSpaceUid, Task, ThreadGroupUid};

verus! {

/// What a replay step is asked to do.
#[derive(Clone, Copy, Debug, PartialEq, Eq, Structural)]
pub enum RunCommand {
    /// Continue until a breakpoint or a new replay event.
    RunContinue,
    /// Execute a single instruction (unless at a breakpoint or a replay event).
    RunSinglestep,
    /// Like `RunSinglestep`, but a single-instruction loop may run several
    /// times if no other instruction is reached.
    RunSinglestepFastForward,
}

pub open spec fn spec_is_singlestep(command: RunCommand) -> bool {
    command == RunCommand::RunSinglestep || command == RunCommand::RunSinglestepFastForward
}

pub fn is_singlestep(command: RunCommand) -> (b: bool)
    ensures
        b == spec_is_singlestep(command),
{
    command == RunCommand::RunSinglestep || command == RunCommand::RunSinglestepFastForward
}

/// Whether the kernel reports a ptrace syscall stop before or after running
/// the seccomp filter.
#[derive(Clone, Copy, Debug, PartialEq, Eq, Structural)]
pub enum PtraceSyscallBeforeSeccomp {
    PtraceSyscallBeforeSeccomp,
    SeccompBeforePtraceSyscall,
    PtraceSyscallBeforeSeccompUnknown,
}

/// What the performance counter counts as a tick.
#[derive(Clone, Copy, Debug, PartialEq, Eq, Structural)]
pub enum TicksSemantics {
    TicksRetiredConditionalBranches,
    TicksTakenBranches,
}

/// Whether a session records, replays, or diverges from a replay.
#[derive(Clone, Copy, Debug, PartialEq, Eq, Structural)]
pub enum SessionKind {
    Recording,
    Replaying,
    Diversion,
}

/// Running totals of a session.
#[derive(Clone, Copy, Debug, PartialEq, Eq, Structural)]
pub struct Statistics {
    pub bytes_written: u64,
    pub ticks_processed: u64,
    pub syscalls_performed: u32,
}

impl Statistics {
    pub fn new() -> (s: Statistics)
        ensures
            s == (Statistics { bytes_written: 0, ticks_processed: 0, syscalls_performed: 0 }),
    {
        Statistics { bytes_written: 0, ticks_processed: 0, syscalls_performed: 0 }
    }
}

/// What the session knows of an address space.
#[derive(Clone, Copy, Debug, PartialEq, Eq, Structural)]
pub struct AddressSpaceInfo {
    pub uid: AddressSpaceUid,
    /// Address of a syscall instruction the tracer may make the tracee run.
    pub privileged_traced_syscall_ip: Option<u64>,
}

/// What the session knows of a thread group.
#[derive(Clone, Copy, Debug, PartialEq, Eq, Structural)]
pub struct ThreadGroupInfo {
    pub uid: ThreadGroupUid,
    pub real_tgid: i32,
    /// The group may exit without each task being detached cleanly.
    pub unstable: bool,
}

/// Number of the `exit` syscall.
pub open spec fn spec_exit_syscall(arch: SupportedArch) -> u64 {
    match arch {
        SupportedArch::X86 => 1,
        SupportedArch::X64 => 60,
    }
}

pub fn syscall_number_for_exit(arch: SupportedArch) -> (n: u64)
    ensures
        n == spec_exit_syscall(arch),
{
    match arch {
        SupportedArch::X86 => 1,
        SupportedArch::X64 => 60,
    }
}

/// One step of shutting a session down.
pub enum ShutdownAction {
    /// Write `regs` to thread `tid`, then PTRACE_DETACH it, retrying as
    /// `detach_verdict` says. If the thread runs at all it exits at once.
    DetachAtExit { tid: i32, regs: Registers },
    /// tgkill(`tgid`, `tid`, SIGKILL).
    Kill { tgid: i32, tid: i32 },
    /// The address space is gone.
    DestroyVm(AddressSpaceUid),
    /// The thread group is gone.
    DestroyTg(ThreadGroupUid),
}

/// What to do after a PTRACE_DETACH during shutdown.
#[derive(Clone, Copy, Debug, PartialEq, Eq, Structural)]
pub enum DetachVerdict {
    Detached,
    /// The thread no longer exists (it is a zombie).
    Vanished,
    /// The kernel reported ESRCH for a thread that still exists: try again.
    Retry,
}

/// Judge a PTRACE_DETACH that returned `result` with `errno`, given whether
/// the thread is a zombie.
pub fn detach_verdict(result: i64, errno: i32, is_zombie: bool) -> (v: DetachVerdict)
    requires
        result >= 0 || errno == ESRCH,
    ensures
        errno == ESRCH && is_zombie ==> v == DetachVerdict::Vanished,
        !(errno == ESRCH && is_zombie) && result >= 0 ==> v == DetachVerdict::Detached,
        !(errno == ESRCH && is_zombie) && result < 0 ==> v == DetachVerdict::Retry,
{
    if errno == ESRCH && is_zombie {
        DetachVerdict::Vanished
    } else if result >= 0 {
        DetachVerdict::Detached
    } else {
        DetachVerdict::Retry
    }
}

/// The registers that make a detached thread exit at once if it runs:
/// `ip` at a syscall instruction, the `exit` syscall, status zero.
pub open spec fn exit_regs_view(r: (SupportedArch, Seq<u64>), syscall_ip: u64) -> (SupportedArch, Seq<u64>) {
    view_with(
        view_with(view_with(r, Reg::Ip, syscall_ip), Reg::SyscallNo, spec_exit_syscall(r.0)),
        Reg::Arg1,
        0,
    )
}

/// The global state of a set of tracees recorded or replayed together.
pub struct SessionInner {
    pub kind: SessionKind,
    /// Tasks by thread id, each tid at most once.
    pub tasks: Vec<Task>,
    pub vms: Vec<AddressSpaceInfo>,
    pub thread_groups: Vec<ThreadGroupInfo>,
    pub statistics: Statistics,
    pub tracee_socket_fd_number: i32,
    pub next_task_serial: u32,
    pub syscall_seccomp_ordering: PtraceSyscallBeforeSeccomp,
    pub ticks_semantics: TicksSemantics,
    pub done_initial_exec: bool,
    pub visible_execution: bool,
}

/// Position of the address space `uid` in `vms`.
pub open spec fn vm_index(vms: Seq<AddressSpaceInfo>, uid: AddressSpaceUid) -> int {
    choose|j: int| 0 <= j < vms.len() && vms[j].uid == uid
}

pub open spec fn has_vm(vms: Seq<AddressSpaceInfo>, uid: AddressSpaceUid) -> bool {
    exists|j: int| 0 <= j < vms.len() && vms[j].uid == uid
}

pub open spec fn has_tg(tgs: Seq<ThreadGroupInfo>, uid: ThreadGroupUid) -> bool {
    exists|j: int| 0 <= j < tgs.len() && tgs[j].uid == uid
}

impl SessionInner {
    /// Thread ids are unique, every task is consistent, and its address space
    /// and thread group are known to the session.
    pub open spec fn wf(&self) -> bool {
        &&& forall|i: int, j: int|
            0 <= i < j < self.tasks@.len() ==> self.tasks@[i].tid != self.tasks@[j].tid
        &&& forall|i: int| 0 <= i < self.tasks@.len() ==> (#[trigger] self.tasks@[i]).inv()
        &&& forall|i: int|
            0 <= i < self.tasks@.len() ==> has_vm(self.vms@, (#[trigger] self.tasks@[i]).vm)
        &&& forall|i: int|
            0 <= i < self.tasks@.len() ==> has_tg(self.thread_groups@, (#[trigger] self.tasks@[i]).tg)
        &&& forall|i: int, j: int|
            0 <= i < j < self.vms@.len() ==> self.vms@[i].uid != self.vms@[j].uid
        &&& forall|i: int, j: int|
            0 <= i < j < self.thread_groups@.len() ==> self.thread_groups@[i].uid
                != self.thread_groups@[j].uid
    }

    /// An empty session.
    pub fn new(kind: SessionKind, tracee_socket_fd_number: i32, ticks_semantics: TicksSemantics) -> (s: SessionInner)
        ensures
            s.wf(),
            s.kind == kind,
            s.tasks@.len() == 0,
            s.vms@.len() == 0,
            s.thread_groups@.len() == 0,
            s.statistics == (Statistics { bytes_written: 0, ticks_processed: 0, syscalls_performed: 0 }),
            s.next_task_serial == 0,
            !s.done_initial_exec,
            s.tracee_socket_fd_number == tracee_socket_fd_number,
            s.ticks_semantics == ticks_semantics,
    {
        SessionInner {
            kind,
            tasks: Vec::new(),
            vms: Vec::new(),
            thread_groups: Vec::new(),
            statistics: Statistics::new(),
            tracee_socket_fd_number,
            next_task_serial: 0,
            syscall_seccomp_ordering: PtraceSyscallBeforeSeccomp::PtraceSyscallBeforeSeccompUnknown,
            ticks_semantics,
            done_initial_exec: false,
            visible_execution: true,
        }
    }

    pub fn is_recording(&self) -> (b: bool)
        ensures
            b == (self.kind == SessionKind::Recording),
    {
        self.kind == SessionKind::Recording
    }

    pub fn is_replaying(&self) -> (b: bool)
        ensures
            b == (self.kind == SessionKind::Replaying),
    {
        self.kind == SessionKind::Replaying
    }

    pub fn is_diversion(&self) -> (b: bool)
        ensures
            b == (self.kind == SessionKind::Diversion),
    {
        self.kind == SessionKind::Diversion
    }

    /// The serial number for the next task; serials start at 1.
    pub fn next_task_serial(&mut self) -> (n: u32)
        requires
            old(self).next_task_serial < u32::MAX,
        ensures
            n == old(self).next_task_serial + 1,
            *final(self) == (SessionInner { next_task_serial: n, ..*old(self) }),
    {
        self.next_task_serial = self.next_task_serial + 1;
        self.next_task_serial
    }

    pub fn accumulate_bytes_written(&mut self, bytes_written: u64)
        requires
            old(self).statistics.bytes_written + bytes_written <= u64::MAX,
        ensures
            *final(self) == (SessionInner {
                statistics: Statistics {
                    bytes_written: (old(self).statistics.bytes_written + bytes_written) as u64,
                    ..old(self).statistics
                },
                ..*old(self)
            }),
    {
        self.statistics.bytes_written = self.statistics.bytes_written + bytes_written;
    }

    pub fn accumulate_syscall_performed(&mut self)
        requires
            old(self).statistics.syscalls_performed < u32::MAX,
        ensures
            *final(self) == (SessionInner {
                statistics: Statistics {
                    syscalls_performed: (old(self).statistics.syscalls_performed + 1) as u32,
                    ..old(self).statistics
                },
                ..*old(self)
            }),
    {
        self.statistics.syscalls_performed = self.statistics.syscalls_performed + 1;
    }

    pub fn accumulate_ticks_processed(&mut self, ticks: u64)
        requires
            old(self).statistics.ticks_processed + ticks <= u64::MAX,
        ensures
            *final(self) == (SessionInner {
                statistics: Statistics {
                    ticks_processed: (old(self).statistics.ticks_processed + ticks) as u64,
                    ..old(self).statistics
                },
                ..*old(self)
            }),
    {
        self.statistics.ticks_processed = self.statistics.ticks_processed + ticks;
    }

    pub fn statistics(&self) -> (s: Statistics)
        ensures
            s == self.statistics,
    {
        self.statistics
    }

    pub fn done_initial_exec(&self) -> (b: bool)
        ensures
            b == self.done_initial_exec,
    {
        self.done_initial_exec
    }

    pub fn visible_execution(&self) -> (b: bool)
        ensures
            b == self.visible_execution,
    {
        self.visible_execution
    }

    pub fn set_visible_execution(&mut self, visible: bool)
        ensures
            *final(self) == (SessionInner { visible_execution: visible, ..*old(self) }),
    {
        self.visible_execution = visible;
    }

    pub fn syscall_seccomp_ordering(&self) -> (o: PtraceSyscallBeforeSeccomp)
        ensures
            o == self.syscall_seccomp_ordering,
    {
        self.syscall_seccomp_ordering
    }

    pub fn ticks_semantics(&self) -> (t: TicksSemantics)
        ensures
            t == self.ticks_semantics,
    {
        self.ticks_semantics
    }

    pub fn tracee_fd_number(&self) -> (fd: i32)
        ensures
            fd == self.tracee_socket_fd_number,
    {
        self.tracee_socket_fd_number
    }

    /// Name prefix of the shared-memory regions created for the tracee.
    pub fn rd_mapping_prefix() -> (p: &'static str)
        ensures
            p@ == "/rd-shared-"@,
    {
        "/rd-shared-"
    }
}

pub open spec fn is_detach(a: ShutdownAction) -> bool {
    a is DetachAtExit
}

pub open spec fn is_kill(a: ShutdownAction) -> bool {
    a is Kill
}

/// `a` detaches thread `tid` after giving it the registers `v`.
pub open spec fn detaches(a: ShutdownAction, tid: i32, v: (SupportedArch, Seq<u64>)) -> bool {
    match a {
        ShutdownAction::DetachAtExit { tid: t, regs } => t == tid && regs@ == v,
        _ => false,
    }
}

/// `a` kills thread `tid` of thread group `tgid`.
pub open spec fn kills(a: ShutdownAction, tgid: i32, tid: i32) -> bool {
    match a {
        ShutdownAction::Kill { tgid: g, tid: t } => g == tgid && t == tid,
        _ => false,
    }
}

/// The privileged syscall address of address space `uid` (unspecified if
/// the session does not know it).
pub open spec fn vm_exit_ip(vms: Seq<AddressSpaceInfo>, uid: AddressSpaceUid) -> u64 {
    vms[vm_index(vms, uid)].privileged_traced_syscall_ip->0
}

/// The first shutdown phase for `tasks`, in order: for each stopped task,
/// its thread id and the registers that make it exit.
pub open spec fn spec_detach_plan(tasks: Seq<Task>, vms: Seq<AddressSpaceInfo>) -> Seq<(i32, (SupportedArch, Seq<u64>))>
    decreases tasks.len(),
{
    if tasks.len() == 0 {
        Seq::empty()
    } else {
        let t = tasks.last();
        let earlier = spec_detach_plan(tasks.drop_last(), vms);
        if t.is_stopped {
            earlier.push((t.tid, exit_regs_view(t.regs@, vm_exit_ip(vms, t.vm))))
        } else {
            earlier
        }
    }
}

/// Every stopped task appears in the detach plan.
pub proof fn lemma_every_stopped_task_detached(tasks: Seq<Task>, vms: Seq<AddressSpaceInfo>, k: int)
    requires
        0 <= k < tasks.len(),
        tasks[k].is_stopped,
    ensures
        exists|i: int|
            0 <= i < spec_detach_plan(tasks, vms).len() && (#[trigger] spec_detach_plan(
                tasks,
                vms,
            )[i]).0 == tasks[k].tid,
    decreases tasks.len(),
{
    let p = spec_detach_plan(tasks, vms);
    if k == tasks.len() - 1 {
        assert(p[p.len() - 1].0 == tasks[k].tid);
    } else {
        let earlier = spec_detach_plan(tasks.drop_last(), vms);
        lemma_every_stopped_task_detached(tasks.drop_last(), vms, k);
        let i = choose|i: int| 0 <= i < earlier.len() && (#[trigger] earlier[i]).0 == tasks.drop_last()[k].tid;
        assert(p[i] == earlier[i]);
    }
}

/// Some action kills a thread of thread group `tgid`.
pub open spec fn group_killed(actions: Seq<ShutdownAction>, tgid: i32) -> bool {
    exists|i: int, tid: i32| 0 <= i < actions.len() && kills(actions[i], tgid, tid)
}

impl SessionInner {
    fn find_vm(&self, uid: AddressSpaceUid) -> (r: Option<usize>)
        ensures
            r is Some ==> r->0 < self.vms@.len() && self.vms@[r->0 as int].uid == uid,
            r is None ==> !has_vm(self.vms@, uid),
    {
        let mut i: usize = 0;
        while i < self.vms.len()
            invariant
                i <= self.vms@.len(),
                forall|j: int| 0 <= j < i ==> self.vms@[j].uid != uid,
            decreases self.vms@.len() - i,
        {
            if self.vms[i].uid == uid {
                return Some(i);
            }
            i += 1;
        }
        None
    }

    fn find_tg(&self, uid: ThreadGroupUid) -> (r: Option<usize>)
        ensures
            r is Some ==> r->0 < self.thread_groups@.len() && self.thread_groups@[r->0 as int].uid
                == uid,
            r is None ==> !has_tg(self.thread_groups@, uid),
    {
        let mut i: usize = 0;
        while i < self.thread_groups.len()
            invariant
                i <= self.thread_groups@.len(),
                forall|j: int| 0 <= j < i ==> self.thread_groups@[j].uid != uid,
            decreases self.thread_groups@.len() - i,
        {
            if self.thread_groups[i].uid == uid {
                return Some(i);
            }
            i += 1;
        }
        None
    }

    /// Every stopped task's address space knows where its privileged
    /// syscall instruction is.
    pub open spec fn exit_ips_known(&self) -> bool {
        forall|k: int, j: int|
            0 <= k < self.tasks@.len() && 0 <= j < self.vms@.len() && self.tasks@[k].is_stopped
                && #[trigger] self.vms@[j].uid == (#[trigger] self.tasks@[k]).vm
                ==> self.vms@[j].privileged_traced_syscall_ip is Some
    }

    /// First phase of shutdown: for each stopped task, the registers that
    /// make it exit if it runs after being detached. Running tasks are
    /// skipped: their registers cannot be rewritten; SIGKILL will do.
    #[verifier::rlimit(30)]
    fn plan_safe_detach(&self) -> (actions: Vec<ShutdownAction>)
        requires
            self.wf(),
            self.exit_ips_known(),
        ensures
            actions@.len() == spec_detach_plan(self.tasks@, self.vms@).len(),
            forall|i: int|
                0 <= i < actions@.len() ==> detaches(
                    #[trigger] actions@[i],
                    spec_detach_plan(self.tasks@, self.vms@)[i].0,
                    spec_detach_plan(self.tasks@, self.vms@)[i].1,
                ),
    {
        let mut actions: Vec<ShutdownAction> = Vec::new();
        let mut k: usize = 0;
        assert(self.tasks@.subrange(0, 0) =~= Seq::<Task>::empty());
        while k < self.tasks.len()
            invariant
                k <= self.tasks@.len(),
                self.wf(),
                self.exit_ips_known(),
                actions@.len() == spec_detach_plan(self.tasks@.subrange(0, k as int), self.vms@).len(),
                forall|i: int|
                    0 <= i < actions@.len() ==> detaches(
                        #[trigger] actions@[i],
                        spec_detach_plan(self.tasks@.subrange(0, k as int), self.vms@)[i].0,
                        spec_detach_plan(self.tasks@.subrange(0, k as int), self.vms@)[i].1,
                    ),
            decreases self.tasks@.len() - k,
        {
            let ghost pre = self.tasks@.subrange(0, k as int);
            let ghost cur = self.tasks@.subrange(0, k + 1);
            assert(cur.drop_last() =~= pre);
            assert(cur.last() == self.tasks@[k as int]);
            let t = &self.tasks[k];
            if t.is_stopped {
                assert(t.inv());
                assert(has_vm(self.vms@, t.vm));
                match self.find_vm(t.vm) {
                    Some(j) => {
                        proof {
                            let c = vm_index(self.vms@, t.vm);
                            assert(0 <= c < self.vms@.len() && self.vms@[c].uid == t.vm);
                            if c != j as int {
                                if c < j as int {
                                    assert(self.vms@[c].uid != self.vms@[j as int].uid);
                                } else {
                                    assert(self.vms@[j as int].uid != self.vms@[c].uid);
                                }
                            }
                            assert(self.vms@[j as int].uid == self.tasks@[k as int].vm);
                        }
                        match self.vms[j].privileged_traced_syscall_ip {
                            Some(ip) => {
                                let mut r = t.regs_snapshot();
                                let arch = r.arch();
                                r.set(Reg::Ip, ip);
                                r.set(Reg::SyscallNo, syscall_number_for_exit(arch));
                                r.set(Reg::Arg1, 0);
                                let a = ShutdownAction::DetachAtExit { tid: t.tid, regs: r };
                                actions.push(a);
                            },
                            None => {
                                assert(false);
                            },
                        }
                    },
                    None => {
                        assert(false);
                    },
                }
            }
            k += 1;
        }
        assert(self.tasks@.subrange(0, self.tasks@.len() as int) =~= self.tasks@);
        actions
    }
}

/// Position of the thread group `uid` in `tgs`.
pub open spec fn tg_index(tgs: Seq<ThreadGroupInfo>, uid: ThreadGroupUid) -> int {
    choose|j: int| 0 <= j < tgs.len() && tgs[j].uid == uid
}

/// The second shutdown phase for `tasks`, taken from the last one down:
/// each task whose thread group is still stable gets SIGKILL (as the pair
/// thread-group id, thread id) and its group becomes unstable. Also gives
/// the thread groups afterwards.
pub open spec fn spec_kill_plan(tasks: Seq<Task>, tgs: Seq<ThreadGroupInfo>) -> (Seq<(i32, i32)>, Seq<ThreadGroupInfo>)
    decreases tasks.len(),
{
    if tasks.len() == 0 {
        (Seq::empty(), tgs)
    } else {
        let t = tasks.last();
        let j = tg_index(tgs, t.tg);
        if !tgs[j].unstable {
            let rest = spec_kill_plan(
                tasks.drop_last(),
                tgs.update(j, ThreadGroupInfo { unstable: true, ..tgs[j] }),
            );
            (seq![(tgs[j].real_tgid, t.tid)].add(rest.0), rest.1)
        } else {
            spec_kill_plan(tasks.drop_last(), tgs)
        }
    }
}

pub open spec fn destroys_vm(a: ShutdownAction, uid: AddressSpaceUid) -> bool {
    match a {
        ShutdownAction::DestroyVm(u) => u == uid,
        _ => false,
    }
}

pub open spec fn destroys_tg(a: ShutdownAction, uid: ThreadGroupUid) -> bool {
    match a {
        ShutdownAction::DestroyTg(u) => u == uid,
        _ => false,
    }
}

/// Thread-group uids are unique and the same, in order, as in `orig`.
pub open spec fn same_groups(tgs: Seq<ThreadGroupInfo>, orig: Seq<ThreadGroupInfo>) -> bool {
    &&& tgs.len() == orig.len()
    &&& forall|j: int| 0 <= j < tgs.len() ==> (#[trigger] tgs[j]).uid == orig[j].uid
    &&& forall|i: int, j: int| 0 <= i < j < tgs.len() ==> tgs[i].uid != tgs[j].uid
}

impl SessionInner {
    /// Second phase of shutdown: drain the task table from the end, sending
    /// SIGKILL to each task whose thread group is still stable and marking
    /// the group unstable.
    #[verifier::rlimit(30)]
    fn kill_remaining(&mut self, actions: &mut Vec<ShutdownAction>)
        requires
            old(self).wf(),
        ensures
            final(self).tasks@.len() == 0,
            final(self).thread_groups@ == spec_kill_plan(
                old(self).tasks@,
                old(self).thread_groups@,
            ).1,
            same_groups(final(self).thread_groups@, old(self).thread_groups@),
            final(self).vms == old(self).vms,
            final(self).kind == old(self).kind,
            final(self).statistics == old(self).statistics,
            final(actions)@.len() == old(actions)@.len() + spec_kill_plan(
                old(self).tasks@,
                old(self).thread_groups@,
            ).0.len(),
            forall|i: int| 0 <= i < old(actions)@.len() ==> final(actions)@[i] == old(actions)@[i],
            forall|i: int|
                0 <= i < spec_kill_plan(old(self).tasks@, old(self).thread_groups@).0.len()
                    ==> kills(
                    #[trigger] final(actions)@[old(actions)@.len() + i],
                    spec_kill_plan(old(self).tasks@, old(self).thread_groups@).0[i].0,
                    spec_kill_plan(old(self).tasks@, old(self).thread_groups@).0[i].1,
                ),
    {
        let ghost full = spec_kill_plan(self.tasks@, self.thread_groups@);
        let ghost a0 = actions@.len();
        let ghost orig_tgs = self.thread_groups@;
        let ghost mut done: Seq<(i32, i32)> = Seq::empty();
        assert(done.add(full.0) =~= full.0);
        while self.tasks.len() > 0
            invariant
                full == spec_kill_plan(old(self).tasks@, old(self).thread_groups@),
                orig_tgs == old(self).thread_groups@,
                a0 == old(actions)@.len(),
                self.tasks@ == old(self).tasks@.subrange(0, self.tasks@.len() as int),
                self.tasks@.len() <= old(self).tasks@.len(),
                old(self).wf(),
                same_groups(self.thread_groups@, orig_tgs),
                self.vms == old(self).vms,
                self.kind == old(self).kind,
                self.statistics == old(self).statistics,
                done.add(spec_kill_plan(self.tasks@, self.thread_groups@).0) == full.0,
                spec_kill_plan(self.tasks@, self.thread_groups@).1 == full.1,
                actions@.len() == a0 + done.len(),
                forall|i: int| 0 <= i < a0 ==> actions@[i] == old(actions)@[i],
                forall|i: int|
                    0 <= i < done.len() ==> kills(
                        #[trigger] actions@[a0 + i],
                        done[i].0,
                        done[i].1,
                    ),
            decreases self.tasks@.len(),
        {
            let ghost cur = self.tasks@;
            let ghost tgs = self.thread_groups@;
            let n = self.tasks.len();
            let t = self.tasks.pop().unwrap();
            assert(cur.drop_last() =~= self.tasks@);
            assert(t == cur.last());
            assert(self.tasks@ =~= old(self).tasks@.subrange(0, self.tasks@.len() as int));
            assert(old(self).tasks@[n - 1] == t);
            assert(has_tg(old(self).thread_groups@, t.tg));
            let ghost j0 = choose|j: int|
                0 <= j < old(self).thread_groups@.len() && old(self).thread_groups@[j].uid == t.tg;
            assert(tgs[j0].uid == t.tg);
            assert(has_tg(self.thread_groups@, t.tg));
            match self.find_tg(t.tg) {
                Some(j) => {
                    proof {
                        let c = tg_index(tgs, t.tg);
                        assert(0 <= c < tgs.len() && tgs[c].uid == t.tg);
                        if c != j as int {
                            if c < j as int {
                                assert(tgs[c].uid != tgs[j as int].uid);
                            } else {
                                assert(tgs[j as int].uid != tgs[c].uid);
                            }
                        }
                    }
                    let g = self.thread_groups[j];
                    if !g.unstable {
                        let ghost d0 = done;
                        actions.push(ShutdownAction::Kill { tgid: g.real_tgid, tid: t.tid });
                        self.thread_groups.set(j, ThreadGroupInfo { unstable: true, ..g });
                        proof {
                            done = done.push((g.real_tgid, t.tid));
                            let rest = spec_kill_plan(self.tasks@, self.thread_groups@);
                            assert(self.thread_groups@ =~= tgs.update(
                                j as int,
                                ThreadGroupInfo { unstable: true, ..tgs[j as int] },
                            ));
                            assert(spec_kill_plan(cur, tgs).0 =~= seq![(g.real_tgid, t.tid)].add(
                                rest.0,
                            ));
                            assert(done.add(rest.0) =~= d0.add(spec_kill_plan(cur, tgs).0));
                            assert(actions@[(a0 + d0.len()) as int] == ShutdownAction::Kill {
                                tgid: g.real_tgid,
                                tid: t.tid,
                            });
                            assert forall|i: int| 0 <= i < done.len() implies kills(
                                #[trigger] actions@[a0 + i],
                                done[i].0,
                                done[i].1,
                            ) by {
                                if i < d0.len() {
                                    assert(done[i] == d0[i]);
                                }
                            }
                        }
                    }
                },
                None => {
                    assert(false);
                },
            }
        }
        assert(done.add(Seq::<(i32, i32)>::empty()) =~= done);
    }

    /// Last phase of shutdown: the address spaces and thread groups are gone.
    #[verifier::rlimit(30)]
    fn destroy_all(&mut self, actions: &mut Vec<ShutdownAction>)
        ensures
            final(self).vms@.len() == 0,
            final(self).thread_groups@.len() == 0,
            final(self).tasks == old(self).tasks,
            final(self).kind == old(self).kind,
            final(self).statistics == old(self).statistics,
            final(actions)@.len() == old(actions)@.len() + old(self).vms@.len() + old(self).thread_groups@.len(),
            forall|i: int| 0 <= i < old(actions)@.len() ==> final(actions)@[i] == old(actions)@[i],
            forall|i: int|
                0 <= i < old(self).vms@.len() ==> destroys_vm(
                    #[trigger] final(actions)@[old(actions)@.len() + i],
                    old(self).vms@[i].uid,
                ),
            forall|i: int|
                0 <= i < old(self).thread_groups@.len() ==> destroys_tg(
                    #[trigger] final(actions)@[old(actions)@.len() + old(self).vms@.len() + i],
                    old(self).thread_groups@[i].uid,
                ),
    {
        let ghost a0 = actions@.len();
        let nv = self.vms.len();
        let mut i: usize = 0;
        while i < nv
            invariant
                i <= nv,
                nv == self.vms@.len(),
                self.vms == old(self).vms,
                self.thread_groups == old(self).thread_groups,
                self.tasks == old(self).tasks,
                self.kind == old(self).kind,
                self.statistics == old(self).statistics,
                a0 == old(actions)@.len(),
                actions@.len() == a0 + i,
                forall|k: int| 0 <= k < a0 ==> actions@[k] == old(actions)@[k],
                forall|k: int|
                    0 <= k < i ==> destroys_vm(#[trigger] actions@[a0 + k], self.vms@[k].uid),
            decreases nv - i,
        {
            actions.push(ShutdownAction::DestroyVm(self.vms[i].uid));
            i += 1;
        }
        let ng = self.thread_groups.len();
        let mut i: usize = 0;
        while i < ng
            invariant
                i <= ng,
                ng == self.thread_groups@.len(),
                self.vms == old(self).vms,
                self.thread_groups == old(self).thread_groups,
                self.tasks == old(self).tasks,
                self.kind == old(self).kind,
                self.statistics == old(self).statistics,
                a0 == old(actions)@.len(),
                actions@.len() == a0 + nv + i,
                forall|k: int| 0 <= k < a0 ==> actions@[k] == old(actions)@[k],
                forall|k: int|
                    0 <= k < nv ==> destroys_vm(#[trigger] actions@[a0 + k], self.vms@[k].uid),
                forall|k: int|
                    0 <= k < i ==> destroys_tg(
                        #[trigger] actions@[a0 + nv + k],
                        self.thread_groups@[k].uid,
                    ),
            decreases ng - i,
        {
            actions.push(ShutdownAction::DestroyTg(self.thread_groups[i].uid));
            i += 1;
        }
        self.vms = Vec::new();
        self.thread_groups = Vec::new();
    }

    /// Shut the session down. Returns, in order, what the caller must do:
    /// first detach every stopped task at an exit syscall, then SIGKILL one
    /// task of each thread group that is still stable, then notify the
    /// destruction of every address space and thread group. Afterwards the
    /// session holds no task, address space or thread group.
    #[verifier::rlimit(30)]
    pub fn kill_all_tasks(&mut self) -> (actions: Vec<ShutdownAction>)
        requires
            old(self).wf(),
            old(self).exit_ips_known(),
        ensures
            final(self).wf(),
            final(self).tasks@.len() == 0,
            final(self).vms@.len() == 0,
            final(self).thread_groups@.len() == 0,
            final(self).kind == old(self).kind,
            final(self).statistics == old(self).statistics,
            ({
                let d = spec_detach_plan(old(self).tasks@, old(self).vms@);
                let kp = spec_kill_plan(old(self).tasks@, old(self).thread_groups@).0;
                let nv = old(self).vms@.len();
                &&& actions@.len() == d.len() + kp.len() + nv + old(self).thread_groups@.len()
                &&& forall|i: int|
                    0 <= i < d.len() ==> detaches(#[trigger] actions@[i], d[i].0, d[i].1)
                &&& forall|i: int|
                    0 <= i < kp.len() ==> kills(#[trigger] actions@[d.len() + i], kp[i].0, kp[i].1)
                &&& forall|i: int|
                    0 <= i < nv ==> destroys_vm(
                        #[trigger] actions@[d.len() + kp.len() + i],
                        old(self).vms@[i].uid,
                    )
                &&& forall|i: int|
                    0 <= i < old(self).thread_groups@.len() ==> destroys_tg(
                        #[trigger] actions@[d.len() + kp.len() + nv + i],
                        old(self).thread_groups@[i].uid,
                    )
            }),
            forall|i: int, j: int|
                0 <= i < actions@.len() && 0 <= j < actions@.len() && is_kill(actions@[i])
                    && is_detach(actions@[j]) ==> j < i,
    {
        let mut actions = self.plan_safe_detach();
        let ghost d = spec_detach_plan(self.tasks@, self.vms@);
        let ghost kp = spec_kill_plan(self.tasks@, self.thread_groups@).0;
        let ghost nv = self.vms@.len();
        let ghost old_vms = self.vms@;
        let ghost old_tgs = self.thread_groups@;
        self.kill_remaining(&mut actions);
        self.destroy_all(&mut actions);
        assert forall|i: int, j: int|
            0 <= i < actions@.len() && 0 <= j < actions@.len() && is_kill(actions@[i]) && is_detach(
                actions@[j],
            ) implies j < i by {
            if j >= d.len() {
                if j < d.len() + kp.len() {
                    assert(kills(actions@[d.len() + (j - d.len())], kp[j - d.len()].0, kp[j - d.len()].1));
                } else if j < d.len() + kp.len() + nv {
                    assert(destroys_vm(actions@[d.len() + kp.len() + (j - d.len() - kp.len())], old_vms[j - d.len() - kp.len()].uid));
                } else {
                    assert(destroys_tg(
                        actions@[d.len() + kp.len() + nv + (j - d.len() - kp.len() - nv)],
                        old_tgs[j - d.len() - kp.len() - nv].uid,
                    ));
                }
            }
            if i < d.len() {
                assert(detaches(actions@[i], d[i].0, d[i].1));
            }
        }
        actions
    }
}

/// Kind of a hardware watchpoint.
#[derive(Clone, Copy, Debug, PartialEq, Eq, Structural)]
pub enum WatchType {
    Exec,
    Write,
    ReadWrite,
}

/// A watchpoint: `num_bytes` bytes at `addr`.
#[derive(Clone, Copy, Debug, PartialEq, Eq, Structural)]
pub struct WatchConfig {
    pub addr: u64,
    pub num_bytes: u64,
    pub kind: WatchType,
}

/// Why a replay step stopped; several reasons may hold at once.
pub struct BreakStatus {
    /// The thread that stopped.
    pub tid: i32,
    /// Watchpoints hit; a stop happens after the triggering instruction.
    pub watchpoints_hit: Vec<WatchConfig>,
    /// The signal delivered to the thread, if that is why it stopped.
    pub signal: Option<crate::task::SigInfo>,
    /// A software breakpoint at the thread's `ip` was hit.
    pub breakpoint_hit: bool,
    /// A single-step completed.
    pub singlestep_complete: bool,
    /// The tick target is close.
    pub approaching_ticks_target: bool,
    /// The thread is about to exit.
    pub task_exit: bool,
}

impl BreakStatus {
    /// No reason to stop, for thread `tid`.
    pub fn new(tid: i32) -> (b: BreakStatus)
        ensures
            b.tid == tid,
            b.watchpoints_hit@.len() == 0,
            b.signal is None,
            !b.breakpoint_hit && !b.singlestep_complete && !b.approaching_ticks_target
                && !b.task_exit,
    {
        BreakStatus {
            tid,
            watchpoints_hit: Vec::new(),
            signal: None,
            breakpoint_hit: false,
            singlestep_complete: false,
            approaching_ticks_target: false,
            task_exit: false,
        }
    }

    /// A software breakpoint or an exec watchpoint was hit at `ip`.
    pub fn hardware_or_software_breakpoint_hit(&self) -> (b: bool)
        ensures
            b == (self.breakpoint_hit || exists|i: int|
                0 <= i < self.watchpoints_hit@.len() && self.watchpoints_hit@[i].kind
                    == WatchType::Exec),
    {
        let mut i: usize = 0;
        while i < self.watchpoints_hit.len()
            invariant
                i <= self.watchpoints_hit@.len(),
                forall|k: int| 0 <= k < i ==> self.watchpoints_hit@[k].kind != WatchType::Exec,
            decreases self.watchpoints_hit@.len() - i,
        {
            if self.watchpoints_hit[i].kind == WatchType::Exec {
                return true;
            }
            i += 1;
        }
        self.breakpoint_hit
    }

    /// The watchpoints hit that watch data (not execution), in order.
    pub fn data_watchpoints_hit(&self) -> (r: Vec<WatchConfig>)
        ensures
            r@ == self.watchpoints_hit@.filter(|w: WatchConfig| w.kind != WatchType::Exec),
    {
        let mut r: Vec<WatchConfig> = Vec::new();
        let mut i: usize = 0;
        while i < self.watchpoints_hit.len()
            invariant
                i <= self.watchpoints_hit@.len(),
                r@ == self.watchpoints_hit@.subrange(0, i as int).filter(
                    |w: WatchConfig| w.kind != WatchType::Exec,
                ),
            decreases self.watchpoints_hit@.len() - i,
        {
            let w = self.watchpoints_hit[i];
            proof {
                let s = self.watchpoints_hit@.subrange(0, i + 1);
                assert(s.drop_last() =~= self.watchpoints_hit@.subrange(0, i as int));
                reveal(Seq::filter);
            }
            if w.kind != WatchType::Exec {
                r.push(w);
            }
            i += 1;
        }
        assert(self.watchpoints_hit@.subrange(0, self.watchpoints_hit@.len() as int)
            =~= self.watchpoints_hit@);
        r
    }

    /// Some reason to stop holds (an imminent exit alone is none).
    pub fn any_break(&self) -> (b: bool)
        ensures
            b == (self.watchpoints_hit@.len() > 0 || self.signal is Some || self.breakpoint_hit
                || self.singlestep_complete || self.approaching_ticks_target),
    {
        self.watchpoints_hit.len() > 0 || self.signal.is_some() || self.breakpoint_hit
            || self.singlestep_complete || self.approaching_ticks_target
    }
}

impl SessionInner {
    /// Register a new address space for task (`tid`, `serial`) after
    /// `exec_count` execs, and return its identity.
    pub fn create_vm(&mut self, tid: i32, serial: u32, exec_count: u32, privileged_traced_syscall_ip: Option<u64>) -> (uid: AddressSpaceUid)
        requires
            old(self).wf(),
            !has_vm(old(self).vms@, AddressSpaceUid { tid, serial, exec_count }),
        ensures
            final(self).wf(),
            uid == (AddressSpaceUid { tid, serial, exec_count }),
            final(self).vms@ == old(self).vms@.push(
                AddressSpaceInfo { uid, privileged_traced_syscall_ip },
            ),
            final(self).tasks == old(self).tasks,
            final(self).thread_groups == old(self).thread_groups,
    {
        let uid = AddressSpaceUid { tid, serial, exec_count };
        self.vms.push(AddressSpaceInfo { uid, privileged_traced_syscall_ip });
        proof {
            assert forall|i: int| 0 <= i < self.tasks@.len() implies has_vm(
                self.vms@,
                (#[trigger] self.tasks@[i]).vm,
            ) by {
                let j = choose|j: int|
                    0 <= j < old(self).vms@.len() && old(self).vms@[j].uid == self.tasks@[i].vm;
                assert(self.vms@[j] == old(self).vms@[j]);
            }
        }
        uid
    }

    /// Register a new thread group.
    pub fn on_create_tg(&mut self, info: ThreadGroupInfo)
        requires
            old(self).wf(),
            !has_tg(old(self).thread_groups@, info.uid),
        ensures
            final(self).wf(),
            final(self).thread_groups@ == old(self).thread_groups@.push(info),
            final(self).tasks == old(self).tasks,
            final(self).vms == old(self).vms,
    {
        self.thread_groups.push(info);
        proof {
            assert forall|i: int| 0 <= i < self.tasks@.len() implies has_tg(
                self.thread_groups@,
                (#[trigger] self.tasks@[i]).tg,
            ) by {
                let j = choose|j: int|
                    0 <= j < old(self).thread_groups@.len() && old(self).thread_groups@[j].uid
                        == self.tasks@[i].tg;
                assert(self.thread_groups@[j] == old(self).thread_groups@[j]);
            }
        }
    }

    /// The identities of the address spaces being tracked.
    pub fn vms(&self) -> (r: Vec<AddressSpaceUid>)
        ensures
            r@.len() == self.vms@.len(),
            forall|i: int| 0 <= i < r@.len() ==> r@[i] == self.vms@[i].uid,
    {
        let mut r: Vec<AddressSpaceUid> = Vec::new();
        let mut i: usize = 0;
        while i < self.vms.len()
            invariant
                i <= self.vms@.len(),
                r@.len() == i,
                forall|k: int| 0 <= k < i ==> r@[k] == self.vms@[k].uid,
            decreases self.vms@.len() - i,
        {
            r.push(self.vms[i].uid);
            i += 1;
        }
        r
    }

    /// Forget the address space `uid`, which no task uses any more.
    pub fn on_destroy_vm(&mut self, uid: AddressSpaceUid)
        requires
            old(self).wf(),
            forall|i: int| 0 <= i < old(self).tasks@.len() ==> old(self).tasks@[i].vm != uid,
        ensures
            final(self).wf(),
            !has_vm(final(self).vms@, uid),
            forall|u: AddressSpaceUid| u != uid ==> (has_vm(final(self).vms@, u) == has_vm(
                old(self).vms@,
                u,
            )),
            final(self).vms@ == old(self).vms@.filter(|v: AddressSpaceInfo| v.uid != uid),
            final(self).tasks == old(self).tasks,
            final(self).thread_groups == old(self).thread_groups,
    {
        let ghost before = self.vms@;
        let kept = without_vm(&self.vms, uid);
        self.vms = kept;
        proof {
            assert forall|i: int| 0 <= i < self.tasks@.len() implies has_vm(
                self.vms@,
                (#[trigger] self.tasks@[i]).vm,
            ) by {
                assert(has_vm(old(self).vms@, self.tasks@[i].vm));
                assert(self.tasks@[i].vm != uid);
            }
        }
    }
}

impl SessionInner {
    /// Whether the session owns a task for thread `tid`.
    pub open spec fn has_task(&self, tid: i32) -> bool {
        exists|i: int| 0 <= i < self.tasks@.len() && self.tasks@[i].tid == tid
    }

    /// Take ownership of the new task `t`.
    pub fn add_task(&mut self, t: Task)
        requires
            old(self).wf(),
            t.inv(),
            !old(self).has_task(t.tid),
            has_vm(old(self).vms@, t.vm),
            has_tg(old(self).thread_groups@, t.tg),
        ensures
            final(self).wf(),
            final(self).tasks@ == old(self).tasks@.push(t),
            final(self).vms == old(self).vms,
            final(self).thread_groups == old(self).thread_groups,
    {
        self.tasks.push(t);
        assert(forall|i: int|
            0 <= i < old(self).tasks@.len() ==> self.tasks@[i] == old(self).tasks@[i]);
    }

    /// Position of the task that had thread id `rec_tid` when recorded.
    pub fn find_task_from_rec_tid(&self, rec_tid: i32) -> (r: Option<usize>)
        ensures
            r is Some ==> r->0 < self.tasks@.len() && self.tasks@[r->0 as int].rec_tid == rec_tid,
            r is None ==> forall|i: int|
                0 <= i < self.tasks@.len() ==> self.tasks@[i].rec_tid != rec_tid,
    {
        let mut i: usize = 0;
        while i < self.tasks.len()
            invariant
                i <= self.tasks@.len(),
                forall|k: int| 0 <= k < i ==> self.tasks@[k].rec_tid != rec_tid,
            decreases self.tasks@.len() - i,
        {
            if self.tasks[i].rec_tid == rec_tid {
                return Some(i);
            }
            i += 1;
        }
        None
    }

    /// Give up the task for thread `tid`, if the session owns one.
    #[verifier::rlimit(30)]
    pub fn on_destroy_task(&mut self, tid: i32) -> (t: Option<Task>)
        requires
            old(self).wf(),
        ensures
            final(self).wf(),
            !final(self).has_task(tid),
            t is Some == old(self).has_task(tid),
            t is Some ==> t->0.tid == tid,
            t is Some ==> exists|i: int|
                0 <= i < old(self).tasks@.len() && old(self).tasks@[i].tid == tid && t->0 == old(self).tasks@[i] && final(self).tasks@ == old(self).tasks@.remove(i),
            t is None ==> *final(self) == *old(self),
            forall|u: i32| u != tid ==> (final(self).has_task(u) == old(self).has_task(u)),
            final(self).vms == old(self).vms,
            final(self).thread_groups == old(self).thread_groups,
    {
        let mut i: usize = 0;
        while i < self.tasks.len()
            invariant
                i <= self.tasks@.len(),
                *self == *old(self),
                old(self).wf(),
                forall|k: int| 0 <= k < i ==> self.tasks@[k].tid != tid,
            decreases self.tasks@.len() - i,
        {
            if self.tasks[i].tid == tid {
                let ghost before = self.tasks@;
                proof {
                    assert(before == old(self).tasks@);
                    assert(old(self).wf());
                }
                let t = self.tasks.remove(i);
                proof {
                    assert(t == before[i as int]);
                    assert(self.tasks@ == before.remove(i as int));
                    assert forall|k: int| 0 <= k < self.tasks@.len() implies self.tasks@[k].tid
                        != tid by {
                        if k < i {
                            assert(self.tasks@[k] == before[k]);
                        } else {
                            assert(self.tasks@[k] == before[k + 1]);
                            assert(old(self).tasks@[i as int].tid != old(self).tasks@[k + 1].tid);
                        }
                    }
                    assert forall|u: i32| u != tid implies (self.has_task(u) == old(self).has_task(u)) by {
                        if old(self).has_task(u) {
                            let k = choose|k: int| 0 <= k < before.len() && before[k].tid == u;
                            if k < i {
                                assert(self.tasks@[k] == before[k]);
                            } else {
                                assert(k != i);
                                assert(self.tasks@[k - 1] == before[k]);
                            }
                        }
                        if self.has_task(u) {
                            let k = choose|k: int| 0 <= k < self.tasks@.len() && self.tasks@[k].tid == u;
                            if k < i {
                                assert(self.tasks@[k] == before[k]);
                            } else {
                                assert(self.tasks@[k] == before[k + 1]);
                            }
                        }
                    }
                    assert forall|a: int, b: int|
                        0 <= a < b < self.tasks@.len() implies self.tasks@[a].tid
                        != self.tasks@[b].tid by {
                        let a0 = if a < i { a } else { a + 1 };
                        let b0 = if b < i { b } else { b + 1 };
                        assert(self.tasks@[a] == before[a0]);
                        assert(self.tasks@[b] == before[b0]);
                        assert(a0 < b0);
                        assert(old(self).tasks@[a0].tid != old(self).tasks@[b0].tid);
                    }
                    assert forall|k: int| 0 <= k < self.tasks@.len() implies {
                        &&& (#[trigger] self.tasks@[k]).inv()
                        &&& has_vm(self.vms@, self.tasks@[k].vm)
                        &&& has_tg(self.thread_groups@, self.tasks@[k].tg)
                    } by {
                        let k0 = if k < i { k } else { k + 1 };
                        assert(self.tasks@[k] == before[k0]);
                        assert(before[k0].inv());
                    }
                }
                return Some(t);
            }
            i += 1;
        }
        None
    }
}

/// `vms` without the entry for `uid`, in order.
#[verifier::rlimit(100)]
fn without_vm(vms: &Vec<AddressSpaceInfo>, uid: AddressSpaceUid) -> (kept: Vec<AddressSpaceInfo>)
    requires
        forall|a: int, b: int| 0 <= a < b < vms@.len() ==> vms@[a].uid != vms@[b].uid,
    ensures
        !has_vm(kept@, uid),
        forall|u: AddressSpaceUid| u != uid ==> (has_vm(kept@, u) == has_vm(vms@, u)),
        forall|a: int, b: int| 0 <= a < b < kept@.len() ==> kept@[a].uid != kept@[b].uid,
        kept@ == vms@.filter(|v: AddressSpaceInfo| v.uid != uid),
{
    let mut kept: Vec<AddressSpaceInfo> = Vec::new();
    let mut i: usize = 0;
    while i < vms.len()
        invariant
            i <= vms@.len(),
            kept@ == vms@.subrange(0, i as int).filter(|v: AddressSpaceInfo| v.uid != uid),
            forall|a: int, b: int| 0 <= a < b < vms@.len() ==> vms@[a].uid != vms@[b].uid,
            forall|k: int| 0 <= k < kept@.len() ==> kept@[k].uid != uid,
            forall|k: int|
                0 <= k < kept@.len() ==> exists|j: int| 0 <= j < i && #[trigger] kept@[k] == vms@[j],
            forall|j: int|
                0 <= j < i && vms@[j].uid != uid ==> exists|k: int|
                    0 <= k < kept@.len() && #[trigger] kept@[k] == vms@[j],
            forall|a: int, b: int| 0 <= a < b < kept@.len() ==> kept@[a].uid != kept@[b].uid,
        decreases vms@.len() - i,
    {
        let g = vms[i];
        proof {
            assert(vms@.subrange(0, i + 1).drop_last() =~= vms@.subrange(0, i as int));
            reveal(Seq::filter);
        }
        if g.uid != uid {
            proof {
                assert forall|k: int| 0 <= k < kept@.len() implies kept@[k].uid != g.uid by {
                    let j = choose|j: int| 0 <= j < i && #[trigger] kept@[k] == vms@[j];
                    assert(vms@[j].uid != vms@[i as int].uid);
                }
            }
            let ghost k0 = kept@;
            kept.push(g);
            proof {
                assert forall|k: int| 0 <= k < kept@.len() implies exists|j: int|
                    0 <= j < i + 1 && #[trigger] kept@[k] == vms@[j] by {
                    if k < k0.len() {
                        assert(kept@[k] == k0[k]);
                    } else {
                        assert(kept@[k] == vms@[i as int]);
                    }
                }
                assert forall|j: int| 0 <= j < i + 1 && vms@[j].uid != uid implies exists|k: int|
                    0 <= k < kept@.len() && #[trigger] kept@[k] == vms@[j] by {
                    if j < i {
                        let k = choose|k: int| 0 <= k < k0.len() && #[trigger] k0[k] == vms@[j];
                        assert(kept@[k] == k0[k]);
                    } else {
                        assert(kept@[k0.len() as int] == vms@[j]);
                    }
                }
            }
        }
        i += 1;
    }
    proof {
        assert forall|u: AddressSpaceUid| u != uid implies (has_vm(kept@, u) == has_vm(vms@, u)) by {
            if has_vm(vms@, u) {
                let j = choose|j: int| 0 <= j < vms@.len() && vms@[j].uid == u;
                let k = choose|k: int| 0 <= k < kept@.len() && #[trigger] kept@[k] == vms@[j];
                assert(kept@[k].uid == u);
            }
            if has_vm(kept@, u) {
                let k = choose|k: int| 0 <= k < kept@.len() && kept@[k].uid == u;
                let j = choose|j: int| 0 <= j < vms@.len() && #[trigger] kept@[k] == vms@[j];
                assert(vms@[j].uid == u);
            }
        }
    }
    assert(vms@.subrange(0, vms@.len() as int) =~= vms@);
    kept
}

/// `tgs` without the entry for `uid`, in order.
#[verifier::rlimit(100)]
fn without_tg(tgs: &Vec<ThreadGroupInfo>, uid: ThreadGroupUid) -> (kept: Vec<ThreadGroupInfo>)
    requires
        forall|a: int, b: int| 0 <= a < b < tgs@.len() ==> tgs@[a].uid != tgs@[b].uid,
    ensures
        !has_tg(kept@, uid),
        forall|u: ThreadGroupUid| u != uid ==> (has_tg(kept@, u) == has_tg(tgs@, u)),
        forall|a: int, b: int| 0 <= a < b < kept@.len() ==> kept@[a].uid != kept@[b].uid,
        kept@ == tgs@.filter(|v: ThreadGroupInfo| v.uid != uid),
{
    let mut kept: Vec<ThreadGroupInfo> = Vec::new();
    let mut i: usize = 0;
    while i < tgs.len()
        invariant
            i <= tgs@.len(),
            kept@ == tgs@.subrange(0, i as int).filter(|v: ThreadGroupInfo| v.uid != uid),
            forall|a: int, b: int| 0 <= a < b < tgs@.len() ==> tgs@[a].uid != tgs@[b].uid,
            forall|k: int| 0 <= k < kept@.len() ==> kept@[k].uid != uid,
            forall|k: int|
                0 <= k < kept@.len() ==> exists|j: int| 0 <= j < i && #[trigger] kept@[k] == tgs@[j],
            forall|j: int|
                0 <= j < i && tgs@[j].uid != uid ==> exists|k: int|
                    0 <= k < kept@.len() && #[trigger] kept@[k] == tgs@[j],
            forall|a: int, b: int| 0 <= a < b < kept@.len() ==> kept@[a].uid != kept@[b].uid,
        decreases tgs@.len() - i,
    {
        let g = tgs[i];
        proof {
            assert(tgs@.subrange(0, i + 1).drop_last() =~= tgs@.subrange(0, i as int));
            reveal(Seq::filter);
        }
        if g.uid != uid {
            proof {
                assert forall|k: int| 0 <= k < kept@.len() implies kept@[k].uid != g.uid by {
                    let j = choose|j: int| 0 <= j < i && #[trigger] kept@[k] == tgs@[j];
                    assert(tgs@[j].uid != tgs@[i as int].uid);
                }
            }
            let ghost k0 = kept@;
            kept.push(g);
            proof {
                assert forall|k: int| 0 <= k < kept@.len() implies exists|j: int|
                    0 <= j < i + 1 && #[trigger] kept@[k] == tgs@[j] by {
                    if k < k0.len() {
                        assert(kept@[k] == k0[k]);
                    } else {
                        assert(kept@[k] == tgs@[i as int]);
                    }
                }
                assert forall|j: int| 0 <= j < i + 1 && tgs@[j].uid != uid implies exists|k: int|
                    0 <= k < kept@.len() && #[trigger] kept@[k] == tgs@[j] by {
                    if j < i {
                        let k = choose|k: int| 0 <= k < k0.len() && #[trigger] k0[k] == tgs@[j];
                        assert(kept@[k] == k0[k]);
                    } else {
                        assert(kept@[k0.len() as int] == tgs@[j]);
                    }
                }
            }
        }
        i += 1;
    }
    proof {
        assert forall|u: ThreadGroupUid| u != uid implies (has_tg(kept@, u) == has_tg(tgs@, u)) by {
            if has_tg(tgs@, u) {
                let j = choose|j: int| 0 <= j < tgs@.len() && tgs@[j].uid == u;
                let k = choose|k: int| 0 <= k < kept@.len() && #[trigger] kept@[k] == tgs@[j];
                assert(kept@[k].uid == u);
            }
            if has_tg(kept@, u) {
                let k = choose|k: int| 0 <= k < kept@.len() && kept@[k].uid == u;
                let j = choose|j: int| 0 <= j < tgs@.len() && #[trigger] kept@[k] == tgs@[j];
                assert(tgs@[j].uid == u);
            }
        }
    }
    assert(tgs@.subrange(0, tgs@.len() as int) =~= tgs@);
    kept
}

impl SessionInner {
    /// Forget the thread group `uid`, which no task belongs to any more.
    pub fn on_destroy_tg(&mut self, uid: ThreadGroupUid)
        requires
            old(self).wf(),
            forall|i: int| 0 <= i < old(self).tasks@.len() ==> old(self).tasks@[i].tg != uid,
        ensures
            final(self).wf(),
            !has_tg(final(self).thread_groups@, uid),
            forall|u: ThreadGroupUid| u != uid ==> (has_tg(final(self).thread_groups@, u) == has_tg(
                old(self).thread_groups@,
                u,
            )),
            final(self).thread_groups@ == old(self).thread_groups@.filter(|v: ThreadGroupInfo| v.uid != uid),
            final(self).tasks == old(self).tasks,
            final(self).vms == old(self).vms,
    {
        let ghost before = self.thread_groups@;
        let kept = without_tg(&self.thread_groups, uid);
        self.thread_groups = kept;
        proof {
            assert forall|i: int| 0 <= i < self.tasks@.len() implies has_tg(
                self.thread_groups@,
                (#[trigger] self.tasks@[i]).tg,
            ) by {
                assert(has_tg(old(self).thread_groups@, self.tasks@[i].tg));
                assert(self.tasks@[i].tg != uid);
            }
        }
    }
}

impl SessionInner {
    /// Register the copy of address space `from` made for the task with
    /// recorded thread id `leader_rec_tid` and serial `leader_serial`; the
    /// copy knows the same privileged syscall address. Returns its identity.
    pub fn clone_vm(&mut self, leader_rec_tid: i32, leader_serial: u32, from: AddressSpaceUid) -> (uid: AddressSpaceUid)
        requires
            old(self).wf(),
            has_vm(old(self).vms@, from),
            !has_vm(old(self).vms@, AddressSpaceUid { tid: leader_rec_tid, serial: leader_serial, exec_count: 0 }),
        ensures
            final(self).wf(),
            uid == (AddressSpaceUid { tid: leader_rec_tid, serial: leader_serial, exec_count: 0 }),
            final(self).vms@.len() == old(self).vms@.len() + 1,
            final(self).vms@.drop_last() == old(self).vms@,
            final(self).vms@.last().uid == uid,
            exists|j: int|
                0 <= j < old(self).vms@.len() && old(self).vms@[j].uid == from
                    && final(self).vms@.last().privileged_traced_syscall_ip
                    == old(self).vms@[j].privileged_traced_syscall_ip,
            final(self).tasks == old(self).tasks,
            final(self).thread_groups == old(self).thread_groups,
    {
        let j = match self.find_vm(from) {
            Some(j) => j,
            None => {
                assert(false);
                0
            },
        };
        let ip = self.vms[j].privileged_traced_syscall_ip;
        let uid = self.create_vm(leader_rec_tid, leader_serial, 0, ip);
        assert(self.vms@.drop_last() =~= old(self).vms@);
        uid
    }

    /// Register the thread group of the first task (`tid`, `serial`) of a
    /// session, whose process id is `real_tgid`.
    pub fn create_initial_tg(&mut self, tid: i32, serial: u32, real_tgid: i32) -> (uid: ThreadGroupUid)
        requires
            old(self).wf(),
            !has_tg(old(self).thread_groups@, ThreadGroupUid { tid, serial }),
        ensures
            final(self).wf(),
            uid == (ThreadGroupUid { tid, serial }),
            final(self).thread_groups@ == old(self).thread_groups@.push(
                ThreadGroupInfo { uid, real_tgid, unstable: false },
            ),
            final(self).tasks == old(self).tasks,
            final(self).vms == old(self).vms,
    {
        let uid = ThreadGroupUid { tid, serial };
        self.on_create_tg(ThreadGroupInfo { uid, real_tgid, unstable: false });
        uid
    }
}

} // verus!
