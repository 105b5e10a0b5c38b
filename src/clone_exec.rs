//! Bookkeeping when a tracee clones, execs or goes away: which syscall
//! buffers and scratch regions to unmap in which address space, which
//! descriptors to close, what a new task inherits, and what an exec resets.

use vstd::prelude::*;
use crate::kernel::{remote_sub, addr_sub, MemRange, SupportedArch};
use crate::task::{AddressSpaceUid, Task, ThreadGroupUid, UserDesc};

verus! {

/// A remote operation on a tracee's buffers, done through a stopped task of
/// the address space (or descriptor table) concerned.
#[derive(Clone, Copy, Debug, PartialEq, Eq, Structural)]
pub enum BufferAction {
    /// munmap the range in the tracee and drop it from the address space.
    Unmap { addr: u64, len: u64 },
    /// close the descriptor in the tracee and drop it from the table.
    CloseRemote { fd: i32 },
    /// Drop the descriptor from the table only.
    Forget { fd: i32 },
}

/// The syscall-buffer bookkeeping of one task.
#[derive(Clone, Copy, Debug, PartialEq, Eq, Structural)]
pub struct TaskBuffers {
    pub syscallbuf_child: u64,
    pub syscallbuf_size: u64,
    pub scratch_ptr: u64,
    pub scratch_size: u64,
    pub desched_fd_child: i32,
    pub cloned_file_data_fd_child: i32,
}

impl Task {
    pub open spec fn spec_buffers(&self) -> TaskBuffers {
        TaskBuffers {
            syscallbuf_child: self.syscallbuf_child,
            syscallbuf_size: self.syscallbuf_size,
            scratch_ptr: self.scratch_ptr,
            scratch_size: self.scratch_size,
            desched_fd_child: self.desched_fd_child,
            cloned_file_data_fd_child: self.cloned_file_data_fd_child,
        }
    }

    pub fn buffers(&self) -> (b: TaskBuffers)
        ensures
            b == self.spec_buffers(),
    {
        TaskBuffers {
            syscallbuf_child: self.syscallbuf_child,
            syscallbuf_size: self.syscallbuf_size,
            scratch_ptr: self.scratch_ptr,
            scratch_size: self.scratch_size,
            desched_fd_child: self.desched_fd_child,
            cloned_file_data_fd_child: self.cloned_file_data_fd_child,
        }
    }
}

/// Unmapping a task's scratch region, then its syscall buffer; a null
/// pointer means there is nothing to unmap.
pub open spec fn spec_unmap_buffers(b: TaskBuffers) -> Seq<BufferAction> {
    let scratch = if b.scratch_ptr != 0 {
        seq![BufferAction::Unmap { addr: b.scratch_ptr, len: b.scratch_size }]
    } else {
        Seq::empty()
    };
    let buf = if b.syscallbuf_child != 0 {
        seq![BufferAction::Unmap { addr: b.syscallbuf_child, len: b.syscallbuf_size }]
    } else {
        Seq::empty()
    };
    scratch.add(buf)
}

pub fn unmap_buffers_for(b: TaskBuffers) -> (r: Vec<BufferAction>)
    ensures
        r@ == spec_unmap_buffers(b),
{
    let mut r: Vec<BufferAction> = Vec::new();
    if b.scratch_ptr != 0 {
        r.push(BufferAction::Unmap { addr: b.scratch_ptr, len: b.scratch_size });
    }
    if b.syscallbuf_child != 0 {
        r.push(BufferAction::Unmap { addr: b.syscallbuf_child, len: b.syscallbuf_size });
    }
    assert(r@ =~= spec_unmap_buffers(b));
    r
}

/// Closing a task's desched descriptor (in the tracee only while
/// recording: in replay it does not exist there) and its cloned-file-data
/// descriptor; a negative descriptor means there is none.
pub open spec fn spec_close_buffers(desched_fd: i32, cloned_fd: i32, recording: bool) -> Seq<BufferAction> {
    let d = if desched_fd >= 0 {
        if recording {
            seq![BufferAction::CloseRemote { fd: desched_fd }]
        } else {
            seq![BufferAction::Forget { fd: desched_fd }]
        }
    } else {
        Seq::empty()
    };
    let c = if cloned_fd >= 0 {
        seq![BufferAction::CloseRemote { fd: cloned_fd }]
    } else {
        Seq::empty()
    };
    d.add(c)
}

pub fn close_buffers_for(desched_fd: i32, cloned_fd: i32, recording: bool) -> (r: Vec<
    BufferAction,
>)
    ensures
        r@ == spec_close_buffers(desched_fd, cloned_fd, recording),
{
    let mut r: Vec<BufferAction> = Vec::new();
    if desched_fd >= 0 {
        if recording {
            r.push(BufferAction::CloseRemote { fd: desched_fd });
        } else {
            r.push(BufferAction::Forget { fd: desched_fd });
        }
    }
    if cloned_fd >= 0 {
        r.push(BufferAction::CloseRemote { fd: cloned_fd });
    }
    assert(r@ =~= spec_close_buffers(desched_fd, cloned_fd, recording));
    r
}

/// Tear down a task's syscall buffer, scratch region and buffer
/// descriptors, forgetting them in the task.
pub fn destroy_buffers(t: &mut Task, recording: bool) -> (r: Vec<BufferAction>)
    requires
        old(t).inv(),
    ensures
        final(t).inv(),
        r@ == spec_unmap_buffers(old(t).spec_buffers()).add(
            spec_close_buffers(
                old(t).desched_fd_child,
                old(t).cloned_file_data_fd_child,
                recording,
            ),
        ),
        *final(t) == (Task {
            syscallbuf_child: 0,
            scratch_ptr: 0,
            desched_fd_child: -1i32,
            cloned_file_data_fd_child: -1i32,
            ..*old(t)
        }),
{
    let b = t.buffers();
    t.syscallbuf_child = 0;
    let mut r = unmap_buffers_for(b);
    t.scratch_ptr = 0;
    let mut c = close_buffers_for(b.desched_fd_child, b.cloned_file_data_fd_child, recording);
    r.append(&mut c);
    t.desched_fd_child = -1;
    t.cloned_file_data_fd_child = -1;
    r
}

/// Install `desc` among the thread areas: it replaces the descriptor with
/// the same entry number, or is added at the end.
#[verifier::rlimit(30)]
pub fn set_thread_area_core(thread_areas: &mut Vec<UserDesc>, desc: UserDesc)
    ensures
        (exists|i: int|
            0 <= i < old(thread_areas)@.len() && old(thread_areas)@[i].entry_number
                == desc.entry_number) ==> ({
            let i = choose|i: int|
                0 <= i < old(thread_areas)@.len() && old(thread_areas)@[i].entry_number
                    == desc.entry_number && forall|k: int|
                    0 <= k < i ==> old(thread_areas)@[k].entry_number != desc.entry_number;
            final(thread_areas)@ == old(thread_areas)@.update(i, desc)
        }),
        !(exists|i: int|
            0 <= i < old(thread_areas)@.len() && old(thread_areas)@[i].entry_number
                == desc.entry_number) ==> final(thread_areas)@ == old(thread_areas)@.push(desc),
{
    let mut i: usize = 0;
    while i < thread_areas.len()
        invariant
            i <= thread_areas@.len(),
            *thread_areas == *old(thread_areas),
            forall|k: int| 0 <= k < i ==> thread_areas@[k].entry_number != desc.entry_number,
        decreases thread_areas@.len() - i,
    {
        if thread_areas[i].entry_number == desc.entry_number {
            let ghost first = i as int;
            assert(forall|k: int|
                0 <= k < first ==> old(thread_areas)@[k].entry_number != desc.entry_number);
            proof {
                let c = choose|c: int|
                    0 <= c < old(thread_areas)@.len() && old(thread_areas)@[c].entry_number
                        == desc.entry_number && forall|k: int|
                        0 <= k < c ==> old(thread_areas)@[k].entry_number != desc.entry_number;
                if c < first {
                } else if c > first {
                    assert(old(thread_areas)@[first].entry_number == desc.entry_number);
                }
                assert(c == first);
            }
            thread_areas.set(i, desc);
            return;
        }
        i += 1;
    }
    thread_areas.push(desc);
}

/// Position just past the last `/` of `s`, or zero.
pub open spec fn basename_start(s: Seq<u8>) -> int
    decreases s.len(),
{
    if s.len() == 0 {
        0
    } else if s.last() == 0x2f {
        s.len() as int
    } else {
        basename_start(s.drop_last())
    }
}

proof fn lemma_basename_start_bounds(s: Seq<u8>)
    ensures
        0 <= basename_start(s) <= s.len(),
        forall|i: int| basename_start(s) <= i < s.len() ==> s[i] != 0x2f,
        basename_start(s) > 0 ==> s[basename_start(s) - 1] == 0x2f,
    decreases s.len(),
{
    if s.len() > 0 && s.last() != 0x2f {
        lemma_basename_start_bounds(s.drop_last());
        assert forall|i: int| basename_start(s) <= i < s.len() implies s[i] != 0x2f by {
            if i < s.len() - 1 {
                assert(s.drop_last()[i] == s[i]);
            }
        }
    }
}

/// The thread name an exec of the image at path `exe` gives: the part after
/// the last `/`.
#[verifier::rlimit(30)]
pub fn prname_from_exe_image(exe: &Vec<u8>) -> (r: Vec<u8>)
    ensures
        r@ == exe@.subrange(basename_start(exe@), exe@.len() as int),
        forall|i: int| 0 <= i < r@.len() ==> r@[i] != 0x2f,
{
    proof {
        lemma_basename_start_bounds(exe@);
    }
    let n = exe.len();
    let mut pos: usize = n;
    assert(exe@.subrange(0, n as int) =~= exe@);
    while pos > 0 && exe[pos - 1] != 0x2f
        invariant
            pos <= n,
            n == exe@.len(),
            basename_start(exe@.subrange(0, pos as int)) == basename_start(exe@),
        decreases pos,
    {
        let ghost pre = exe@.subrange(0, pos as int);
        assert(pre.drop_last() =~= exe@.subrange(0, pos - 1));
        pos -= 1;
    }
    proof {
        let pre = exe@.subrange(0, pos as int);
        if pos > 0 {
            assert(pre.last() == 0x2f);
        }
        assert(basename_start(pre) == pos as int);
    }
    let mut r: Vec<u8> = Vec::new();
    let mut i: usize = pos;
    while i < n
        invariant
            pos <= i <= n,
            n == exe@.len(),
            pos as int == basename_start(exe@),
            r@ == exe@.subrange(pos as int, i as int),
        decreases n - i,
    {
        r.push(exe[i]);
        assert(exe@.subrange(pos as int, i + 1) =~= exe@.subrange(pos as int, i as int).push(
            exe@[i as int],
        ));
        i += 1;
    }
    r
}

/// What to do about an exec'ing task's buffers, which can only be unmapped
/// once the exec has succeeded, through another stopped task of the old
/// address space.
#[derive(Clone, Debug, PartialEq, Eq)]
pub enum ExecCleanup {
    /// Unmap them through the stopped task `tid`.
    UnmapVia { tid: i32, actions: Vec<BufferAction> },
    /// Other tasks share the address space but none is stopped: leak them.
    Leak,
    /// No other task shares the address space: they went with it.
    Nothing,
}

/// Choose how to clean up after the exec of the task with buffers `mine`,
/// given the other tasks of its old address space as (tid, stopped) pairs.
pub fn exec_cleanup(mine: TaskBuffers, others: &Vec<(i32, bool)>) -> (r: ExecCleanup)
    ensures
        others@.len() == 0 ==> r == ExecCleanup::Nothing,
        (exists|i: int| 0 <= i < others@.len() && others@[i].1) ==> ({
            let i = choose|i: int|
                0 <= i < others@.len() && others@[i].1 && forall|k: int|
                    0 <= k < i ==> !others@[k].1;
            r matches ExecCleanup::UnmapVia { tid, actions } && tid == others@[i].0 && actions@
                == spec_unmap_buffers(mine)
        }),
        others@.len() > 0 && (forall|i: int| 0 <= i < others@.len() ==> !others@[i].1) ==> r
            == ExecCleanup::Leak,
{
    let mut i: usize = 0;
    while i < others.len()
        invariant
            i <= others@.len(),
            forall|k: int| 0 <= k < i ==> !others@[k].1,
        decreases others@.len() - i,
    {
        if others[i].1 {
            proof {
                let c = choose|c: int|
                    0 <= c < others@.len() && others@[c].1 && forall|k: int|
                        0 <= k < c ==> !others@[k].1;
                if c > i as int {
                    assert(others@[i as int].1);
                }
                assert(c == i as int);
            }
            return ExecCleanup::UnmapVia { tid: others[i].0, actions: unmap_buffers_for(mine) };
        }
        i += 1;
    }
    if others.len() == 0 {
        ExecCleanup::Nothing
    } else {
        ExecCleanup::Leak
    }
}

/// What a successful exec asks of the rest of the model, in order.
#[derive(Clone, Copy, Debug, PartialEq, Eq, Structural)]
pub enum ExecStep {
    /// Tell the session that the task exec'd.
    NotifySession,
    /// Remove the task from the task set of its old address space.
    LeaveVm(AddressSpaceUid),
    /// Remove the task from the task set of its old descriptor table.
    LeaveFdTable,
    /// Create the task's new address space from the exec'd image.
    CreateVm(AddressSpaceUid),
    /// Give the task a fresh copy of its old descriptor table: the kernel
    /// unshares it on exec.
    CopyFdTable,
}

impl Task {
    /// The state of a task after a successful exec of the image `exe`,
    /// which gets the fresh address space `vm` (its exec count one more than
    /// the old one's): extended registers invalid, syscall-buffer and
    /// preload bookkeeping cleared, thread areas dropped, name from `exe`.
    pub open spec fn spec_after_exec(self, exe: Seq<u8>, vm: AddressSpaceUid, prname: Vec<u8>, areas: Vec<UserDesc>) -> Task {
        Task {
            extra_registers_valid: false,
            syscallbuf_child: 0,
            syscallbuf_size: 0,
            scratch_ptr: 0,
            cloned_file_data_fd_child: -1i32,
            stopping_breakpoint_table: 0,
            stopping_breakpoint_table_entry_size: 0,
            preload_globals: None,
            thread_areas: areas,
            vm,
            prname,
            ..self
        }
    }

    /// Reset the task for the image `exe` it has just exec'd; returns what
    /// the session, address spaces and descriptor tables must do, in order.
    pub fn post_exec(&mut self, exe: &Vec<u8>) -> (steps: Vec<ExecStep>)
        requires
            old(self).inv(),
            old(self).vm.exec_count < u32::MAX,
        ensures
            final(self).inv(),
            ({
                let vm = AddressSpaceUid {
                    tid: old(self).tid,
                    serial: old(self).serial,
                    exec_count: (old(self).vm.exec_count + 1) as u32,
                };
                &&& final(self).vm == vm
                &&& steps@ == seq![
                    ExecStep::NotifySession,
                    ExecStep::LeaveVm(old(self).vm),
                    ExecStep::LeaveFdTable,
                    ExecStep::CreateVm(vm),
                    ExecStep::CopyFdTable,
                ]
                &&& *final(self) == old(self).spec_after_exec(
                    exe@,
                    vm,
                    final(self).prname,
                    final(self).thread_areas,
                )
            }),
            final(self).prname@ == exe@.subrange(basename_start(exe@), exe@.len() as int),
            final(self).thread_areas@.len() == 0,
    {
        let old_vm = self.vm;
        let vm = AddressSpaceUid {
            tid: self.tid,
            serial: self.serial,
            exec_count: self.vm.exec_count + 1,
        };
        self.extra_registers_valid = false;
        self.syscallbuf_child = 0;
        self.syscallbuf_size = 0;
        self.scratch_ptr = 0;
        self.cloned_file_data_fd_child = -1;
        self.stopping_breakpoint_table = 0;
        self.stopping_breakpoint_table_entry_size = 0;
        self.preload_globals = None;
        self.thread_areas = Vec::new();
        self.vm = vm;
        self.prname = prname_from_exe_image(exe);
        let mut steps: Vec<ExecStep> = Vec::new();
        steps.push(ExecStep::NotifySession);
        steps.push(ExecStep::LeaveVm(old_vm));
        steps.push(ExecStep::LeaveFdTable);
        steps.push(ExecStep::CreateVm(vm));
        steps.push(ExecStep::CopyFdTable);
        assert(steps@ =~= seq![
            ExecStep::NotifySession,
            ExecStep::LeaveVm(old_vm),
            ExecStep::LeaveFdTable,
            ExecStep::CreateVm(vm),
            ExecStep::CopyFdTable,
        ]);
        steps
    }
}

/// Why a task is being cloned.
#[derive(Clone, Copy, Debug, PartialEq, Eq, Structural)]
pub enum CloneReason {
    /// The tracee called clone/fork.
    TraceeClone,
    /// A checkpoint copies a session: the first task of an address space.
    SessionCloneLeader,
    /// A checkpoint copies a session: the other tasks.
    SessionCloneNonleader,
}

/// What a new task shares with the task it is cloned from.
#[derive(Clone, Copy, Debug, PartialEq, Eq, Structural)]
pub struct CloneFlags {
    pub share_vm: bool,
    pub share_files: bool,
    pub share_thread_group: bool,
    pub set_tls: bool,
}

/// What the caller must do around a clone, besides waiting for the new
/// task's first stop before touching its memory.
pub struct ClonePlan {
    /// The address of the last byte of the new stack: its mapping, unless it
    /// lies on the heap, is to be recorded as `[stack]`.
    pub remap_stack_at: Option<u64>,
    /// Read the `user_desc` at this address and install it in the new task's
    /// thread areas.
    pub set_thread_area_from: Option<u64>,
    /// Done through the new task: unmap the syscall buffers and scratch
    /// regions of the other tasks of the original address space.
    pub unmap_in_child: Vec<BufferAction>,
    /// Tell the original address space it was forked into the new one.
    pub did_fork_into: bool,
    /// Done through the new task: close the buffer descriptors of the tasks
    /// of the original descriptor table.
    pub close_in_child: Vec<BufferAction>,
    /// Give the new task its own copy of the original descriptor table;
    /// otherwise it shares that table. Either way the new task joins the task
    /// sets of its address space, thread group and descriptor table.
    pub copy_fd_table: bool,
    /// Tell the new address space it was cloned.
    pub post_vm_clone: bool,
    /// Copy the preload library's thread locals from the original task.
    pub copy_preload_thread_locals: bool,
}

/// Unmaps for the buffers of every task in `bs`, in order.
pub open spec fn spec_all_unmaps(bs: Seq<TaskBuffers>) -> Seq<BufferAction>
    decreases bs.len(),
{
    if bs.len() == 0 {
        Seq::empty()
    } else {
        spec_all_unmaps(bs.drop_last()).add(spec_unmap_buffers(bs.last()))
    }
}

/// Closes for the buffer descriptors of every task in `bs`, in order.
pub open spec fn spec_all_closes(bs: Seq<TaskBuffers>, recording: bool) -> Seq<BufferAction>
    decreases bs.len(),
{
    if bs.len() == 0 {
        Seq::empty()
    } else {
        spec_all_closes(bs.drop_last(), recording).add(
            spec_close_buffers(bs.last().desched_fd_child, bs.last().cloned_file_data_fd_child, recording),
        )
    }
}

fn all_unmaps(bs: &Vec<TaskBuffers>) -> (r: Vec<BufferAction>)
    ensures
        r@ == spec_all_unmaps(bs@),
{
    let mut r: Vec<BufferAction> = Vec::new();
    let mut i: usize = 0;
    assert(bs@.subrange(0, 0) =~= Seq::<TaskBuffers>::empty());
    while i < bs.len()
        invariant
            i <= bs@.len(),
            r@ == spec_all_unmaps(bs@.subrange(0, i as int)),
        decreases bs@.len() - i,
    {
        assert(bs@.subrange(0, i + 1).drop_last() =~= bs@.subrange(0, i as int));
        let mut u = unmap_buffers_for(bs[i]);
        r.append(&mut u);
        i += 1;
    }
    assert(bs@.subrange(0, bs@.len() as int) =~= bs@);
    r
}

fn all_closes(bs: &Vec<TaskBuffers>, recording: bool) -> (r: Vec<BufferAction>)
    ensures
        r@ == spec_all_closes(bs@, recording),
{
    let mut r: Vec<BufferAction> = Vec::new();
    let mut i: usize = 0;
    assert(bs@.subrange(0, 0) =~= Seq::<TaskBuffers>::empty());
    while i < bs.len()
        invariant
            i <= bs@.len(),
            r@ == spec_all_closes(bs@.subrange(0, i as int), recording),
        decreases bs@.len() - i,
    {
        assert(bs@.subrange(0, i + 1).drop_last() =~= bs@.subrange(0, i as int));
        let mut c = close_buffers_for(bs[i].desched_fd_child, bs[i].cloned_file_data_fd_child, recording);
        r.append(&mut c);
        i += 1;
    }
    assert(bs@.subrange(0, bs@.len() as int) =~= bs@);
    r
}

/// Create the task for thread `new_tid`, cloned from `clone_this` for
/// `reason` with `flags`. `stack` and `tls` are the clone arguments.
/// `cloned_vm` and `cloned_tg` identify the address space and thread group
/// made for the new task when it does not share them. `vm_others` and
/// `fd_others` are the buffers of the other tasks of `clone_this`'s address
/// space and descriptor table. A clone for a tracee happens within one
/// session; a session copy (`cross_session`) goes into another.
#[verifier::rlimit(30)]
pub fn clone_task(
    clone_this: &Task,
    reason: CloneReason,
    flags: CloneFlags,
    stack: u64,
    tls: u64,
    new_tid: i32,
    new_rec_tid: i32,
    new_serial: u32,
    cloned_vm: AddressSpaceUid,
    cloned_tg: ThreadGroupUid,
    vm_others: &Vec<TaskBuffers>,
    fd_others: &Vec<TaskBuffers>,
    cross_session: bool,
    recording: bool,
) -> (r: (Task, ClonePlan))
    requires
        clone_this.inv(),
        (reason == CloneReason::TraceeClone) == !cross_session,
    ensures
        ({
            let (t, plan) = r;
            let tracee = reason == CloneReason::TraceeClone;
            &&& t.inv()
            &&& !t.is_stopped
            &&& t.tid == new_tid
            &&& t.rec_tid == if new_rec_tid > 0 {
                new_rec_tid
            } else {
                new_tid
            }
            &&& t.serial == new_serial
            &&& t.regs.arch == clone_this.regs.arch
            &&& t.vm == if flags.share_vm {
                clone_this.vm
            } else {
                cloned_vm
            }
            &&& t.tg == if flags.share_thread_group {
                clone_this.tg
            } else {
                cloned_tg
            }
            &&& t.syscallbuf_child == 0
            &&& t.syscallbuf_size == clone_this.syscallbuf_size
            &&& t.scratch_ptr == 0
            &&& t.desched_fd_child == -1
            &&& t.cloned_file_data_fd_child == -1
            &&& t.stopping_breakpoint_table == clone_this.stopping_breakpoint_table
            &&& t.stopping_breakpoint_table_entry_size
                == clone_this.stopping_breakpoint_table_entry_size
            &&& t.preload_globals == clone_this.preload_globals
            &&& t.seccomp_bpf_enabled == clone_this.seccomp_bpf_enabled
            &&& t.prname@ == clone_this.prname@
            &&& t.thread_areas@ == clone_this.thread_areas@
            &&& t.top_of_stack == stack
            &&& plan.remap_stack_at == if flags.share_vm && stack != 0 {
                Some(addr_sub(stack, 1))
            } else {
                None
            }
            &&& plan.set_thread_area_from == if flags.set_tls && clone_this.regs.arch
                == SupportedArch::X86 {
                Some(tls)
            } else {
                None
            }
            &&& plan.unmap_in_child@ == if tracee && !flags.share_vm {
                spec_all_unmaps(vm_others@)
            } else {
                Seq::empty()
            }
            &&& plan.did_fork_into == (tracee && !flags.share_vm)
            &&& plan.close_in_child@ == if tracee && !flags.share_files {
                spec_close_buffers(
                    clone_this.desched_fd_child,
                    clone_this.cloned_file_data_fd_child,
                    recording,
                ).add(spec_all_closes(fd_others@, recording))
            } else {
                Seq::empty()
            }
            &&& plan.copy_fd_table == !flags.share_files
            &&& plan.post_vm_clone == !flags.share_vm
            &&& plan.copy_preload_thread_locals == tracee
        }),
{
    let vm = if flags.share_vm { clone_this.vm } else { cloned_vm };
    let tg = if flags.share_thread_group { clone_this.tg } else { cloned_tg };
    let rec_tid = if new_rec_tid > 0 { new_rec_tid } else { new_tid };
    let mut t = Task::new(new_tid, rec_tid, new_serial, clone_this.arch(), vm, tg);
    t.syscallbuf_size = clone_this.syscallbuf_size;
    t.stopping_breakpoint_table = clone_this.stopping_breakpoint_table;
    t.stopping_breakpoint_table_entry_size = clone_this.stopping_breakpoint_table_entry_size;
    t.preload_globals = clone_this.preload_globals;
    t.seccomp_bpf_enabled = clone_this.seccomp_bpf_enabled;
    t.top_of_stack = stack;
    t.prname = clone_this.prname.clone();
    assert(t.prname@ =~= clone_this.prname@);
    t.thread_areas = clone_this.thread_areas.clone();
    assert(t.thread_areas@ =~= clone_this.thread_areas@);
    let tracee = reason == CloneReason::TraceeClone;
    let remap_stack_at = if flags.share_vm && stack != 0 {
        Some(remote_sub(stack, 1))
    } else {
        None
    };
    let set_thread_area_from = if flags.set_tls && clone_this.arch() == SupportedArch::X86 {
        Some(tls)
    } else {
        None
    };
    let unmap_in_child = if tracee && !flags.share_vm {
        all_unmaps(vm_others)
    } else {
        Vec::new()
    };
    let close_in_child = if tracee && !flags.share_files {
        let mut c = close_buffers_for(
            clone_this.desched_fd_child,
            clone_this.cloned_file_data_fd_child,
            recording,
        );
        let mut rest = all_closes(fd_others, recording);
        c.append(&mut rest);
        c
    } else {
        Vec::new()
    };
    assert(!(tracee && !flags.share_vm) ==> unmap_in_child@ =~= Seq::<BufferAction>::empty());
    assert(!(tracee && !flags.share_files) ==> close_in_child@ =~= Seq::<BufferAction>::empty());
    let plan = ClonePlan {
        remap_stack_at,
        set_thread_area_from,
        unmap_in_child,
        did_fork_into: tracee && !flags.share_vm,
        close_in_child,
        copy_fd_table: !flags.share_files,
        post_vm_clone: !flags.share_vm,
        copy_preload_thread_locals: tracee,
    };
    (t, plan)
}

/// What the destruction of a task leaves to do.
#[derive(Clone, Copy, Debug, PartialEq, Eq, Structural)]
pub struct DropPlan {
    /// Drop this syscall buffer from the address space's mappings: an
    /// unstable exit never tore it down.
    pub unmap_syscallbuf: Option<MemRange>,
    /// Reap the zombie of this thread group with waitpid.
    pub reap_tgid: Option<i32>,
}

/// Plan the destruction of `t` once it was detached. `tg_empty` tells
/// whether no other task of its thread group remains, `real_tgid` is the
/// group's process id: while recording, the last task of a group waits for
/// the group's zombie. A task that exited cleanly has seen its exit event
/// and had its buffers torn down; an unstable one may not have.
pub fn task_drop_plan(t: &Task, tg_empty: bool, recording: bool, real_tgid: i32) -> (p: DropPlan)
    requires
        t.unstable || (t.seen_ptrace_exit_event && t.syscallbuf_child == 0),
    ensures
        t.unstable ==> p == (DropPlan {
            unmap_syscallbuf: if t.syscallbuf_child != 0 {
                Some(MemRange { addr: t.syscallbuf_child, len: t.syscallbuf_size })
            } else {
                None
            },
            reap_tgid: None,
        }),
        !t.unstable ==> p == (DropPlan {
            unmap_syscallbuf: None,
            reap_tgid: if tg_empty && recording {
                Some(real_tgid)
            } else {
                None
            },
        }),
{
    if t.unstable {
        DropPlan {
            unmap_syscallbuf: if t.syscallbuf_child != 0 {
                Some(MemRange { addr: t.syscallbuf_child, len: t.syscallbuf_size })
            } else {
                None
            },
            reap_tgid: None,
        }
    } else {
        DropPlan {
            unmap_syscallbuf: None,
            reap_tgid: if tg_empty && recording { Some(real_tgid) } else { None },
        }
    }
}

impl Task {
    /// Record what the preload library reported at initialisation: the
    /// address of its globals and of its table of stopping breakpoints. Every
    /// task of the address space gets the same values.
    pub fn set_preload_init(&mut self, globals: u64, table: u64, entry_size: u64)
        requires
            old(self).inv(),
        ensures
            final(self).inv(),
            *final(self) == (Task {
                preload_globals: Some(globals),
                stopping_breakpoint_table: table,
                stopping_breakpoint_table_entry_size: entry_size,
                ..*old(self)
            }),
    {
        self.preload_globals = Some(globals);
        self.stopping_breakpoint_table = table;
        self.stopping_breakpoint_table_entry_size = entry_size;
    }
}

/// Space a syscall-buffer record of `length` bytes takes: rounded up to a
/// multiple of 8.
pub fn stored_record_size(length: u32) -> (n: u32)
    requires
        length <= u32::MAX - 7,
    ensures
        n % 8 == 0,
        length <= n < length + 8,
{
    (length + 7) / 8 * 8
}

} // verus!
