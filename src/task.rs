//! One traced thread: its cached registers, wait status and tick count, and
//! the protocol by which it is resumed and its stops are absorbed.
//!
//! A resume goes through `prepare_resume`, `note_cpuid_breakpoint`,
//! `take_dirty_regs` and `complete_resume`; the caller performs the ptrace
//! requests in between. A stop reported by waitpid is absorbed by
//! `did_waitpid`, which needs the facts listed in [`StopReport`].

use vstd::prelude::*;
use crate::kernel::{
    addr_add, remote_add, spec_arch_for_access_rights, arch_for_access_rights, SupportedArch,
    MAX_TICKS_REQUEST, PAGE_SIZE, POLL_IN, PTRACE_EVENT_EXIT, SIGSTOP, SIGTRAP,
    SINGLE_STEP_COALESCE_CUTOFF, TIME_SLICE_SIGNAL, X86_TF_FLAG,
};
use crate::registers::{view_value, view_with, Reg, Registers, NATIVE_WORDS};
use crate::wait_status::{decode, WaitKind, WaitStatus};

verus! {

/// An instruction whose single-step needs special handling.
#[derive(Clone, Copy, Debug, PartialEq, Eq, Structural)]
pub enum TrappedInstruction {
    NoTrap,
    CpuId,
    Int3,
    Pushf,
    Pushf16,
    /// A (possibly `rep`-prefixed) string instruction.
    String,
}

/// Length in bytes of a trapped instruction (zero for those without one fixed length).
pub open spec fn spec_trapped_instruction_len(ti: TrappedInstruction) -> u64 {
    match ti {
        TrappedInstruction::CpuId => 2,
        TrappedInstruction::Int3 => 1,
        TrappedInstruction::Pushf => 1,
        TrappedInstruction::Pushf16 => 2,
        _ => 0,
    }
}

pub fn trapped_instruction_len(ti: TrappedInstruction) -> (n: u64)
    ensures
        n == spec_trapped_instruction_len(ti),
{
    match ti {
        TrappedInstruction::CpuId => 2,
        TrappedInstruction::Int3 => 1,
        TrappedInstruction::Pushf => 1,
        TrappedInstruction::Pushf16 => 2,
        _ => 0,
    }
}

/// Length of the breakpoint instruction (`int3`).
pub const BKPT_INSN_LEN: u64 = 1;

pub open spec fn is_string_opcode(b: u8) -> bool {
    0xa4 <= b <= 0xa7 || 0xaa <= b <= 0xaf
}

/// The trapped instruction that the code bytes `b` (read at the instruction
/// pointer) begin with.
pub open spec fn spec_trapped_instruction_at(b: Seq<u8>) -> TrappedInstruction {
    if b.len() >= 2 && b[0] == 0x0f && b[1] == 0xa2 {
        TrappedInstruction::CpuId
    } else if b.len() >= 1 && b[0] == 0xcc {
        TrappedInstruction::Int3
    } else if b.len() >= 1 && b[0] == 0x9c {
        TrappedInstruction::Pushf
    } else if b.len() >= 2 && b[0] == 0x66 && b[1] == 0x9c {
        TrappedInstruction::Pushf16
    } else if b.len() >= 1 && is_string_opcode(b[0]) {
        TrappedInstruction::String
    } else if b.len() >= 2 && (b[0] == 0xf2 || b[0] == 0xf3) && is_string_opcode(b[1]) {
        TrappedInstruction::String
    } else {
        TrappedInstruction::NoTrap
    }
}

pub fn trapped_instruction_at(b: &Vec<u8>) -> (ti: TrappedInstruction)
    ensures
        ti == spec_trapped_instruction_at(b@),
{
    let n = b.len();
    if n >= 2 && b[0] == 0x0f && b[1] == 0xa2 {
        TrappedInstruction::CpuId
    } else if n >= 1 && b[0] == 0xcc {
        TrappedInstruction::Int3
    } else if n >= 1 && b[0] == 0x9c {
        TrappedInstruction::Pushf
    } else if n >= 2 && b[0] == 0x66 && b[1] == 0x9c {
        TrappedInstruction::Pushf16
    } else if n >= 1 && ((0xa4 <= b[0] && b[0] <= 0xa7) || (0xaa <= b[0] && b[0] <= 0xaf)) {
        TrappedInstruction::String
    } else if n >= 2 && (b[0] == 0xf2 || b[0] == 0xf3) && ((0xa4 <= b[1] && b[1] <= 0xa7) || (0xaa
        <= b[1] && b[1] <= 0xaf)) {
        TrappedInstruction::String
    } else {
        TrappedInstruction::NoTrap
    }
}

/// How a tracee is resumed (the ptrace request used).
#[derive(Clone, Copy, Debug, PartialEq, Eq, Structural)]
pub enum ResumeRequest {
    Cont,
    Singlestep,
    Syscall,
    Sysemu,
    SysemuSinglestep,
}

pub open spec fn spec_is_singlestep_resume(how: ResumeRequest) -> bool {
    how == ResumeRequest::Singlestep || how == ResumeRequest::SysemuSinglestep
}

pub fn is_singlestep_resume(how: ResumeRequest) -> (b: bool)
    ensures
        b == spec_is_singlestep_resume(how),
{
    how == ResumeRequest::Singlestep || how == ResumeRequest::SysemuSinglestep
}

/// The ptrace request number of a resume.
pub fn ptrace_request_of(how: ResumeRequest) -> (r: u32)
    ensures
        how == ResumeRequest::Cont ==> r == 7,
        how == ResumeRequest::Singlestep ==> r == 9,
        how == ResumeRequest::Syscall ==> r == 24,
        how == ResumeRequest::Sysemu ==> r == 31,
        how == ResumeRequest::SysemuSinglestep ==> r == 32,
{
    match how {
        ResumeRequest::Cont => 7,
        ResumeRequest::Singlestep => 9,
        ResumeRequest::Syscall => 24,
        ResumeRequest::Sysemu => 31,
        ResumeRequest::SysemuSinglestep => 32,
    }
}

/// Whether the resuming call waits for the next stop.
#[derive(Clone, Copy, Debug, PartialEq, Eq, Structural)]
pub enum WaitRequest {
    ResumeWait,
    ResumeNonblocking,
}

/// How the tick counter is armed for a resume.
#[derive(Clone, Copy, Debug, PartialEq, Eq, Structural)]
pub enum TicksRequest {
    /// Leave the counter off.
    ResumeNoTicks,
    /// Count without a budget.
    ResumeUnlimitedTicks,
    /// Interrupt the tracee after this many ticks.
    ResumeWithTicksRequest(u64),
}

impl TicksRequest {
    /// A tick budget must lie in `1..=MAX_TICKS_REQUEST`.
    pub open spec fn spec_valid(&self) -> bool {
        match *self {
            TicksRequest::ResumeWithTicksRequest(k) => 1 <= k <= MAX_TICKS_REQUEST,
            _ => true,
        }
    }

    pub fn is_valid(&self) -> (b: bool)
        ensures
            b == self.spec_valid(),
    {
        match *self {
            TicksRequest::ResumeWithTicksRequest(k) => 1 <= k && k <= MAX_TICKS_REQUEST,
            _ => true,
        }
    }

    /// The period to program into the counter: none, zero for an unlimited
    /// budget, or the budget.
    pub fn counter_period(&self) -> (p: Option<u64>)
        requires
            self.spec_valid(),
        ensures
            *self == TicksRequest::ResumeNoTicks ==> p is None,
            *self == TicksRequest::ResumeUnlimitedTicks ==> p == Some(0u64),
            forall|k: u64| *self == TicksRequest::ResumeWithTicksRequest(k) ==> p == Some(k),
    {
        match *self {
            TicksRequest::ResumeNoTicks => None,
            TicksRequest::ResumeUnlimitedTicks => Some(0),
            TicksRequest::ResumeWithTicksRequest(k) => Some(k),
        }
    }
}

/// The fields of a `siginfo_t` the core reads or writes.
#[derive(Clone, Copy, Debug, PartialEq, Eq, Structural)]
pub struct SigInfo {
    pub signo: i32,
    pub code: i32,
    /// `si_fd` of a SIGPOLL-style signal.
    pub fd: i32,
}

impl SigInfo {
    pub open spec fn spec_zeroed() -> SigInfo {
        SigInfo { signo: 0, code: 0, fd: 0 }
    }

    pub fn zeroed() -> (s: SigInfo)
        ensures
            s == Self::spec_zeroed(),
    {
        SigInfo { signo: 0, code: 0, fd: 0 }
    }
}

/// A `struct user_desc` (a thread-local-storage segment descriptor).
#[derive(Clone, Copy, Debug, PartialEq, Eq, Structural)]
pub struct UserDesc {
    pub entry_number: u32,
    pub base_addr: u32,
    pub limit: u32,
    pub flags: u32,
}

/// Identity of an address space: the task that created it, and how many
/// execs that task has done.
#[derive(Clone, Copy, Debug, PartialEq, Eq, Structural)]
pub struct AddressSpaceUid {
    pub tid: i32,
    pub serial: u32,
    pub exec_count: u32,
}

/// Identity of a thread group: the task that created it.
#[derive(Clone, Copy, Debug, PartialEq, Eq, Structural)]
pub struct ThreadGroupUid {
    pub tid: i32,
    pub serial: u32,
}

/// `v` with the trap flag cleared and, when `orig_cx` is not zero, `cx`
/// restored from the value it was lowered from.
pub open spec fn fixed_cx_view(v: (SupportedArch, Seq<u64>), orig_cx: u64) -> (SupportedArch, Seq<u64>) {
    let v1 = view_with(v, Reg::Flags, view_value(v, Reg::Flags) & !X86_TF_FLAG);
    if orig_cx != 0 {
        view_with(
            v1,
            Reg::Cx,
            (orig_cx - SINGLE_STEP_COALESCE_CUTOFF + view_value(v1, Reg::Cx)) as u64,
        )
    } else {
        v1
    }
}

/// `v` with `ip` moved back to `bkpt` when it stopped just past the
/// breakpoint there.
pub open spec fn fixed_ip_view(v: (SupportedArch, Seq<u64>), armed: bool, bkpt: u64) -> (SupportedArch, Seq<u64>) {
    if armed && view_value(v, Reg::Ip) == addr_add(bkpt, BKPT_INSN_LEN) {
        view_with(v, Reg::Ip, bkpt)
    } else {
        v
    }
}

/// Clear the trap flag of `regs` and restore `cx` from `orig_cx` when it is
/// not zero. Returns whether anything changed.
fn fix_flags_and_cx(regs: &mut Registers, orig_cx: u64) -> (changed: bool)
    requires
        old(regs).wf(),
        orig_cx == 0 || orig_cx > SINGLE_STEP_COALESCE_CUTOFF,
        orig_cx != 0 ==> view_value(old(regs)@, Reg::Cx) <= SINGLE_STEP_COALESCE_CUTOFF,
    ensures
        final(regs).wf(),
        final(regs).arch == old(regs).arch,
        final(regs)@ == fixed_cx_view(old(regs)@, orig_cx),
        changed == (view_value(old(regs)@, Reg::Flags) & X86_TF_FLAG != 0 || orig_cx != 0),
{
    let changed_flags = regs.singlestep_flag();
    regs.clear_singlestep_flag();
    if orig_cx != 0 {
        let new_cx = regs.cx();
        regs.set(Reg::Cx, orig_cx - SINGLE_STEP_COALESCE_CUTOFF + new_cx);
    }
    changed_flags || orig_cx != 0
}

/// Move `ip` back to `bkpt` if the thread stopped just past the breakpoint
/// there. Returns whether it moved.
fn fix_ip_after_bkpt(regs: &mut Registers, bkpt: u64) -> (moved: bool)
    requires
        old(regs).wf(),
    ensures
        final(regs).wf(),
        final(regs)@ == fixed_ip_view(old(regs)@, true, bkpt),
        moved == (view_value(old(regs)@, Reg::Ip) == addr_add(bkpt, BKPT_INSN_LEN)),
{
    if regs.ip() == remote_add(bkpt, BKPT_INSN_LEN) {
        regs.set(Reg::Ip, bkpt);
        true
    } else {
        false
    }
}

/// One traced thread.
pub struct Task {
    pub tid: i32,
    pub rec_tid: i32,
    pub serial: u32,
    /// True while the tracer holds the thread in a ptrace-stop.
    pub is_stopped: bool,
    /// The cached registers differ from the kernel's and must be written back.
    pub registers_dirty: bool,
    pub regs: Registers,
    /// Whether the cached floating-point/extended registers are current.
    pub extra_registers_valid: bool,
    pub wait_status: WaitStatus,
    pub ticks: u64,
    pub pending_siginfo: SigInfo,
    /// Number of upcoming stops that may be the group stop a
    /// PTRACE_INTERRUPT induces.
    pub expecting_ptrace_interrupt_stop: u32,
    pub address_of_last_execution_resume: u64,
    pub how_last_execution_resumed: ResumeRequest,
    pub singlestepping_instruction: TrappedInstruction,
    /// `cx` before it was lowered for a string-instruction single-step, or zero.
    pub last_resume_orig_cx: u64,
    pub did_set_breakpoint_after_cpuid: bool,
    pub detected_unexpected_exit: bool,
    pub seen_ptrace_exit_event: bool,
    pub seccomp_bpf_enabled: bool,
    pub unstable: bool,
    pub syscallbuf_child: u64,
    pub syscallbuf_size: u64,
    pub scratch_ptr: u64,
    pub scratch_size: u64,
    pub desched_fd_child: i32,
    pub cloned_file_data_fd_child: i32,
    pub preload_globals: Option<u64>,
    pub stopping_breakpoint_table: u64,
    pub stopping_breakpoint_table_entry_size: u64,
    pub top_of_stack: u64,
    pub prname: Vec<u8>,
    /// Thread-local-storage descriptors installed with set_thread_area.
    pub thread_areas: Vec<UserDesc>,
    pub vm: AddressSpaceUid,
    pub tg: ThreadGroupUid,
    /// Number of resumes so far.
    pub resumes: Ghost<nat>,
    /// Number of stops absorbed so far.
    pub waits: Ghost<nat>,
}

/// Actions the caller performs after a stop has been absorbed.
#[derive(Clone, Copy, Debug, PartialEq, Eq, Structural)]
pub struct PostStopActions {
    /// Tell the scheduler to end the current time slice.
    pub expire_timeslice: bool,
    /// Remove the internal breakpoint set after a CPUID at this address.
    pub remove_breakpoint: Option<u64>,
    /// Clear the trap flag in the 16-bit word at this stack address.
    pub scrub_trap_flag_at: Option<u64>,
    /// Bring the registers to the canonical form used inside the rd page.
    pub canonicalize_regs: bool,
    /// Ticks to add to the session's statistics (the counter is stopped).
    pub accumulate_ticks: u64,
}

/// What the caller learned from the kernel about a stop, gathered before
/// `did_waitpid`.
pub struct StopReport {
    /// Result of PTRACE_GETSIGINFO when `needs_siginfo` asked for it; `None`
    /// when the thread had vanished.
    pub siginfo: Option<SigInfo>,
    /// The native register words from PTRACE_GETREGS; `None` when the
    /// thread had vanished.
    pub native_regs: Option<Vec<u64>>,
    /// Access rights of the `cs` selector in `native_regs`, as `lar` reports them.
    pub cs_access_rights: u32,
    /// Descriptor of the tick counter's interrupt signal.
    pub ticks_interrupt_fd: i32,
    /// Ticks counted since the counter was last read.
    pub more_ticks: u64,
    /// Whether a breakpoint is set at the address the thread was last resumed at.
    pub breakpoint_at_resume: bool,
    /// First address of the rd page.
    pub rd_page_start: u64,
}

/// What a resume asks the caller to do before flushing registers.
#[derive(Clone, Copy, Debug, PartialEq, Eq, Structural)]
pub struct ResumePlan {
    /// Program the tick counter with this period (zero: unlimited), and
    /// activate the preload thread locals; `None`: leave it off.
    pub arm_ticks: Option<u64>,
    /// Insert an internal breakpoint here, then report with `note_cpuid_breakpoint`.
    pub add_breakpoint_at: Option<u64>,
}

/// A group-stop signal that a PTRACE_INTERRUPT may have caused.
pub open spec fn spec_is_signal_triggered_by_ptrace_interrupt(sig: u32) -> bool {
    sig == SIGTRAP as u32 || sig == SIGSTOP as u32
}

pub fn is_signal_triggered_by_ptrace_interrupt(sig: u32) -> (b: bool)
    ensures
        b == spec_is_signal_triggered_by_ptrace_interrupt(sig),
{
    sig == SIGTRAP as u32 || sig == SIGSTOP as u32
}

/// Status that stands for a stop caused by the tick counter's signal.
pub open spec fn time_slice_status() -> WaitStatus {
    WaitStatus { raw: 0x107fu32 }
}

/// Status that stands for a thread that vanished.
pub open spec fn exit_event_status() -> WaitStatus {
    WaitStatus { raw: 0x6057fu32 }
}

pub open spec fn is_exit_event(s: WaitStatus) -> bool {
    decode(s.raw) == Some(WaitKind::PtraceEvent(PTRACE_EVENT_EXIT as u32))
}

/// Whether the race probe's waitpid(WNOHANG) result says the thread exited
/// before it could be resumed.
pub fn probe_found_exit(wait_ret: i32, tid: i32, status: WaitStatus) -> (exited: bool)
    requires
        wait_ret == 0 || wait_ret == tid,
        tid > 0,
        wait_ret == tid ==> (is_exit_event(status) || status.spec_fatal_sig() == 9),
    ensures
        exited == (wait_ret == tid),
{
    wait_ret > 0
}

impl Task {
    /// Internal consistency of a task.
    pub open spec fn inv(&self) -> bool {
        &&& self.regs.wf()
        &&& self.registers_dirty ==> self.is_stopped
        &&& self.expecting_ptrace_interrupt_stop <= 2
        &&& self.last_resume_orig_cx == 0 || self.last_resume_orig_cx > SINGLE_STEP_COALESCE_CUTOFF
        &&& self.is_stopped ==> self.waits@ == self.resumes@ + 1
        &&& !self.is_stopped ==> self.waits@ == self.resumes@
    }

    /// A new task for thread `tid`, not yet stopped: its first stop is still
    /// to be absorbed.
    pub fn new(tid: i32, rec_tid: i32, serial: u32, arch: SupportedArch, vm: AddressSpaceUid, tg: ThreadGroupUid) -> (t: Task)
        ensures
            t.inv(),
            !t.is_stopped,
            !t.registers_dirty,
            t.tid == tid,
            t.rec_tid == rec_tid,
            t.serial == serial,
            t.regs.arch == arch,
            t.ticks == 0,
            t.vm == vm,
            t.tg == tg,
            t.syscallbuf_child == 0,
            t.scratch_ptr == 0,
            t.desched_fd_child == -1,
            t.cloned_file_data_fd_child == -1,
            t.last_resume_orig_cx == 0,
            t.expecting_ptrace_interrupt_stop == 0,
            t.singlestepping_instruction == TrappedInstruction::NoTrap,
            !t.did_set_breakpoint_after_cpuid,
            !t.unstable,
            t.resumes@ == 0,
            t.waits@ == 0,
    {
        Task {
            tid,
            rec_tid,
            serial,
            is_stopped: false,
            registers_dirty: false,
            regs: Registers::new(arch),
            extra_registers_valid: false,
            wait_status: WaitStatus { raw: 0 },
            ticks: 0,
            pending_siginfo: SigInfo::zeroed(),
            expecting_ptrace_interrupt_stop: 0,
            address_of_last_execution_resume: 0,
            how_last_execution_resumed: ResumeRequest::Cont,
            singlestepping_instruction: TrappedInstruction::NoTrap,
            last_resume_orig_cx: 0,
            did_set_breakpoint_after_cpuid: false,
            detected_unexpected_exit: false,
            seen_ptrace_exit_event: false,
            seccomp_bpf_enabled: false,
            unstable: false,
            syscallbuf_child: 0,
            syscallbuf_size: 0,
            scratch_ptr: 0,
            scratch_size: 0,
            desched_fd_child: -1,
            cloned_file_data_fd_child: -1,
            preload_globals: None,
            stopping_breakpoint_table: 0,
            stopping_breakpoint_table_entry_size: 0,
            top_of_stack: 0,
            prname: Vec::new(),
            thread_areas: Vec::new(),
            vm,
            tg,
            resumes: Ghost(0),
            waits: Ghost(0),
        }
    }

    pub fn arch(&self) -> (a: SupportedArch)
        ensures
            a == self.regs.arch,
    {
        self.regs.arch
    }

    pub fn ip(&self) -> (v: u64)
        requires
            self.regs.wf(),
        ensures
            v == self.regs.value(Reg::Ip),
    {
        self.regs.ip()
    }

    /// The task with its registers replaced by `r`, to be written back.
    pub open spec fn with_regs(self, r: Registers) -> Task {
        Task { regs: r, registers_dirty: true, ..self }
    }

    /// Replace the cached registers; they will be written back before the
    /// thread runs again.
    pub fn set_regs(&mut self, r: Registers)
        requires
            old(self).inv(),
            old(self).is_stopped,
            r.wf(),
        ensures
            final(self).inv(),
            *final(self) == old(self).with_regs(r),
    {
        self.regs = r;
        self.registers_dirty = true;
    }

    /// An independent copy of the cached registers.
    pub fn regs_snapshot(&self) -> (r: Registers)
        ensures
            r@ == self.regs@,
            r.arch == self.regs.arch,
            r.words@ == self.regs.words@,
    {
        self.regs.snapshot()
    }

    /// Hand out the registers to write back, if they changed; afterwards they
    /// are clean.
    pub fn take_dirty_regs(&mut self) -> (r: Option<Registers>)
        requires
            old(self).inv(),
        ensures
            final(self).inv(),
            *final(self) == (Task { registers_dirty: false, ..*old(self) }),
            r is Some == old(self).registers_dirty,
            r is Some ==> r->0@ == old(self).regs@,
    {
        if self.registers_dirty {
            self.registers_dirty = false;
            Some(self.regs.snapshot())
        } else {
            None
        }
    }

    /// On a processor that may run several iterations of a single-stepped
    /// string instruction, lower `cx` to the cutoff so that one step runs one
    /// iteration, remembering the original value.
    pub fn work_around_knl_string_singlestep_bug(&mut self, knl_bug: bool, at_string_insn: bool)
        requires
            old(self).inv(),
            old(self).is_stopped,
        ensures
            final(self).inv(),
            (knl_bug && at_string_insn && old(self).regs.value(Reg::Cx)
                > SINGLE_STEP_COALESCE_CUTOFF) ==> *final(self) == (Task {
                last_resume_orig_cx: old(self).regs.value(Reg::Cx),
                regs: Registers {
                    words: final(self).regs.words,
                    ..old(self).regs
                },
                registers_dirty: true,
                ..*old(self)
            }) && final(self).regs.words@ == old(self).regs.words_with(
                Reg::Cx,
                SINGLE_STEP_COALESCE_CUTOFF,
            ),
            !(knl_bug && at_string_insn && old(self).regs.value(Reg::Cx)
                > SINGLE_STEP_COALESCE_CUTOFF) ==> *final(self) == *old(self),
    {
        let cx = self.regs.cx();
        if knl_bug && cx > SINGLE_STEP_COALESCE_CUTOFF && at_string_insn {
            self.last_resume_orig_cx = cx;
            self.regs.set(Reg::Cx, SINGLE_STEP_COALESCE_CUTOFF);
            self.registers_dirty = true;
        }
    }

    /// First part of a resume: record where and how the thread resumes, apply
    /// the single-step workarounds, and say how to arm the tick counter and
    /// where to put a breakpoint after a CPUID. `insn_at_ip` is the trapped
    /// instruction at the current instruction pointer; `knl_bug` tells whether
    /// the processor coalesces string-instruction steps.
    #[verifier::rlimit(30)]
    pub fn prepare_resume(
        &mut self,
        how: ResumeRequest,
        tick_period: TicksRequest,
        insn_at_ip: TrappedInstruction,
        knl_bug: bool,
    ) -> (plan: ResumePlan)
        requires
            old(self).inv(),
            old(self).is_stopped,
            tick_period.spec_valid(),
        ensures
            final(self).inv(),
            final(self).is_stopped,
            final(self).resumes == old(self).resumes,
            final(self).waits == old(self).waits,
            *final(self) == (Task {
                address_of_last_execution_resume: old(self).regs.value(Reg::Ip),
                how_last_execution_resumed: how,
                singlestepping_instruction: final(self).singlestepping_instruction,
                last_resume_orig_cx: final(self).last_resume_orig_cx,
                regs: final(self).regs,
                registers_dirty: final(self).registers_dirty,
                ..*old(self)
            }),
            final(self).address_of_last_execution_resume == old(self).regs.value(Reg::Ip),
            final(self).how_last_execution_resumed == how,
            final(self).regs.value(Reg::Ip) == old(self).regs.value(Reg::Ip),
            tick_period == TicksRequest::ResumeNoTicks ==> plan.arm_ticks is None,
            tick_period == TicksRequest::ResumeUnlimitedTicks ==> plan.arm_ticks == Some(0u64),
            forall|k: u64|
                tick_period == TicksRequest::ResumeWithTicksRequest(k) ==> plan.arm_ticks == Some(
                    k,
                ),
            spec_is_singlestep_resume(how) ==> final(self).singlestepping_instruction
                == insn_at_ip,
            !spec_is_singlestep_resume(how) ==> final(self).singlestepping_instruction == old(self).singlestepping_instruction,
            (spec_is_singlestep_resume(how) && insn_at_ip == TrappedInstruction::CpuId)
                ==> plan.add_breakpoint_at == Some(addr_add(old(self).regs.value(Reg::Ip), 2)),
            !(spec_is_singlestep_resume(how) && insn_at_ip == TrappedInstruction::CpuId)
                ==> plan.add_breakpoint_at is None,
            (spec_is_singlestep_resume(how) && knl_bug && insn_at_ip == TrappedInstruction::String
                && old(self).regs.value(Reg::Cx) > SINGLE_STEP_COALESCE_CUTOFF) ==> final(self).last_resume_orig_cx == old(self).regs.value(Reg::Cx) && final(self).regs.value(
                Reg::Cx,
            ) == SINGLE_STEP_COALESCE_CUTOFF && final(self).registers_dirty,
            !(spec_is_singlestep_resume(how) && knl_bug && insn_at_ip == TrappedInstruction::String
                && old(self).regs.value(Reg::Cx) > SINGLE_STEP_COALESCE_CUTOFF) ==> final(self).regs == old(self).regs && final(self).last_resume_orig_cx == old(self).last_resume_orig_cx && final(self).registers_dirty == old(self).registers_dirty,
    {
        let arm_ticks = tick_period.counter_period();
        let ip = self.regs.ip();
        self.address_of_last_execution_resume = ip;
        self.how_last_execution_resumed = how;
        let mut add_breakpoint_at: Option<u64> = None;
        if is_singlestep_resume(how) {
            self.work_around_knl_string_singlestep_bug(
                knl_bug,
                insn_at_ip == TrappedInstruction::String,
            );
            self.singlestepping_instruction = insn_at_ip;
            if insn_at_ip == TrappedInstruction::CpuId {
                add_breakpoint_at = Some(remote_add(ip, trapped_instruction_len(insn_at_ip)));
            }
        }
        ResumePlan { arm_ticks, add_breakpoint_at }
    }

    /// Record whether the breakpoint after a single-stepped CPUID was inserted.
    pub fn note_cpuid_breakpoint(&mut self, added: bool)
        requires
            old(self).inv(),
        ensures
            final(self).inv(),
            *final(self) == (Task { did_set_breakpoint_after_cpuid: added, ..*old(self) }),
    {
        self.did_set_breakpoint_after_cpuid = added;
    }

    /// Last part of a resume, once dirty registers were written back:
    /// `unexpected_exit` is what the race probe found. Returns whether the
    /// caller must now issue the resuming ptrace request; either way the
    /// thread no longer counts as stopped and the next stop must be absorbed
    /// by `did_waitpid`.
    pub fn complete_resume(&mut self, unexpected_exit: bool) -> (issue_request: bool)
        requires
            old(self).inv(),
            old(self).is_stopped,
            !old(self).registers_dirty,
        ensures
            final(self).inv(),
            issue_request == !unexpected_exit,
            *final(self) == (Task {
                is_stopped: false,
                extra_registers_valid: false,
                detected_unexpected_exit: old(self).detected_unexpected_exit || unexpected_exit,
                resumes: Ghost(old(self).resumes@ + 1),
                ..*old(self)
            }),
    {
        if unexpected_exit {
            self.detected_unexpected_exit = true;
        }
        self.is_stopped = false;
        self.extra_registers_valid = false;
        self.resumes = Ghost(self.resumes@ + 1);
        !unexpected_exit
    }

    /// The status a stop reported as `status` stands for once a possible
    /// PTRACE_INTERRUPT group stop is accounted for, and whether it was one.
    pub open spec fn spec_interrupt_status(&self, status: WaitStatus) -> (WaitStatus, bool) {
        if self.expecting_ptrace_interrupt_stop > 0
            && spec_is_signal_triggered_by_ptrace_interrupt(status.spec_group_stop_sig()) {
            (time_slice_status(), true)
        } else {
            (status, false)
        }
    }

    /// Whether absorbing `status` needs the stop's siginfo.
    pub open spec fn spec_needs_siginfo(&self, status: WaitStatus) -> bool {
        let (s, overridden) = self.spec_interrupt_status(status);
        !overridden && s.spec_stop_sig() != 0
    }

    pub fn needs_siginfo(&self, status: WaitStatus) -> (b: bool)
        ensures
            b == self.spec_needs_siginfo(status),
    {
        if self.expecting_ptrace_interrupt_stop > 0 && is_signal_triggered_by_ptrace_interrupt(
            status.maybe_group_stop_sig(),
        ) {
            false
        } else {
            status.maybe_stop_sig() != 0
        }
    }

    /// The registers after a stop: read afresh under the architecture the
    /// code segment says, or the cached ones if the thread vanished.
    pub open spec fn spec_refreshed(&self, report: &StopReport) -> (SupportedArch, Seq<u64>) {
        match report.native_regs {
            Some(n) => {
                let a = spec_arch_for_access_rights(report.cs_access_rights);
                (a, Registers::spec_from_native(a, n@))
            },
            None => self.regs@,
        }
    }

    /// Where the breakpoint after a single-stepped CPUID was placed.
    pub open spec fn spec_cpuid_bkpt(&self) -> u64 {
        addr_add(
            self.address_of_last_execution_resume,
            spec_trapped_instruction_len(self.singlestepping_instruction),
        )
    }

    /// Registers after the stop, with the trap flag cleared and the lowered
    /// `cx` of a string-instruction step undone.
    pub open spec fn spec_fixed_cx(&self, report: &StopReport) -> (SupportedArch, Seq<u64>) {
        fixed_cx_view(self.spec_refreshed(report), self.last_resume_orig_cx)
    }

    /// Whether the thread stopped on the breakpoint placed after a CPUID.
    pub open spec fn spec_at_cpuid_bkpt(&self, report: &StopReport) -> bool {
        self.did_set_breakpoint_after_cpuid && view_value(self.spec_fixed_cx(report), Reg::Ip)
            == addr_add(self.spec_cpuid_bkpt(), BKPT_INSN_LEN)
    }

    /// Registers after moving `ip` back from a post-CPUID breakpoint.
    pub open spec fn spec_fixed_ip(&self, report: &StopReport) -> (SupportedArch, Seq<u64>) {
        fixed_ip_view(
            self.spec_fixed_cx(report),
            self.did_set_breakpoint_after_cpuid,
            self.spec_cpuid_bkpt(),
        )
    }

    /// Whether the thread stopped right after resuming onto a breakpoint,
    /// which resets the original syscall number.
    pub open spec fn spec_restores_orig_syscallno(&self, st: WaitStatus, report: &StopReport) -> bool {
        &&& report.breakpoint_at_resume
        &&& st.spec_stop_sig() == SIGTRAP as u32
        &&& st.spec_ptrace_event() == 0
        &&& view_value(self.spec_fixed_ip(report), Reg::Ip) == addr_add(
            self.address_of_last_execution_resume,
            BKPT_INSN_LEN,
        )
    }

    /// Registers once every post-stop fixup is applied.
    pub open spec fn spec_fixed(&self, st: WaitStatus, report: &StopReport) -> (SupportedArch, Seq<u64>) {
        if self.spec_restores_orig_syscallno(st, report) {
            view_with(
                self.spec_fixed_ip(report),
                Reg::OrigSyscallNo,
                self.regs.value(Reg::OrigSyscallNo),
            )
        } else {
            self.spec_fixed_ip(report)
        }
    }

    /// Whether the thread single-stepped a `pushf`, leaving the trap flag in
    /// the pushed flags.
    pub open spec fn spec_stepped_pushf(&self, report: &StopReport) -> bool {
        (self.singlestepping_instruction == TrappedInstruction::Pushf
            || self.singlestepping_instruction == TrappedInstruction::Pushf16) && view_value(
            self.spec_fixed_ip(report),
            Reg::Ip,
        ) == addr_add(
            self.address_of_last_execution_resume,
            spec_trapped_instruction_len(self.singlestepping_instruction),
        )
    }

    /// The status a stop is recorded with.
    pub open spec fn spec_stop_status(&self, status: WaitStatus, report: &StopReport) -> WaitStatus {
        let (s, _) = self.spec_interrupt_status(status);
        if self.spec_needs_siginfo(status) && report.siginfo is None {
            exit_event_status()
        } else if report.native_regs is None {
            exit_event_status()
        } else {
            s
        }
    }
    /// The siginfo a stop leaves pending.
    pub open spec fn spec_stop_siginfo(&self, status: WaitStatus, report: &StopReport) -> SigInfo {
        if self.spec_interrupt_status(status).1 {
            SigInfo { signo: TIME_SLICE_SIGNAL, code: POLL_IN, fd: report.ticks_interrupt_fd }
        } else if self.spec_needs_siginfo(status) {
            match report.siginfo {
                Some(si) => si,
                None => SigInfo::spec_zeroed(),
            }
        } else {
            self.pending_siginfo
        }
    }

    /// Absorb the stop that waitpid reported as `status`, with the facts in
    /// `report`: account for a PTRACE_INTERRUPT group stop, take the siginfo,
    /// refresh the registers under the architecture the code segment says,
    /// add the ticks, and undo what the last resume's workarounds left
    /// behind. Returns what the caller must still do.
    #[verifier::rlimit(40)]
    pub fn did_waitpid(&mut self, status: WaitStatus, report: StopReport) -> (actions:
        PostStopActions)
        requires
            old(self).inv(),
            !old(self).is_stopped,
            report.native_regs is Some ==> report.native_regs->0@.len() == NATIVE_WORDS,
            old(self).ticks + report.more_ticks <= u64::MAX,
            old(self).last_resume_orig_cx != 0 && !is_exit_event(
                old(self).spec_stop_status(status, &report),
            ) ==> ({
                let c = view_value(old(self).spec_refreshed(&report), Reg::Cx);
                c == SINGLE_STEP_COALESCE_CUTOFF - 1 || c == SINGLE_STEP_COALESCE_CUTOFF
            }),
            old(self).spec_restores_orig_syscallno(old(self).spec_stop_status(status, &report), &report)
                ==> report.more_ticks == 0,
        ensures
            final(self).inv(),
            final(self).is_stopped,
            final(self).waits@ == old(self).waits@ + 1,
            actions.accumulate_ticks == report.more_ticks,
            final(self).resumes == old(self).resumes,
            *final(self) == (Task {
                is_stopped: true,
                wait_status: final(self).wait_status,
                ticks: final(self).ticks,
                waits: final(self).waits,
                pending_siginfo: final(self).pending_siginfo,
                expecting_ptrace_interrupt_stop: final(self).expecting_ptrace_interrupt_stop,
                regs: final(self).regs,
                registers_dirty: final(self).registers_dirty,
                last_resume_orig_cx: final(self).last_resume_orig_cx,
                singlestepping_instruction: final(self).singlestepping_instruction,
                did_set_breakpoint_after_cpuid: final(self).did_set_breakpoint_after_cpuid,
                seen_ptrace_exit_event: final(self).seen_ptrace_exit_event,
                ..*old(self)
            }),
            final(self).wait_status == old(self).spec_stop_status(status, &report),
            final(self).ticks == old(self).ticks + report.more_ticks,
            final(self).pending_siginfo == old(self).spec_stop_siginfo(status, &report),
            final(self).expecting_ptrace_interrupt_stop == if old(self).spec_interrupt_status(
                status,
            ).1 || old(self).expecting_ptrace_interrupt_stop == 0 {
                0
            } else {
                (old(self).expecting_ptrace_interrupt_stop - 1) as u32
            },
            actions.expire_timeslice == old(self).spec_interrupt_status(status).1,
            report.native_regs is Some ==> final(self).regs.arch == spec_arch_for_access_rights(
                report.cs_access_rights,
            ),
            report.native_regs is Some ==> ((final(self).regs.arch == SupportedArch::X64) == (
            report.cs_access_rights & crate::kernel::AR_L == crate::kernel::AR_L)),
            is_exit_event(final(self).wait_status) ==> {
                &&& final(self).seen_ptrace_exit_event
                &&& final(self).regs@ == old(self).spec_refreshed(&report)
                &&& final(self).registers_dirty == old(self).registers_dirty
                &&& final(self).did_set_breakpoint_after_cpuid == old(self).did_set_breakpoint_after_cpuid
                &&& final(self).last_resume_orig_cx == old(self).last_resume_orig_cx
                &&& final(self).singlestepping_instruction == old(self).singlestepping_instruction
                &&& actions.remove_breakpoint is None
                &&& actions.scrub_trap_flag_at is None
                &&& !actions.canonicalize_regs
            },
            !is_exit_event(final(self).wait_status) ==> {
                let st = final(self).wait_status;
                let fixed = old(self).spec_fixed(st, &report);
                &&& final(self).regs@ == fixed
                &&& final(self).seen_ptrace_exit_event == old(self).seen_ptrace_exit_event
                &&& final(self).last_resume_orig_cx == 0
                &&& final(self).singlestepping_instruction == TrappedInstruction::NoTrap
                &&& !final(self).did_set_breakpoint_after_cpuid
                &&& final(self).registers_dirty == (view_value(
                    old(self).spec_refreshed(&report),
                    Reg::Flags,
                ) & X86_TF_FLAG != 0 || old(self).last_resume_orig_cx != 0 || old(self).spec_at_cpuid_bkpt(&report) || old(self).spec_restores_orig_syscallno(
                    st,
                    &report,
                ))
                &&& actions.remove_breakpoint == if old(self).did_set_breakpoint_after_cpuid {
                    Some(old(self).spec_cpuid_bkpt())
                } else {
                    None
                }
                &&& actions.scrub_trap_flag_at == if old(self).spec_stepped_pushf(&report) {
                    Some(view_value(old(self).spec_fixed_ip(&report), Reg::Sp))
                } else {
                    None
                }
                &&& actions.canonicalize_regs == (report.rd_page_start <= view_value(
                    fixed,
                    Reg::Ip,
                ) && view_value(fixed, Reg::Ip) < report.rd_page_start + PAGE_SIZE)
            },
    {
        let ghost pre = *self;
        let original_syscallno = self.regs.original_syscallno();
        let (status, overridden) = self.absorb_stop(status, &report);
        let mut actions = PostStopActions {
            expire_timeslice: overridden,
            remove_breakpoint: None,
            scrub_trap_flag_at: None,
            canonicalize_regs: false,
            accumulate_ticks: report.more_ticks,
        };
        if status.maybe_ptrace_event() == PTRACE_EVENT_EXIT as u32 {
            self.seen_ptrace_exit_event = true;
            return actions;
        }
        actions.remove_breakpoint = self.undo_resume_workarounds();
        assert(self.regs@ == pre.spec_fixed_ip(&report));
        if (self.singlestepping_instruction == TrappedInstruction::Pushf
            || self.singlestepping_instruction == TrappedInstruction::Pushf16) && self.regs.ip()
            == remote_add(
            self.address_of_last_execution_resume,
            trapped_instruction_len(self.singlestepping_instruction),
        ) {
            actions.scrub_trap_flag_at = Some(self.regs.sp());
        }
        self.singlestepping_instruction = TrappedInstruction::NoTrap;
        if report.breakpoint_at_resume && status.maybe_stop_sig() == SIGTRAP as u32
            && status.maybe_ptrace_event() == 0 && self.regs.ip() == remote_add(
            self.address_of_last_execution_resume,
            BKPT_INSN_LEN,
        ) {
            self.regs.set(Reg::OrigSyscallNo, original_syscallno);
            self.registers_dirty = true;
        }
        let ip = self.regs.ip();
        actions.canonicalize_regs = report.rd_page_start <= ip && ip - report.rd_page_start
            < PAGE_SIZE;
        actions
    }

    /// Record a stop: interrupt accounting, siginfo, fresh registers, ticks.
    /// Returns the recorded status and whether it stands for a
    /// PTRACE_INTERRUPT.
    #[verifier::rlimit(30)]
    fn absorb_stop(&mut self, status: WaitStatus, report: &StopReport) -> (r: (WaitStatus, bool))
        requires
            old(self).inv(),
            !old(self).is_stopped,
            report.native_regs is Some ==> report.native_regs->0@.len() == NATIVE_WORDS,
            old(self).ticks + report.more_ticks <= u64::MAX,
        ensures
            r.0 == old(self).spec_stop_status(status, report),
            r.1 == old(self).spec_interrupt_status(status).1,
            final(self).regs@ == old(self).spec_refreshed(report),
            final(self).regs.wf(),
            *final(self) == (Task {
                is_stopped: true,
                wait_status: r.0,
                ticks: (old(self).ticks + report.more_ticks) as u64,
                waits: Ghost(old(self).waits@ + 1),
                pending_siginfo: old(self).spec_stop_siginfo(status, report),
                expecting_ptrace_interrupt_stop: if r.1 || old(self).expecting_ptrace_interrupt_stop == 0 {
                    0
                } else {
                    (old(self).expecting_ptrace_interrupt_stop - 1) as u32
                },
                regs: final(self).regs,
                ..*old(self)
            }),
    {
        let mut status = status;
        let mut overridden = false;
        if self.expecting_ptrace_interrupt_stop > 0 {
            self.expecting_ptrace_interrupt_stop = self.expecting_ptrace_interrupt_stop - 1;
            if is_signal_triggered_by_ptrace_interrupt(status.maybe_group_stop_sig()) {
                status = WaitStatus::for_stop_sig(TIME_SLICE_SIGNAL as u32);
                self.pending_siginfo = SigInfo {
                    signo: TIME_SLICE_SIGNAL,
                    code: POLL_IN,
                    fd: report.ticks_interrupt_fd,
                };
                overridden = true;
                self.expecting_ptrace_interrupt_stop = 0;
            }
        }
        if !overridden && status.maybe_stop_sig() != 0 {
            match report.siginfo {
                Some(si) => {
                    self.pending_siginfo = si;
                },
                None => {
                    status = WaitStatus::for_ptrace_event(PTRACE_EVENT_EXIT as u32);
                    self.pending_siginfo = SigInfo::zeroed();
                },
            }
        }
        match &report.native_regs {
            Some(n) => {
                let a = arch_for_access_rights(report.cs_access_rights);
                self.regs = Registers::from_native(a, n);
            },
            None => {
                status = WaitStatus::for_ptrace_event(PTRACE_EVENT_EXIT as u32);
            },
        }
        self.is_stopped = true;
        self.wait_status = status;
        self.ticks = self.ticks + report.more_ticks;
        self.waits = Ghost(self.waits@ + 1);
        (status, overridden)
    }

    /// Clear the trap flag, restore a lowered `cx`, and move `ip` back from
    /// the breakpoint after a CPUID, which the caller must then remove.
    #[verifier::rlimit(30)]
    fn undo_resume_workarounds(&mut self) -> (remove_bkpt: Option<u64>)
        requires
            old(self).regs.wf(),
            old(self).is_stopped,
            old(self).last_resume_orig_cx == 0 || old(self).last_resume_orig_cx
                > SINGLE_STEP_COALESCE_CUTOFF,
            old(self).last_resume_orig_cx != 0 ==> ({
                let c = view_value(old(self).regs@, Reg::Cx);
                c == SINGLE_STEP_COALESCE_CUTOFF - 1 || c == SINGLE_STEP_COALESCE_CUTOFF
            }),
        ensures
            final(self).regs.wf(),
            final(self).regs@ == fixed_ip_view(
                fixed_cx_view(old(self).regs@, old(self).last_resume_orig_cx),
                old(self).did_set_breakpoint_after_cpuid,
                old(self).spec_cpuid_bkpt(),
            ),
            remove_bkpt == if old(self).did_set_breakpoint_after_cpuid {
                Some(old(self).spec_cpuid_bkpt())
            } else {
                None
            },
            *final(self) == (Task {
                regs: final(self).regs,
                registers_dirty: old(self).registers_dirty || view_value(
                    old(self).regs@,
                    Reg::Flags,
                ) & X86_TF_FLAG != 0 || old(self).last_resume_orig_cx != 0 || (old(self).did_set_breakpoint_after_cpuid && view_value(
                    fixed_cx_view(old(self).regs@, old(self).last_resume_orig_cx),
                    Reg::Ip,
                ) == addr_add(old(self).spec_cpuid_bkpt(), BKPT_INSN_LEN)),
                last_resume_orig_cx: 0,
                did_set_breakpoint_after_cpuid: false,
                ..*old(self)
            }),
    {
        let changed_cx = fix_flags_and_cx(&mut self.regs, self.last_resume_orig_cx);
        if changed_cx {
            self.registers_dirty = true;
        }
        self.last_resume_orig_cx = 0;
        let mut remove_bkpt: Option<u64> = None;
        if self.did_set_breakpoint_after_cpuid {
            let bkpt_addr = remote_add(
                self.address_of_last_execution_resume,
                trapped_instruction_len(self.singlestepping_instruction),
            );
            if fix_ip_after_bkpt(&mut self.regs, bkpt_addr) {
                self.registers_dirty = true;
            }
            remove_bkpt = Some(bkpt_addr);
            self.did_set_breakpoint_after_cpuid = false;
        }
        remove_bkpt
    }
}

/// A thread whose registers await write-back is always stopped.
pub proof fn lemma_dirty_registers_imply_stopped(t: Task)
    requires
        t.inv(),
    ensures
        t.registers_dirty ==> t.is_stopped,
{
}

/// Between two consecutive resumes of a thread exactly one stop is absorbed:
/// two states from which a resume may start, the second having seen one
/// resume more than the first, differ by exactly one `did_waitpid`.
pub proof fn lemma_one_stop_between_resumes(before: Task, after: Task)
    requires
        before.inv(),
        after.inv(),
        before.is_stopped,
        after.is_stopped,
        after.resumes@ == before.resumes@ + 1,
    ensures
        after.waits@ == before.waits@ + 1,
{
}

/// Writing back the registers just read changes no register: the task
/// differs only in that a write-back is pending.
pub proof fn lemma_regs_snapshot_restore(t: Task, r: Registers)
    requires
        t.inv(),
        t.is_stopped,
        r.wf(),
        r@ == t.regs@,
    ensures
        t.with_regs(r).inv(),
        t.with_regs(r).regs@ == t.regs@,
        t.with_regs(r) == (Task { regs: r, registers_dirty: true, ..t }),
{
}

/// A tick budget of zero, or above the largest request, is refused.
pub proof fn lemma_tick_budget_bounds(k: u64)
    ensures
        TicksRequest::ResumeWithTicksRequest(k).spec_valid() == (1 <= k <= MAX_TICKS_REQUEST),
        !TicksRequest::ResumeWithTicksRequest(0).spec_valid(),
        k > MAX_TICKS_REQUEST ==> !TicksRequest::ResumeWithTicksRequest(k).spec_valid(),
{
}

/// The bytes of the low `size` bytes of `val`, least significant first, as
/// they are written into tracee memory.
pub fn write_val_mem(val: u64, size: usize) -> (b: Vec<u8>)
    requires
        size <= 8,
    ensures
        b@.len() == size,
        forall|i: int| 0 <= i < size ==> b@[i] as int == (val as int / pow2_8(i)) % 256,
{
    let mut b: Vec<u8> = Vec::new();
    let mut v: u64 = val;
    let mut i: usize = 0;
    while i < size
        invariant
            i <= size <= 8,
            b@.len() == i,
            v as int == val as int / pow2_8(i as int),
            forall|k: int| 0 <= k < i ==> b@[k] as int == (val as int / pow2_8(k)) % 256,
        decreases size - i,
    {
        b.push((v % 256) as u8);
        proof {
            lemma_pow2_8_step(i as int);
            vstd::arithmetic::div_mod::lemma_div_denominator(val as int, pow2_8(i as int), 256);
        }
        v = v / 256;
        i += 1;
    }
    b
}

/// 256 to the power `i`.
pub open spec fn pow2_8(i: int) -> int
    decreases i,
{
    if i <= 0 {
        1
    } else {
        256 * pow2_8(i - 1)
    }
}

proof fn lemma_pow2_8_step(i: int)
    requires
        i >= 0,
    ensures
        pow2_8(i + 1) == pow2_8(i) * 256,
        pow2_8(i) > 0,
    decreases i,
{
    if i > 0 {
        lemma_pow2_8_step(i - 1);
    }
}

/// The 16-bit word pushed by a single-stepped `pushf`, with the trap flag
/// cleared and every other bit kept.
pub fn clear_pushed_trap_flag(word: u16) -> (r: u16)
    ensures
        r == word & !0x100u16,
        r & 0x100 == 0,
{
    let r = word & !0x100u16;
    assert(r & 0x100 == 0) by (bit_vector)
        requires
            r == word & !0x100u16,
    ;
    r
}

/// The value whose little-endian bytes are `bytes` (at most eight), as
/// read from tracee memory.
#[verifier::rlimit(30)]
pub fn read_val_mem(bytes: &Vec<u8>) -> (v: u64)
    requires
        bytes@.len() <= 8,
    ensures
        forall|i: int| 0 <= i < bytes@.len() ==> bytes@[i] as int == (v as int / pow2_8(i)) % 256,
        v < pow2_8(bytes@.len() as int),
{
    let n = bytes.len();
    let mut v: u64 = 0;
    let mut k: usize = n;
    proof {
        lemma_pow2_8_step(0);
    }
    while k > 0
        invariant
            k <= n,
            n == bytes@.len(),
            n <= 8,
            v < pow2_8((n - k) as int),
            forall|i: int| k <= i < n ==> bytes@[i] as int == (v as int / pow2_8(i - k)) % 256,
        decreases k,
    {
        let b = bytes[k - 1];
        proof {
            lemma_pow2_8_step((n - k) as int);
            lemma_pow2_8_le_2_64((n - k + 1) as int);
            assert(v * 256 + b < pow2_8((n - k + 1) as int)) by (nonlinear_arith)
                requires
                    v < pow2_8((n - k) as int),
                    pow2_8((n - k + 1) as int) == pow2_8((n - k) as int) * 256,
                    b < 256,
            ;
            assert forall|i: int| k - 1 <= i < n implies bytes@[i] as int == ((v * 256 + b) as int
                / pow2_8(i - (k - 1))) % 256 by {
                if i == k - 1 {
                    assert(pow2_8(0) == 1);
                    assert((v * 256 + b) % 256 == b as int) by (nonlinear_arith)
                        requires
                            b < 256,
                    ;
                } else {
                    let e = i - k;
                    lemma_pow2_8_step(e);
                    assert(pow2_8(i - (k - 1)) == pow2_8(e) * 256);
                    vstd::arithmetic::div_mod::lemma_div_denominator(
                        (v * 256 + b) as int,
                        256,
                        pow2_8(e),
                    );
                    assert(((v * 256 + b) as int) / 256 == v as int) by (nonlinear_arith)
                        requires
                            b < 256,
                    ;
                    assert(256 * pow2_8(e) == pow2_8(e) * 256) by (nonlinear_arith);
                }
            }
        }
        v = v * 256 + b as u64;
        k -= 1;
    }
    v
}

proof fn lemma_pow2_8_le_2_64(i: int)
    requires
        0 <= i <= 8,
    ensures
        pow2_8(i) <= 0x1_0000_0000_0000_0000,
{
    assert(pow2_8(0) == 1);
    assert(pow2_8(1) == 0x100);
    assert(pow2_8(2) == 0x1_0000);
    assert(pow2_8(3) == 0x100_0000);
    assert(pow2_8(4) == 0x1_0000_0000);
    assert(pow2_8(5) == 0x100_0000_0000);
    assert(pow2_8(6) == 0x1_0000_0000_0000);
    assert(pow2_8(7) == 0x100_0000_0000_0000);
    assert(pow2_8(8) == 0x1_0000_0000_0000_0000);
}

} // verus!
