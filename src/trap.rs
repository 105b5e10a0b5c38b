//! Why a SIGTRAP happened: a completed single-step, a watchpoint, a
//! breakpoint, or several of them.

use vstd::prelude::*;
use crate::kernel::{addr_add, addr_sub, remote_add, remote_sub, SIGTRAP, SI_KERNEL, TRAP_BRKPT};
use crate::task::{
    is_singlestep_resume, spec_is_singlestep_resume, ResumeRequest, TrappedInstruction,
    BKPT_INSN_LEN,
};

verus! {

/// Debug-status bits of the four hardware watchpoints.
pub const DS_WATCHPOINT_ANY: u64 = 0xf;
/// Debug-status bit of a completed single-step.
pub const DS_SINGLESTEP: u64 = 0x4000;
/// Length of the syscall instruction (`syscall` or `int $0x80`).
pub const SYSCALL_INSN_LEN: u64 = 2;

/// The causes found for a SIGTRAP.
#[derive(Clone, Copy, Debug, PartialEq, Eq, Structural)]
pub struct TrapReasons {
    pub singlestep: bool,
    pub watchpoint: bool,
    pub breakpoint: bool,
}

/// What is known about the thread when it stopped with SIGTRAP.
#[derive(Clone, Copy, Debug, PartialEq, Eq, Structural)]
pub struct TrapContext {
    /// The debug-status register.
    pub debug_status: u64,
    pub how_last_resumed: ResumeRequest,
    /// Address the thread was last resumed at.
    pub resume_addr: u64,
    pub ip: u64,
    /// Whether a syscall instruction sits at `resume_addr`.
    pub syscall_insn_at_resume: bool,
    /// The trapped instruction at `resume_addr`.
    pub insn_at_resume: TrappedInstruction,
    /// Whether the address space saw a watched value change (after being
    /// told of the fired watchpoints).
    pub watchpoint_changes: bool,
    /// Whether an exec watchpoint fired at the address just before `ip`.
    pub exec_watchpoint_before_ip: bool,
    /// Whether a breakpoint instruction sits at `resume_addr`.
    pub bkpt_insn_at_resume: bool,
    /// Whether a breakpoint instruction sits just before `ip`.
    pub bkpt_insn_before_ip: bool,
    /// `si_signo` and `si_code` of the pending siginfo.
    pub si_signo: i32,
    pub si_code: i32,
}

/// A `si_code` the kernel uses for a breakpoint trap.
pub open spec fn spec_is_kernel_trap(si_code: i32) -> bool {
    si_code == SI_KERNEL || si_code == TRAP_BRKPT
}

pub fn is_kernel_trap(si_code: i32) -> (b: bool)
    ensures
        b == spec_is_kernel_trap(si_code),
{
    si_code == SI_KERNEL || si_code == TRAP_BRKPT
}

/// Whether, and with which address, the address space must be told that
/// watchpoints (or a single-step) fired: the resume address after a
/// single-step resume, zero otherwise.
pub fn watchpoint_notification(debug_status: u64, how: ResumeRequest, resume_addr: u64) -> (r:
    Option<u64>)
    ensures
        debug_status & (DS_WATCHPOINT_ANY | DS_SINGLESTEP) == 0 ==> r is None,
        debug_status & (DS_WATCHPOINT_ANY | DS_SINGLESTEP) != 0 ==> r == Some(
            if spec_is_singlestep_resume(how) {
                resume_addr
            } else {
                0u64
            },
        ),
{
    if debug_status & (DS_WATCHPOINT_ANY | DS_SINGLESTEP) != 0 {
        Some(if is_singlestep_resume(how) { resume_addr } else { 0 })
    } else {
        None
    }
}

/// Evidence that a single-step completed: the debug-status bit, or, after
/// a single-step resume, `ip` just past a syscall instruction, CPUID or
/// INT3 at the resume address (the kernel does not report those steps).
pub open spec fn singlestep_evidence(c: TrapContext) -> bool {
    ||| c.debug_status & DS_SINGLESTEP != 0
    ||| (spec_is_singlestep_resume(c.how_last_resumed) && ((c.syscall_insn_at_resume && c.ip
        == addr_add(c.resume_addr, SYSCALL_INSN_LEN)) || (c.insn_at_resume
        == TrappedInstruction::CpuId && c.ip == addr_add(c.resume_addr, 2)) || (c.insn_at_resume
        == TrappedInstruction::Int3 && c.ip == addr_add(c.resume_addr, 1))))
}

/// Evidence that a watchpoint fired.
pub open spec fn watchpoint_evidence(c: TrapContext) -> bool {
    c.watchpoint_changes || c.debug_status & DS_WATCHPOINT_ANY != 0
}

/// The causes of a SIGTRAP. A breakpoint is believed from siginfo only when
/// neither a single-step nor a watchpoint explains the trap.
pub open spec fn spec_trap_reasons(c: TrapContext) -> TrapReasons {
    let ss = singlestep_evidence(c);
    let wp = watchpoint_evidence(c);
    TrapReasons {
        singlestep: ss,
        watchpoint: wp,
        breakpoint: if ss {
            c.bkpt_insn_at_resume
        } else if wp {
            c.exec_watchpoint_before_ip && c.bkpt_insn_before_ip
        } else {
            spec_is_kernel_trap(c.si_code)
        },
    }
}

/// The facts a SIGTRAP stop must agree with: a single-step that ends on a
/// breakpoint instruction stopped just past it at the resume address; when
/// neither a single-step nor a watchpoint explains the trap, the siginfo is
/// SIGTRAP's, and a kernel trap has a breakpoint instruction just before
/// `ip`. Anything else breaks the tracer's model of the tracee.
pub open spec fn trap_consistent(c: TrapContext) -> bool {
    &&& (singlestep_evidence(c) && c.bkpt_insn_at_resume) ==> c.resume_addr == addr_sub(
        c.ip,
        BKPT_INSN_LEN,
    )
    &&& (!singlestep_evidence(c) && !watchpoint_evidence(c)) ==> c.si_signo == SIGTRAP
    &&& (!singlestep_evidence(c) && !watchpoint_evidence(c) && spec_is_kernel_trap(c.si_code))
        ==> c.bkpt_insn_before_ip
}

/// Whether the stop agrees with the facts `trap_consistent` lists; a stop
/// that does not is fatal.
pub fn is_trap_consistent(c: &TrapContext) -> (b: bool)
    ensures
        b == trap_consistent(*c),
{
    let mut ss = c.debug_status & DS_SINGLESTEP != 0;
    if is_singlestep_resume(c.how_last_resumed) {
        if (c.syscall_insn_at_resume && c.ip == remote_add(c.resume_addr, SYSCALL_INSN_LEN)) || (
        c.insn_at_resume == TrappedInstruction::CpuId && c.ip == remote_add(c.resume_addr, 2)) || (
        c.insn_at_resume == TrappedInstruction::Int3 && c.ip == remote_add(c.resume_addr, 1)) {
            ss = true;
        }
    }
    let wp = c.watchpoint_changes || c.debug_status & DS_WATCHPOINT_ANY != 0;
    let before_ip = remote_sub(c.ip, BKPT_INSN_LEN);
    (!(ss && c.bkpt_insn_at_resume) || c.resume_addr == before_ip) && (ss || wp || c.si_signo
        == SIGTRAP) && (ss || wp || !is_kernel_trap(c.si_code) || c.bkpt_insn_before_ip)
}

/// Determine why a SIGTRAP occurred.
pub fn compute_trap_reasons(c: &TrapContext) -> (r: TrapReasons)
    requires
        trap_consistent(*c),
    ensures
        r == spec_trap_reasons(*c),
{
    let mut singlestep = c.debug_status & DS_SINGLESTEP != 0;
    if is_singlestep_resume(c.how_last_resumed) {
        if c.syscall_insn_at_resume && c.ip == remote_add(c.resume_addr, SYSCALL_INSN_LEN) {
            singlestep = true;
        } else if c.insn_at_resume == TrappedInstruction::CpuId && c.ip == remote_add(
            c.resume_addr,
            2,
        ) {
            singlestep = true;
        } else if c.insn_at_resume == TrappedInstruction::Int3 && c.ip == remote_add(
            c.resume_addr,
            1,
        ) {
            singlestep = true;
        }
    }
    let watchpoint = c.watchpoint_changes || c.debug_status & DS_WATCHPOINT_ANY != 0;
    let breakpoint = if singlestep {
        c.bkpt_insn_at_resume
    } else if watchpoint {
        c.exec_watchpoint_before_ip && c.bkpt_insn_before_ip
    } else {
        is_kernel_trap(c.si_code)
    };
    TrapReasons { singlestep, watchpoint, breakpoint }
}

/// Address a breakpoint instruction that just trapped would sit at.
pub fn ip_at_breakpoint(ip: u64) -> (a: u64)
    ensures
        a == addr_sub(ip, BKPT_INSN_LEN),
{
    remote_sub(ip, BKPT_INSN_LEN)
}

/// Two debug events coincide: a single-step that also hit a watchpoint or
/// stepped onto a breakpoint, or a watchpoint on a breakpoint instruction.
pub open spec fn concurrent_events(c: TrapContext) -> bool {
    ||| (singlestep_evidence(c) && watchpoint_evidence(c))
    ||| (singlestep_evidence(c) && c.bkpt_insn_at_resume)
    ||| (watchpoint_evidence(c) && c.exec_watchpoint_before_ip && c.bkpt_insn_before_ip)
}

/// The SIGTRAP comes from a debug event (not, say, from `kill`).
pub open spec fn debug_trap(c: TrapContext) -> bool {
    singlestep_evidence(c) || watchpoint_evidence(c) || spec_is_kernel_trap(c.si_code)
}

/// A SIGTRAP caused by one debug event alone gets exactly one cause.
pub proof fn lemma_single_cause(c: TrapContext)
    requires
        debug_trap(c),
        !concurrent_events(c),
    ensures
        ({
            let r = spec_trap_reasons(c);
            (r.singlestep && !r.watchpoint && !r.breakpoint) || (!r.singlestep && r.watchpoint
                && !r.breakpoint) || (!r.singlestep && !r.watchpoint && r.breakpoint)
        }),
{
}

/// Single-stepping a CPUID that stopped just past it (the case of the
/// internal breakpoint placed after CPUID) is a single-step, not a
/// breakpoint, when no breakpoint instruction sits at the CPUID.
pub proof fn lemma_cpuid_step_is_singlestep(c: TrapContext)
    requires
        spec_is_singlestep_resume(c.how_last_resumed),
        c.insn_at_resume == TrappedInstruction::CpuId,
        c.ip == addr_add(c.resume_addr, 2),
        !c.bkpt_insn_at_resume,
    ensures
        spec_trap_reasons(c).singlestep,
        !spec_trap_reasons(c).breakpoint,
{
}

} // verus!
