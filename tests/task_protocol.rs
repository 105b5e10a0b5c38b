use rd::kernel::{SupportedArch, AR_L, MAX_TICKS_REQUEST};
use rd::registers::{Reg, Registers};
use rd::task::{
    clear_pushed_trap_flag, probe_found_exit, trapped_instruction_at, write_val_mem,
    AddressSpaceUid, ResumeRequest, SigInfo, StopReport, Task, ThreadGroupUid, TicksRequest,
    TrappedInstruction,
};
use rd::trap::{compute_trap_reasons, TrapContext};
use rd::wait_status::{WaitKind, WaitStatus};

const IP: u64 = 0x40_1000;
const SP: u64 = 0x7ffd_0000;

fn uids() -> (AddressSpaceUid, ThreadGroupUid) {
    (AddressSpaceUid { tid: 100, serial: 1, exec_count: 0 }, ThreadGroupUid { tid: 100, serial: 1 })
}

fn native(ip: u64, cx: u64, flags: u64) -> Vec<u64> {
    let mut r = Registers::new(SupportedArch::X64);
    r.set(Reg::Ip, ip);
    r.set(Reg::Cx, cx);
    r.set(Reg::Sp, SP);
    r.set(Reg::Flags, flags);
    r.set(Reg::OrigSyscallNo, 39);
    r.to_native()
}

fn report(regs: Option<Vec<u64>>) -> StopReport {
    StopReport {
        siginfo: Some(SigInfo { signo: 5, code: 1, fd: 0 }),
        native_regs: regs,
        cs_access_rights: AR_L,
        ticks_interrupt_fd: 33,
        more_ticks: 0,
        breakpoint_at_resume: false,
        rd_page_start: 0x7000_0000,
    }
}

/// A task stopped by SIGTRAP at `ip` with `cx`.
fn stopped_task(ip: u64, cx: u64) -> Task {
    let (vm, tg) = uids();
    let mut t = Task::new(100, 100, 1, SupportedArch::X64, vm, tg);
    let a = t.did_waitpid(WaitStatus::for_stop_sig(5), report(Some(native(ip, cx, 0x246))));
    assert!(!a.expire_timeslice);
    assert!(t.is_stopped);
    t
}

#[test]
fn new_task_absorbs_first_stop() {
    let t = stopped_task(IP, 0);
    assert_eq!(t.ip(), IP);
    assert_eq!(t.arch(), SupportedArch::X64);
    assert!(!t.registers_dirty);
    assert_eq!(t.wait_status.kind(), Some(WaitKind::StopSig(5)));
    assert_eq!(t.pending_siginfo, SigInfo { signo: 5, code: 1, fd: 0 });
}

#[test]
fn compat_code_segment_gives_x86_registers() {
    let (vm, tg) = uids();
    let mut t = Task::new(100, 100, 1, SupportedArch::X64, vm, tg);
    let mut r = report(Some(native(0x1_0804_8000, 3, 0x202)));
    r.cs_access_rights = 0x00c0_fb00;
    t.did_waitpid(WaitStatus::for_stop_sig(5), r);
    assert_eq!(t.arch(), SupportedArch::X86);
    assert_eq!(t.regs.words.len(), 17);
    assert_eq!(t.ip(), 0x0804_8000);
    assert_eq!(t.regs.cx(), 3);
}

#[test]
fn cpuid_singlestep_breakpoint_is_undone() {
    let mut t = stopped_task(IP, 0);
    let insn = trapped_instruction_at(&vec![0x0f, 0xa2]);
    assert_eq!(insn, TrappedInstruction::CpuId);
    let plan = t.prepare_resume(ResumeRequest::Singlestep, TicksRequest::ResumeNoTicks, insn, false);
    assert_eq!(plan.add_breakpoint_at, Some(IP + 2));
    assert_eq!(plan.arm_ticks, None);
    t.note_cpuid_breakpoint(true);
    assert!(t.take_dirty_regs().is_none());
    assert!(t.complete_resume(false));
    assert!(!t.is_stopped);
    // The step ran CPUID and then the breakpoint placed after it.
    let a = t.did_waitpid(WaitStatus::for_stop_sig(5), report(Some(native(IP + 3, 0, 0x246))));
    assert_eq!(a.remove_breakpoint, Some(IP + 2));
    assert_eq!(t.ip(), IP + 2);
    assert!(t.registers_dirty);
    assert!(!t.did_set_breakpoint_after_cpuid);
    assert_eq!(t.singlestepping_instruction, TrappedInstruction::NoTrap);
    let reasons = compute_trap_reasons(&TrapContext {
        debug_status: 0,
        how_last_resumed: t.how_last_execution_resumed,
        resume_addr: t.address_of_last_execution_resume,
        ip: t.ip(),
        syscall_insn_at_resume: false,
        insn_at_resume: TrappedInstruction::CpuId,
        watchpoint_changes: false,
        exec_watchpoint_before_ip: false,
        bkpt_insn_at_resume: false,
        bkpt_insn_before_ip: false,
        si_signo: 5,
        si_code: 0x80,
    });
    assert!(reasons.singlestep);
    assert!(!reasons.breakpoint);
    assert!(!reasons.watchpoint);
}

#[test]
fn knl_string_singlestep_workaround() {
    let mut t = stopped_task(IP, 100);
    let insn = trapped_instruction_at(&vec![0xf3, 0xa4]);
    assert_eq!(insn, TrappedInstruction::String);
    t.prepare_resume(ResumeRequest::Singlestep, TicksRequest::ResumeNoTicks, insn, true);
    assert_eq!(t.regs.cx(), 16);
    assert_eq!(t.last_resume_orig_cx, 100);
    let flushed = t.take_dirty_regs().expect("cx was lowered");
    assert_eq!(flushed.cx(), 16);
    assert!(t.complete_resume(false));
    t.did_waitpid(WaitStatus::for_stop_sig(5), report(Some(native(IP + 2, 15, 0x246))));
    assert_eq!(t.regs.cx(), 100 - 16 + 15);
    assert_eq!(t.last_resume_orig_cx, 0);
    assert!(t.registers_dirty);
}

#[test]
fn knl_workaround_needs_the_quirk() {
    let mut t = stopped_task(IP, 100);
    t.prepare_resume(ResumeRequest::Singlestep, TicksRequest::ResumeNoTicks, TrappedInstruction::String, false);
    assert_eq!(t.regs.cx(), 100);
    assert_eq!(t.last_resume_orig_cx, 0);
    let mut u = stopped_task(IP, 16);
    u.prepare_resume(ResumeRequest::Singlestep, TicksRequest::ResumeNoTicks, TrappedInstruction::String, true);
    assert_eq!(u.regs.cx(), 16);
    assert_eq!(u.last_resume_orig_cx, 0);
}

#[test]
fn pushfw_step_scrubs_trap_flag() {
    let mut t = stopped_task(IP, 0);
    let insn = trapped_instruction_at(&vec![0x66, 0x9c]);
    assert_eq!(insn, TrappedInstruction::Pushf16);
    t.prepare_resume(ResumeRequest::Singlestep, TicksRequest::ResumeNoTicks, insn, false);
    assert!(t.complete_resume(false));
    let a = t.did_waitpid(WaitStatus::for_stop_sig(5), report(Some(native(IP + 2, 0, 0x346))));
    assert_eq!(a.scrub_trap_flag_at, Some(SP));
    assert!(!t.regs.singlestep_flag());
    assert_eq!(clear_pushed_trap_flag(0x0346), 0x0246);
    assert_eq!(clear_pushed_trap_flag(0xffff), 0xfeff);
    assert_eq!(clear_pushed_trap_flag(0x0046), 0x0046);
}

#[test]
fn resume_onto_breakpoint_restores_original_syscallno() {
    let mut t = stopped_task(IP, 0);
    t.prepare_resume(ResumeRequest::Cont, TicksRequest::ResumeUnlimitedTicks, TrappedInstruction::NoTrap, false);
    assert!(t.complete_resume(false));
    let mut n = native(IP + 1, 0, 0x246);
    n[15] = u64::MAX;
    let mut r = report(Some(n));
    r.breakpoint_at_resume = true;
    t.did_waitpid(WaitStatus::for_stop_sig(5), r);
    assert_eq!(t.regs.original_syscallno(), 39);
    assert!(t.registers_dirty);
}

#[test]
fn interrupt_group_stop_becomes_time_slice() {
    let mut t = stopped_task(IP, 0);
    t.prepare_resume(ResumeRequest::Cont, TicksRequest::ResumeWithTicksRequest(1000), TrappedInstruction::NoTrap, false);
    t.complete_resume(false);
    t.expecting_ptrace_interrupt_stop = 2;
    let status = WaitStatus::for_group_sig(19);
    assert!(!t.needs_siginfo(status));
    let mut r = report(Some(native(IP + 10, 0, 0x246)));
    r.siginfo = None;
    let a = t.did_waitpid(status, r);
    assert!(a.expire_timeslice);
    assert_eq!(t.wait_status.kind(), Some(WaitKind::StopSig(16)));
    assert_eq!(t.pending_siginfo, SigInfo { signo: 16, code: 1, fd: 33 });
    assert_eq!(t.expecting_ptrace_interrupt_stop, 0);
}

#[test]
fn vanished_thread_reads_as_exit_event() {
    let mut t = stopped_task(IP, 0);
    t.prepare_resume(ResumeRequest::Cont, TicksRequest::ResumeNoTicks, TrappedInstruction::NoTrap, false);
    t.complete_resume(false);
    let status = WaitStatus::for_stop_sig(11);
    assert!(t.needs_siginfo(status));
    let mut r = report(Some(native(IP, 0, 0x246)));
    r.siginfo = None;
    t.did_waitpid(status, r);
    assert_eq!(t.wait_status.kind(), Some(WaitKind::PtraceEvent(6)));
    assert!(t.seen_ptrace_exit_event);
    assert_eq!(t.pending_siginfo, SigInfo { signo: 0, code: 0, fd: 0 });
}

#[test]
fn ticks_accumulate_across_stops() {
    let mut t = stopped_task(IP, 0);
    t.prepare_resume(ResumeRequest::Cont, TicksRequest::ResumeUnlimitedTicks, TrappedInstruction::NoTrap, false);
    t.complete_resume(false);
    let mut r = report(Some(native(IP, 0, 0x246)));
    r.more_ticks = 1234;
    t.did_waitpid(WaitStatus::for_stop_sig(5), r);
    assert_eq!(t.ticks, 1234);
}

#[test]
fn unexpected_exit_skips_the_request() {
    let mut t = stopped_task(IP, 0);
    t.prepare_resume(ResumeRequest::Cont, TicksRequest::ResumeNoTicks, TrappedInstruction::NoTrap, false);
    let exited = probe_found_exit(100, 100, WaitStatus::for_ptrace_event(6));
    assert!(exited);
    assert!(!probe_found_exit(0, 100, WaitStatus::new(0)));
    assert!(!t.complete_resume(exited));
    assert!(t.detected_unexpected_exit);
    assert!(!t.is_stopped);
}

#[test]
fn set_regs_round_trip_changes_nothing_but_the_flag() {
    let mut t = stopped_task(IP, 42);
    let before = t.regs.words.clone();
    let snap = t.regs_snapshot();
    t.set_regs(snap);
    assert_eq!(t.regs.words, before);
    assert!(t.registers_dirty);
    let flushed = t.take_dirty_regs().expect("dirty");
    assert_eq!(flushed.words, before);
    assert!(!t.registers_dirty);
}

#[test]
fn tick_requests_are_bounded() {
    assert!(!TicksRequest::ResumeWithTicksRequest(0).is_valid());
    assert!(!TicksRequest::ResumeWithTicksRequest(MAX_TICKS_REQUEST + 1).is_valid());
    assert!(TicksRequest::ResumeWithTicksRequest(1).is_valid());
    assert!(TicksRequest::ResumeWithTicksRequest(MAX_TICKS_REQUEST).is_valid());
    assert!(TicksRequest::ResumeNoTicks.is_valid());
    assert_eq!(TicksRequest::ResumeWithTicksRequest(500).counter_period(), Some(500));
    assert_eq!(TicksRequest::ResumeUnlimitedTicks.counter_period(), Some(0));
    assert_eq!(TicksRequest::ResumeNoTicks.counter_period(), None);
}

#[test]
fn trapped_instructions_decode() {
    assert_eq!(trapped_instruction_at(&vec![0xcc]), TrappedInstruction::Int3);
    assert_eq!(trapped_instruction_at(&vec![0x9c, 0x90]), TrappedInstruction::Pushf);
    assert_eq!(trapped_instruction_at(&vec![0xa5]), TrappedInstruction::String);
    assert_eq!(trapped_instruction_at(&vec![0x90, 0x90]), TrappedInstruction::NoTrap);
    assert_eq!(trapped_instruction_at(&vec![]), TrappedInstruction::NoTrap);
}

#[test]
fn value_bytes_are_little_endian() {
    assert_eq!(write_val_mem(0x0246, 2), vec![0x46, 0x02]);
    assert_eq!(write_val_mem(1, 1), vec![1]);
    assert_eq!(write_val_mem(0x1122_3344_5566_7788, 8), vec![0x88, 0x77, 0x66, 0x55, 0x44, 0x33, 0x22, 0x11]);
}
