use rd::kernel::{arch_for_access_rights, cpu_has_knl_string_singlestep_bug_init, SupportedArch};
use rd::registers::{Reg, Registers};
use rd::wait_status::{WaitKind, WaitStatus};

#[test]
fn x64_registers_set_and_get() {
    let mut r = Registers::new(SupportedArch::X64);
    r.set(Reg::Ip, 0x7fff_0000_1234);
    r.set(Reg::Cx, 100);
    assert_eq!(r.ip(), 0x7fff_0000_1234);
    assert_eq!(r.cx(), 100);
    assert_eq!(r.words[16], 0x7fff_0000_1234);
    assert_eq!(r.words[11], 100);
    // x86-64 has no slot shared between cx and arg2
    assert_eq!(r.get(Reg::Arg2), 0);
}

#[test]
fn x86_registers_truncate_to_32_bits() {
    let mut r = Registers::new(SupportedArch::X86);
    r.set(Reg::Ip, 0x1_2345_6789);
    assert_eq!(r.ip(), 0x2345_6789);
    // ecx carries both cx and the second syscall argument
    r.set(Reg::Cx, 7);
    assert_eq!(r.get(Reg::Arg2), 7);
    // x86 has no fs base register
    r.set(Reg::FsBase, 5);
    assert_eq!(r.get(Reg::FsBase), 0);
}

#[test]
fn native_round_trip_x86() {
    let mut r = Registers::new(SupportedArch::X86);
    r.set(Reg::Ip, 0x0804_8000);
    r.set(Reg::Sp, 0xbfff_f000);
    r.set(Reg::SyscallNo, 4);
    let n = r.to_native();
    assert_eq!(n.len(), 27);
    assert_eq!(n[16], 0x0804_8000);
    assert_eq!(n[19], 0xbfff_f000);
    let back = Registers::from_native(SupportedArch::X86, &n);
    assert_eq!(back.words, r.words);
}

#[test]
fn native_round_trip_x64() {
    let mut r = Registers::new(SupportedArch::X64);
    r.set(Reg::Ip, 0x40_1000);
    r.set(Reg::GsBase, 0xdead);
    let back = Registers::from_native(SupportedArch::X64, &r.to_native());
    assert_eq!(back.words, r.words);
}

#[test]
fn syscall_failure_window() {
    let mut r = Registers::new(SupportedArch::X64);
    r.set(Reg::SyscallNo, (-2i64) as u64);
    assert!(r.syscall_failed());
    assert_eq!(r.syscall_result_signed(), -2);
    r.set(Reg::SyscallNo, (-4096i64) as u64);
    assert!(!r.syscall_failed());
    r.set(Reg::SyscallNo, 3);
    assert!(!r.syscall_failed());
    let mut r32 = Registers::new(SupportedArch::X86);
    r32.set(Reg::SyscallNo, 0xffff_fff2);
    assert_eq!(r32.syscall_result_signed(), -14);
    assert!(r32.syscall_failed());
}

#[test]
fn clear_singlestep_flag_keeps_other_flags() {
    let mut r = Registers::new(SupportedArch::X64);
    r.set(Reg::Flags, 0x346);
    assert!(r.singlestep_flag());
    r.clear_singlestep_flag();
    assert_eq!(r.get(Reg::Flags), 0x246);
    assert!(!r.singlestep_flag());
}

#[test]
fn long_mode_segment_decides_arch() {
    assert_eq!(arch_for_access_rights(0x00a0_fb00), SupportedArch::X64);
    assert_eq!(arch_for_access_rights(0x00c0_fb00), SupportedArch::X86);
    assert_eq!(arch_for_access_rights(1 << 21), SupportedArch::X64);
    assert_eq!(arch_for_access_rights(0), SupportedArch::X86);
}

#[test]
fn knl_cpuid_signature() {
    assert!(cpu_has_knl_string_singlestep_bug_init(0x0005_0671));
    assert!(cpu_has_knl_string_singlestep_bug_init(0x0005_0670 | 0xF000_000F));
    assert!(!cpu_has_knl_string_singlestep_bug_init(0x0005_06e3));
    assert!(!cpu_has_knl_string_singlestep_bug_init(0));
}

#[test]
fn wait_status_decoding() {
    assert_eq!(WaitStatus::new(0x0300).kind(), Some(WaitKind::Exited(3)));
    assert_eq!(WaitStatus::new(9).kind(), Some(WaitKind::FatalSig(9)));
    assert_eq!(WaitStatus::new(0x057f).kind(), Some(WaitKind::StopSig(5)));
    assert_eq!(WaitStatus::new(0x857f).kind(), Some(WaitKind::SyscallStop));
    assert_eq!(WaitStatus::new(0x8013_7f).kind(), Some(WaitKind::GroupStop(19)));
    assert_eq!(WaitStatus::new(0x6057f).kind(), Some(WaitKind::PtraceEvent(6)));
    assert_eq!(WaitStatus::new(0xff).kind(), None);
    assert_eq!(WaitStatus::new(0x057f).maybe_stop_sig(), 5);
    assert_eq!(WaitStatus::new(0x6057f).maybe_ptrace_event(), 6);
    assert_eq!(WaitStatus::new(0x8013_7f).maybe_group_stop_sig(), 19);
    assert_eq!(WaitStatus::new(9).fatal_sig(), 9);
}

#[test]
fn wait_status_constructors_round_trip() {
    assert_eq!(WaitStatus::for_exit_code(42).kind(), Some(WaitKind::Exited(42)));
    assert_eq!(WaitStatus::for_fatal_sig(9).kind(), Some(WaitKind::FatalSig(9)));
    assert_eq!(WaitStatus::for_stop_sig(16).kind(), Some(WaitKind::StopSig(16)));
    assert_eq!(WaitStatus::for_group_sig(19).kind(), Some(WaitKind::GroupStop(19)));
    assert_eq!(WaitStatus::for_syscall().kind(), Some(WaitKind::SyscallStop));
    assert_eq!(WaitStatus::for_ptrace_event(6).kind(), Some(WaitKind::PtraceEvent(6)));
    assert_eq!(WaitStatus::for_ptrace_event(6).raw, 0x6057f);
}
