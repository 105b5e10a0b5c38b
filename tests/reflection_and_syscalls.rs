use rd::kernel::{MemRange, SupportedArch};
use rd::ptrace_reflect::{
    classify_ptrace_request, process_ptrace, ptrace_get_regs_set, words_from_bytes, Reflection,
    ReflectAction, ReflectError, Regset,
};
use rd::registers::{Reg, Registers};
use rd::session::Statistics;
use rd::syscall_exit::{
    classify_syscall, iovec_write_ranges, on_syscall_exit, syscall_exit_effect, SyscallExitEffect,
    Sysno,
};
use rd::task::{AddressSpaceUid, Task, ThreadGroupUid};

fn regs64(sys_result: u64, a1: u64, a2: u64, a3: u64) -> Registers {
    let mut r = Registers::new(SupportedArch::X64);
    r.set(Reg::SyscallNo, sys_result);
    r.set(Reg::Arg1, a1);
    r.set(Reg::Arg2, a2);
    r.set(Reg::Arg3, a3);
    r
}

#[test]
fn classify_requests() {
    assert_eq!(classify_ptrace_request(13, 0, 0), Ok(Reflection::SetRegs));
    assert_eq!(classify_ptrace_request(0x4205, 0x202, 0), Ok(Reflection::SetRegset(Regset::Xstate)));
    assert_eq!(classify_ptrace_request(0x4205, 99, 0), Err(ReflectError::UnknownRegset));
    assert_eq!(classify_ptrace_request(30, 0, 0x1002), Ok(Reflection::ArchPrctlSet { fs: true }));
    assert_eq!(classify_ptrace_request(30, 0, 0x1003), Ok(Reflection::Nothing));
    assert_eq!(classify_ptrace_request(30, 0, 0x2000), Err(ReflectError::UnknownArchPrctlCode));
    assert_eq!(classify_ptrace_request(12, 0, 0), Ok(Reflection::Nothing));
}

#[test]
fn poke_user_writes_register_or_debug_register() {
    let mut r = Registers::new(SupportedArch::X64);
    // rip is word 16 of user_regs_struct
    assert_eq!(process_ptrace(SupportedArch::X64, 42, 6, 16 * 8, 0xabc, &vec![], &mut r), Ok(ReflectAction::Done));
    assert_eq!(r.ip(), 0xabc);
    // an unaligned offset changes nothing
    assert_eq!(process_ptrace(SupportedArch::X64, 42, 6, 16 * 8 + 1, 0xdef, &vec![], &mut r), Ok(ReflectAction::Done));
    assert_eq!(r.ip(), 0xabc);
    // u_debugreg[7]
    assert_eq!(
        process_ptrace(SupportedArch::X64, 42, 6, 848 + 7 * 8, 0x1, &vec![], &mut r),
        Ok(ReflectAction::SetDebugReg { regno: 7, value: 0x1 })
    );
    let mut r32 = Registers::new(SupportedArch::X86);
    assert_eq!(
        process_ptrace(SupportedArch::X86, 42, 6, 252 + 4 * 2, 0x5, &vec![], &mut r32),
        Ok(ReflectAction::SetDebugReg { regno: 2, value: 0x5 })
    );
}

#[test]
fn arch_prctl_sets_bases() {
    let mut r = Registers::new(SupportedArch::X64);
    assert_eq!(process_ptrace(SupportedArch::X64, 42, 30, 0x7000, 0x1002, &vec![], &mut r), Ok(ReflectAction::Done));
    assert_eq!(r.get(Reg::FsBase), 0x7000);
    assert_eq!(
        process_ptrace(SupportedArch::X64, 42, 30, 0, 0x1001, &vec![], &mut r),
        Ok(ReflectAction::ArchPrctlZeroBase { code: 0x1001 })
    );
    assert_eq!(r.get(Reg::GsBase), 0);
}

#[test]
fn setregs_from_bytes() {
    let mut bytes = vec![0u8; 27 * 8];
    bytes[16 * 8] = 0x34;
    bytes[16 * 8 + 1] = 0x12;
    let mut r = Registers::new(SupportedArch::X64);
    assert_eq!(process_ptrace(SupportedArch::X64, 42, 13, 0, 0, &bytes, &mut r), Ok(ReflectAction::Done));
    assert_eq!(r.ip(), 0x1234);
    // a register set read from a larger iovec uses its leading registers
    let mut longer = bytes.clone();
    longer.extend_from_slice(&[0xff; 16]);
    let mut r2 = Registers::new(SupportedArch::X64);
    assert_eq!(process_ptrace(SupportedArch::X64, 42, 0x4205, 1, 0, &longer, &mut r2), Ok(ReflectAction::Done));
    assert_eq!(r2.ip(), 0x1234);
    let w = words_from_bytes(SupportedArch::X86, &vec![1, 0, 0, 0, 2, 0, 0, 1].into_iter().chain(std::iter::repeat(0).take(60)).collect());
    assert_eq!(w.len(), 17);
    assert_eq!(w[0], 1);
    assert_eq!(w[1], 0x0100_0002);
}

#[test]
fn setregs_from_x86_into_x64_snapshot() {
    let mut bytes = vec![0u8; 17 * 4];
    bytes[12 * 4] = 0x78; // eip
    let mut r = Registers::new(SupportedArch::X64);
    r.set(Reg::Arg4, 0x55);
    process_ptrace(SupportedArch::X86, 42, 13, 0, 0, &bytes, &mut r).unwrap();
    assert_eq!(r.ip(), 0x78);
    assert_eq!(r.get(Reg::Arg4), 0x55);
}

#[test]
fn fp_requests_are_handed_back() {
    let mut r = Registers::new(SupportedArch::X64);
    assert_eq!(
        process_ptrace(SupportedArch::X64, 42, 0x4205, 2, 0, &vec![1, 2, 3], &mut r),
        Ok(ReflectAction::SetExtraRegs {
            kind: Reflection::SetRegset(Regset::Fpregset),
            subordinate: 42,
            data: vec![1, 2, 3],
        })
    );
    assert_eq!(
        process_ptrace(SupportedArch::X64, 42, 15, 0, 0x9000, &vec![7; 512], &mut r),
        Ok(ReflectAction::SetExtraRegs { kind: Reflection::SetFpRegs, subordinate: 42, data: vec![7; 512] })
    );
    assert_eq!(process_ptrace(SupportedArch::X64, 42, 0x4205, 7, 0, &vec![], &mut r), Err(ReflectError::UnknownRegset));
}

#[test]
fn regset_iovec_must_be_large_enough() {
    assert_eq!(ptrace_get_regs_set(0x1000, 216, 216), Ok((0x1000, 216)));
    assert_eq!(ptrace_get_regs_set(0x1000, 100, 216), Err(ReflectError::RegsetTooSmall));
}

#[test]
fn syscall_numbers() {
    assert_eq!(classify_syscall(SupportedArch::X64, 10), Some(Sysno::Mprotect));
    assert_eq!(classify_syscall(SupportedArch::X86, 125), Some(Sysno::Mprotect));
    assert_eq!(classify_syscall(SupportedArch::X64, 192), None);
    assert_eq!(classify_syscall(SupportedArch::X86, 192), Some(Sysno::Mmap2));
}

#[test]
fn mprotect_and_munmap_effects() {
    let r = regs64(0, 0x1000, 0x2000, 1);
    assert_eq!(syscall_exit_effect(SupportedArch::X64, 10, &r, true), SyscallExitEffect::Protect { addr: 0x1000, len: 0x2000, prot: 1 });
    assert_eq!(syscall_exit_effect(SupportedArch::X64, 11, &r, true), SyscallExitEffect::Unmap { addr: 0x1000, len: 0x2000 });
    assert_eq!(syscall_exit_effect(SupportedArch::X64, 9, &r, true), SyscallExitEffect::Nothing);
    // a failed mprotect may still have changed protections
    let failed = regs64((-22i64) as u64, 0x1000, 0x2000, 1);
    assert_eq!(syscall_exit_effect(SupportedArch::X64, 10, &failed, true), SyscallExitEffect::Protect { addr: 0x1000, len: 0x2000, prot: 1 });
    assert_eq!(syscall_exit_effect(SupportedArch::X64, 11, &failed, true), SyscallExitEffect::Nothing);
}

#[test]
fn skipped_syscall_is_ignored() {
    let mut r = regs64(0, 0x1000, 0x2000, 1);
    r.set(Reg::OrigSyscallNo, (-2i64) as u64);
    assert_eq!(syscall_exit_effect(SupportedArch::X64, 10, &r, true), SyscallExitEffect::Nothing);
}

#[test]
fn descriptor_effects() {
    let r = regs64(7, 3, 0, 0);
    assert_eq!(syscall_exit_effect(SupportedArch::X64, 32, &r, true), SyscallExitEffect::Dup { from: 3, to: 7 });
    let f = regs64(8, 3, 1030, 0);
    assert_eq!(syscall_exit_effect(SupportedArch::X64, 72, &f, true), SyscallExitEffect::Dup { from: 3, to: 8 });
    assert_eq!(syscall_exit_effect(SupportedArch::X64, 3, &r, true), SyscallExitEffect::Close { fd: 3 });
    let u = regs64(0, 0x400, 0, 0);
    assert_eq!(syscall_exit_effect(SupportedArch::X64, 272, &u, true), SyscallExitEffect::UnshareFiles);
}

#[test]
fn prctl_effects() {
    let seccomp = regs64(0, 22, 2, 0);
    assert_eq!(syscall_exit_effect(SupportedArch::X64, 157, &seccomp, true), SyscallExitEffect::EnableSeccompBpf);
    assert_eq!(syscall_exit_effect(SupportedArch::X64, 157, &seccomp, false), SyscallExitEffect::Nothing);
    let name = regs64(0, 15, 0x9000, 0);
    assert_eq!(syscall_exit_effect(SupportedArch::X64, 157, &name, true), SyscallExitEffect::UpdatePrname { addr: 0x9000 });
}

#[test]
fn write_effects() {
    let w = regs64(5, 1, 0x4000, 10);
    assert_eq!(
        syscall_exit_effect(SupportedArch::X64, 1, &w, true),
        SyscallExitEffect::Write { fd: 1, range: Some(MemRange { addr: 0x4000, len: 5 }) }
    );
    let none = regs64(0, 1, 0x4000, 10);
    assert_eq!(syscall_exit_effect(SupportedArch::X64, 1, &none, true), SyscallExitEffect::Write { fd: 1, range: None });
    let v = regs64(12, 4, 0x5000, 3);
    assert_eq!(syscall_exit_effect(SupportedArch::X64, 20, &v, true), SyscallExitEffect::WriteV { fd: 4, iov: 0x5000, count: 3, written: 12 });
    let iovs = vec![
        MemRange { addr: 0x100, len: 5 },
        MemRange { addr: 0x200, len: 0 },
        MemRange { addr: 0x300, len: 10 },
        MemRange { addr: 0x400, len: 10 },
    ];
    assert_eq!(iovec_write_ranges(&iovs, 12), vec![MemRange { addr: 0x100, len: 5 }, MemRange { addr: 0x300, len: 7 }]);
    assert_eq!(iovec_write_ranges(&iovs, 0), vec![]);
}

#[test]
fn ipc_shmdt_on_x86() {
    let mut r = Registers::new(SupportedArch::X86);
    r.set(Reg::Arg1, 22);
    r.set(Reg::Arg5, 0x8000);
    assert_eq!(syscall_exit_effect(SupportedArch::X86, 117, &r, true), SyscallExitEffect::Shmdt { addr: 0x8000 });
}

#[test]
fn syscall_exit_counts_and_notes_seccomp() {
    let vm = AddressSpaceUid { tid: 1, serial: 1, exec_count: 0 };
    let tg = ThreadGroupUid { tid: 1, serial: 1 };
    let mut t = Task::new(1, 1, 1, SupportedArch::X64, vm, tg);
    let mut stats = Statistics::new();
    let e = on_syscall_exit(&mut t, &mut stats, 157, &regs64(0, 22, 2, 0), true);
    assert_eq!(e, SyscallExitEffect::EnableSeccompBpf);
    assert!(t.seccomp_bpf_enabled);
    assert_eq!(stats.syscalls_performed, 1);
}
