//! Mirroring the effect of a finished syscall into the tracer's model of the
//! tracee: address-space changes, descriptor-table changes, thread areas,
//! process names, and writes that file monitors must see.

use vstd::prelude::*;
use crate::kernel::{MemRange, SupportedArch};
use crate::registers::{Reg, Registers};
use crate::session::Statistics;
use crate::task::Task;

verus! {

/// The syscalls whose exit the tracer mirrors.
#[derive(Clone, Copy, Debug, PartialEq, Eq, Structural)]
pub enum Sysno {
    Brk,
    Mmap,
    Mmap2,
    Mremap,
    Mprotect,
    MprotectRecord,
    Munmap,
    Shmdt,
    Madvise,
    Ipc,
    SetThreadArea,
    Prctl,
    Dup,
    Dup2,
    Dup3,
    Fcntl,
    Fcntl64,
    Close,
    Unshare,
    Pwrite64,
    Write,
    Pwritev,
    Writev,
    Ptrace,
}

/// Number of the preload library's private call that reports an mprotect it
/// performed on its own.
pub const RDCALL_MPROTECT_RECORD: i64 = 1005;

/// Syscall number of `s` on `arch`, if the architecture has that syscall.
pub open spec fn syscall_number(arch: SupportedArch, s: Sysno) -> Option<i64> {
    match arch {
        SupportedArch::X64 => match s {
            Sysno::Brk => Some(12i64),
            Sysno::Mmap => Some(9),
            Sysno::Mmap2 => None,
            Sysno::Mremap => Some(25),
            Sysno::Mprotect => Some(10),
            Sysno::MprotectRecord => Some(RDCALL_MPROTECT_RECORD),
            Sysno::Munmap => Some(11),
            Sysno::Shmdt => Some(67),
            Sysno::Madvise => Some(28),
            Sysno::Ipc => None,
            Sysno::SetThreadArea => Some(205),
            Sysno::Prctl => Some(157),
            Sysno::Dup => Some(32),
            Sysno::Dup2 => Some(33),
            Sysno::Dup3 => Some(292),
            Sysno::Fcntl => Some(72),
            Sysno::Fcntl64 => None,
            Sysno::Close => Some(3),
            Sysno::Unshare => Some(272),
            Sysno::Pwrite64 => Some(18),
            Sysno::Write => Some(1),
            Sysno::Pwritev => Some(296),
            Sysno::Writev => Some(20),
            Sysno::Ptrace => Some(101),
        },
        SupportedArch::X86 => match s {
            Sysno::Brk => Some(45i64),
            Sysno::Mmap => Some(90),
            Sysno::Mmap2 => Some(192),
            Sysno::Mremap => Some(163),
            Sysno::Mprotect => Some(125),
            Sysno::MprotectRecord => Some(RDCALL_MPROTECT_RECORD),
            Sysno::Munmap => Some(91),
            Sysno::Shmdt => Some(398),
            Sysno::Madvise => Some(219),
            Sysno::Ipc => Some(117),
            Sysno::SetThreadArea => Some(243),
            Sysno::Prctl => Some(172),
            Sysno::Dup => Some(41),
            Sysno::Dup2 => Some(63),
            Sysno::Dup3 => Some(330),
            Sysno::Fcntl => Some(55),
            Sysno::Fcntl64 => Some(221),
            Sysno::Close => Some(6),
            Sysno::Unshare => Some(310),
            Sysno::Pwrite64 => Some(181),
            Sysno::Write => Some(4),
            Sysno::Pwritev => Some(334),
            Sysno::Writev => Some(146),
            Sysno::Ptrace => Some(26),
        },
    }
}

/// Which of the mirrored syscalls has number `sys` on `arch`.
pub fn classify_syscall(arch: SupportedArch, sys: i64) -> (r: Option<Sysno>)
    ensures
        r is Some ==> syscall_number(arch, r->0) == Some(sys),
        r is None ==> forall|s: Sysno| syscall_number(arch, s) != Some(sys),
{
    let r = match arch {
        SupportedArch::X64 => match sys {
            12 => Some(Sysno::Brk),
            9 => Some(Sysno::Mmap),
            25 => Some(Sysno::Mremap),
            10 => Some(Sysno::Mprotect),
            1005 => Some(Sysno::MprotectRecord),
            11 => Some(Sysno::Munmap),
            67 => Some(Sysno::Shmdt),
            28 => Some(Sysno::Madvise),
            205 => Some(Sysno::SetThreadArea),
            157 => Some(Sysno::Prctl),
            32 => Some(Sysno::Dup),
            33 => Some(Sysno::Dup2),
            292 => Some(Sysno::Dup3),
            72 => Some(Sysno::Fcntl),
            3 => Some(Sysno::Close),
            272 => Some(Sysno::Unshare),
            18 => Some(Sysno::Pwrite64),
            1 => Some(Sysno::Write),
            296 => Some(Sysno::Pwritev),
            20 => Some(Sysno::Writev),
            101 => Some(Sysno::Ptrace),
            _ => None,
        },
        SupportedArch::X86 => match sys {
            45 => Some(Sysno::Brk),
            90 => Some(Sysno::Mmap),
            192 => Some(Sysno::Mmap2),
            163 => Some(Sysno::Mremap),
            125 => Some(Sysno::Mprotect),
            1005 => Some(Sysno::MprotectRecord),
            91 => Some(Sysno::Munmap),
            398 => Some(Sysno::Shmdt),
            219 => Some(Sysno::Madvise),
            117 => Some(Sysno::Ipc),
            243 => Some(Sysno::SetThreadArea),
            172 => Some(Sysno::Prctl),
            41 => Some(Sysno::Dup),
            63 => Some(Sysno::Dup2),
            330 => Some(Sysno::Dup3),
            55 => Some(Sysno::Fcntl),
            221 => Some(Sysno::Fcntl64),
            6 => Some(Sysno::Close),
            310 => Some(Sysno::Unshare),
            181 => Some(Sysno::Pwrite64),
            4 => Some(Sysno::Write),
            334 => Some(Sysno::Pwritev),
            146 => Some(Sysno::Writev),
            26 => Some(Sysno::Ptrace),
            _ => None,
        },
    };
    r
}

/// Original-syscall-number value that marks a syscall the seccomp filter
/// told the kernel to skip.
pub const SECCOMP_MAGIC_SKIP_ORIGINAL_SYSCALLNO: i64 = -2;

pub const SHMDT_IPC_CALL: u64 = 22;
pub const PR_SET_NAME: u64 = 15;
pub const PR_SET_SECCOMP: u64 = 22;
pub const SECCOMP_MODE_FILTER: u64 = 2;
pub const F_DUPFD: u64 = 0;
pub const F_DUPFD_CLOEXEC: u64 = 1030;
pub const CLONE_FILES: u64 = 0x400;

/// What the tracer's model must learn from a finished syscall.
#[derive(Clone, Copy, Debug, PartialEq, Eq, Structural)]
pub enum SyscallExitEffect {
    Nothing,
    /// The protection of `[addr, addr + len)` became `prot`.
    Protect { addr: u64, len: u64, prot: u64 },
    Unmap { addr: u64, len: u64 },
    /// A System V shared segment attached at `addr` was detached.
    Shmdt { addr: u64 },
    Advise { addr: u64, len: u64, advice: u64 },
    /// A thread-area descriptor was installed from the `user_desc` at `addr`.
    SetThreadArea { addr: u64 },
    /// A seccomp-bpf filter was installed while recording.
    EnableSeccompBpf,
    /// The thread's name was set from the string at `addr`.
    UpdatePrname { addr: u64 },
    Dup { from: i32, to: i32 },
    Close { fd: i32 },
    /// The thread stopped sharing its descriptor table.
    UnshareFiles,
    /// `fd` was written from `range`, or not at all.
    Write { fd: i32, range: Option<MemRange> },
    /// `fd` was written `written` bytes from the `count` iovecs at `iov`.
    WriteV { fd: i32, iov: u64, count: u64, written: i64 },
    /// The tracee made a ptrace request to mirror.
    Ptrace,
}

/// The low 32 bits of a register word read as a signed descriptor.
pub open spec fn fd_of(w: u64) -> i32 {
    w as i32
}

/// Whether a finished syscall is skipped: nothing happened, or it failed and
/// is not one whose failure may still have changed protections.
pub open spec fn exit_ignored(arch: SupportedArch, sys: i64, regs: Registers) -> bool {
    ||| Registers::signed(arch, regs.value(Reg::OrigSyscallNo)) == SECCOMP_MAGIC_SKIP_ORIGINAL_SYSCALLNO
    ||| (regs.spec_syscall_failed() && syscall_number(arch, Sysno::Mprotect) != Some(sys) && sys
        != RDCALL_MPROTECT_RECORD)
}

/// The effect of syscall `sys` of `arch` that finished with registers
/// `regs`, when it is not ignored.
pub open spec fn spec_exit_effect(
    arch: SupportedArch,
    sys: i64,
    regs: Registers,
    recording: bool,
) -> SyscallExitEffect {
    let a1 = regs.value(Reg::Arg1);
    let a2 = regs.value(Reg::Arg2);
    let a3 = regs.value(Reg::Arg3);
    let res = regs.value(Reg::SyscallNo);
    let amount = Registers::signed(arch, res);
    if exit_ignored(arch, sys, regs) {
        SyscallExitEffect::Nothing
    } else if sys == RDCALL_MPROTECT_RECORD || syscall_number(arch, Sysno::Mprotect) == Some(sys) {
        SyscallExitEffect::Protect { addr: a1, len: a2, prot: a3 }
    } else if syscall_number(arch, Sysno::Munmap) == Some(sys) {
        SyscallExitEffect::Unmap { addr: a1, len: a2 }
    } else if syscall_number(arch, Sysno::Shmdt) == Some(sys) {
        SyscallExitEffect::Shmdt { addr: a1 }
    } else if syscall_number(arch, Sysno::Madvise) == Some(sys) {
        SyscallExitEffect::Advise { addr: a1, len: a2, advice: a3 }
    } else if syscall_number(arch, Sysno::Ipc) == Some(sys) && a1 == SHMDT_IPC_CALL {
        SyscallExitEffect::Shmdt { addr: regs.value(Reg::Arg5) }
    } else if syscall_number(arch, Sysno::SetThreadArea) == Some(sys) {
        SyscallExitEffect::SetThreadArea { addr: a1 }
    } else if syscall_number(arch, Sysno::Prctl) == Some(sys) && a1 == PR_SET_SECCOMP && a2
        == SECCOMP_MODE_FILTER && recording {
        SyscallExitEffect::EnableSeccompBpf
    } else if syscall_number(arch, Sysno::Prctl) == Some(sys) && a1 == PR_SET_NAME {
        SyscallExitEffect::UpdatePrname { addr: a2 }
    } else if syscall_number(arch, Sysno::Dup) == Some(sys) || syscall_number(arch, Sysno::Dup2)
        == Some(sys) || syscall_number(arch, Sysno::Dup3) == Some(sys) || ((syscall_number(
        arch,
        Sysno::Fcntl,
    ) == Some(sys) || syscall_number(arch, Sysno::Fcntl64) == Some(sys)) && (a2 == F_DUPFD || a2
        == F_DUPFD_CLOEXEC)) {
        SyscallExitEffect::Dup { from: fd_of(a1), to: fd_of(res) }
    } else if syscall_number(arch, Sysno::Close) == Some(sys) {
        SyscallExitEffect::Close { fd: fd_of(a1) }
    } else if syscall_number(arch, Sysno::Unshare) == Some(sys) && a1 & CLONE_FILES != 0 {
        SyscallExitEffect::UnshareFiles
    } else if syscall_number(arch, Sysno::Pwrite64) == Some(sys) || syscall_number(
        arch,
        Sysno::Write,
    ) == Some(sys) {
        SyscallExitEffect::Write {
            fd: fd_of(a1),
            range: if amount > 0 {
                Some(MemRange { addr: a2, len: amount as u64 })
            } else {
                None
            },
        }
    } else if syscall_number(arch, Sysno::Pwritev) == Some(sys) || syscall_number(
        arch,
        Sysno::Writev,
    ) == Some(sys) {
        SyscallExitEffect::WriteV { fd: fd_of(a1), iov: a2, count: a3, written: amount as i64 }
    } else if syscall_number(arch, Sysno::Ptrace) == Some(sys) {
        SyscallExitEffect::Ptrace
    } else {
        SyscallExitEffect::Nothing
    }
}

/// What the tracer's model must learn from syscall `sys` of `arch` that just
/// finished with registers `regs`; `recording` tells whether the session
/// records.
#[verifier::rlimit(30)]
pub fn syscall_exit_effect(arch: SupportedArch, sys: i64, regs: &Registers, recording: bool) -> (e:
    SyscallExitEffect)
    requires
        regs.wf(),
        regs.arch == arch,
    ensures
        e == spec_exit_effect(arch, sys, *regs, recording),
{
    let orig = regs.get(Reg::OrigSyscallNo);
    let orig_signed: i64 = match arch {
        SupportedArch::X86 => {
            let w32 = orig % 0x1_0000_0000;
            if w32 >= 0x8000_0000 {
                w32 as i64 - 0x1_0000_0000i64
            } else {
                w32 as i64
            }
        },
        SupportedArch::X64 => {
            if orig >= 0x8000_0000_0000_0000 {
                -((u64::MAX - orig) as i64) - 1
            } else {
                orig as i64
            }
        },
    };
    if orig_signed == SECCOMP_MAGIC_SKIP_ORIGINAL_SYSCALLNO {
        return SyscallExitEffect::Nothing;
    }
    let which = classify_syscall(arch, sys);
    if regs.syscall_failed() && which != Some(Sysno::Mprotect) && sys != RDCALL_MPROTECT_RECORD {
        return SyscallExitEffect::Nothing;
    }
    let a1 = regs.get(Reg::Arg1);
    let a2 = regs.get(Reg::Arg2);
    let a3 = regs.get(Reg::Arg3);
    let res = regs.get(Reg::SyscallNo);
    let amount = regs.syscall_result_signed();
    match which {
        None => {
            proof {
                assert(syscall_number(arch, Sysno::Mprotect) != Some(sys));
                assert(syscall_number(arch, Sysno::Munmap) != Some(sys));
                assert(syscall_number(arch, Sysno::Shmdt) != Some(sys));
                assert(syscall_number(arch, Sysno::Madvise) != Some(sys));
                assert(syscall_number(arch, Sysno::Ipc) != Some(sys));
                assert(syscall_number(arch, Sysno::SetThreadArea) != Some(sys));
                assert(syscall_number(arch, Sysno::Prctl) != Some(sys));
                assert(syscall_number(arch, Sysno::Dup) != Some(sys));
                assert(syscall_number(arch, Sysno::Dup2) != Some(sys));
                assert(syscall_number(arch, Sysno::Dup3) != Some(sys));
                assert(syscall_number(arch, Sysno::Fcntl) != Some(sys));
                assert(syscall_number(arch, Sysno::Fcntl64) != Some(sys));
                assert(syscall_number(arch, Sysno::Close) != Some(sys));
                assert(syscall_number(arch, Sysno::Unshare) != Some(sys));
                assert(syscall_number(arch, Sysno::Pwrite64) != Some(sys));
                assert(syscall_number(arch, Sysno::Write) != Some(sys));
                assert(syscall_number(arch, Sysno::Pwritev) != Some(sys));
                assert(syscall_number(arch, Sysno::Writev) != Some(sys));
                assert(syscall_number(arch, Sysno::Ptrace) != Some(sys));
                assert(syscall_number(arch, Sysno::MprotectRecord) != Some(sys));
            }
            SyscallExitEffect::Nothing
        },
        Some(s) => match s {
            Sysno::Brk | Sysno::Mmap | Sysno::Mmap2 | Sysno::Mremap => SyscallExitEffect::Nothing,
            Sysno::Mprotect | Sysno::MprotectRecord => SyscallExitEffect::Protect {
                addr: a1,
                len: a2,
                prot: a3,
            },
            Sysno::Munmap => SyscallExitEffect::Unmap { addr: a1, len: a2 },
            Sysno::Shmdt => SyscallExitEffect::Shmdt { addr: a1 },
            Sysno::Madvise => SyscallExitEffect::Advise { addr: a1, len: a2, advice: a3 },
            Sysno::Ipc => if a1 == SHMDT_IPC_CALL {
                SyscallExitEffect::Shmdt { addr: regs.get(Reg::Arg5) }
            } else {
                SyscallExitEffect::Nothing
            },
            Sysno::SetThreadArea => SyscallExitEffect::SetThreadArea { addr: a1 },
            Sysno::Prctl => if a1 == PR_SET_SECCOMP {
                if a2 == SECCOMP_MODE_FILTER && recording {
                    SyscallExitEffect::EnableSeccompBpf
                } else {
                    SyscallExitEffect::Nothing
                }
            } else if a1 == PR_SET_NAME {
                SyscallExitEffect::UpdatePrname { addr: a2 }
            } else {
                SyscallExitEffect::Nothing
            },
            Sysno::Dup | Sysno::Dup2 | Sysno::Dup3 => SyscallExitEffect::Dup {
                from: (#[verifier::truncate] (a1 as i32)),
                to: (#[verifier::truncate] (res as i32)),
            },
            Sysno::Fcntl | Sysno::Fcntl64 => if a2 == F_DUPFD || a2 == F_DUPFD_CLOEXEC {
                SyscallExitEffect::Dup { from: (#[verifier::truncate] (a1 as i32)), to: res as i32 }
            } else {
                SyscallExitEffect::Nothing
            },
            Sysno::Close => SyscallExitEffect::Close { fd: (#[verifier::truncate] (a1 as i32)) },
            Sysno::Unshare => if a1 & CLONE_FILES != 0 {
                SyscallExitEffect::UnshareFiles
            } else {
                SyscallExitEffect::Nothing
            },
            Sysno::Pwrite64 | Sysno::Write => SyscallExitEffect::Write {
                fd: (#[verifier::truncate] (a1 as i32)),
                range: if amount > 0 {
                    Some(MemRange { addr: a2, len: amount as u64 })
                } else {
                    None
                },
            },
            Sysno::Pwritev | Sysno::Writev => SyscallExitEffect::WriteV {
                fd: (#[verifier::truncate] (a1 as i32)),
                iov: a2,
                count: a3,
                written: amount,
            },
            Sysno::Ptrace => SyscallExitEffect::Ptrace,
        },
    }
}

/// The ranges a vectored write of `written` bytes covered, given its iovecs
/// `(base, len)` in order: each iovec contributes what was left of the total,
/// up to its length, and empty contributions are dropped.
pub open spec fn spec_iovec_ranges(iovs: Seq<MemRange>, written: int) -> Seq<MemRange>
    decreases iovs.len(),
{
    if iovs.len() == 0 {
        Seq::empty()
    } else {
        let amount = if written < iovs[0].len { written } else { iovs[0].len as int };
        if amount > 0 {
            seq![MemRange { addr: iovs[0].addr, len: amount as u64 }].add(
                spec_iovec_ranges(iovs.drop_first(), written - amount),
            )
        } else {
            spec_iovec_ranges(iovs.drop_first(), written - amount)
        }
    }
}

/// Compute the ranges that a vectored write of `written` bytes covered.
#[verifier::rlimit(30)]
pub fn iovec_write_ranges(iovs: &Vec<MemRange>, written: i64) -> (r: Vec<MemRange>)
    requires
        written >= 0,
    ensures
        r@ == spec_iovec_ranges(iovs@, written as int),
{
    let mut r: Vec<MemRange> = Vec::new();
    let mut left: i64 = written;
    let mut i: usize = 0;
    assert(iovs@.subrange(0, iovs@.len() as int) =~= iovs@);
    assert(r@.add(spec_iovec_ranges(iovs@, written as int)) =~= spec_iovec_ranges(
        iovs@,
        written as int,
    ));
    while i < iovs.len()
        invariant
            i <= iovs@.len(),
            0 <= left <= written,
            r@.add(spec_iovec_ranges(iovs@.subrange(i as int, iovs@.len() as int), left as int))
                == spec_iovec_ranges(iovs@, written as int),
        decreases iovs@.len() - i,
    {
        let ghost rest = iovs@.subrange(i as int, iovs@.len() as int);
        assert(rest.drop_first() =~= iovs@.subrange(i + 1, iovs@.len() as int));
        let v = iovs[i];
        let amount: i64 = if (left as u64) < v.len {
            left
        } else {
            v.len as i64
        };
        if amount > 0 {
            let ghost r0 = r@;
            r.push(MemRange { addr: v.addr, len: amount as u64 });
            proof {
                let tail = spec_iovec_ranges(rest.drop_first(), left - amount);
                assert(r@.add(tail) =~= r0.add(
                    seq![MemRange { addr: v.addr, len: amount as u64 }].add(tail),
                ));
            }
        }
        left = left - amount;
        i += 1;
    }
    assert(iovs@.subrange(i as int, iovs@.len() as int).len() == 0);
    assert(r@.add(Seq::empty()) =~= r@);
    r
}

/// Mirror the end of syscall `sys` of thread `t` that finished with
/// registers `regs`: count it, note an installed seccomp filter in the task,
/// and return what the rest of the model must learn.
pub fn on_syscall_exit(
    t: &mut Task,
    stats: &mut Statistics,
    sys: i64,
    regs: &Registers,
    recording: bool,
) -> (e: SyscallExitEffect)
    requires
        old(t).inv(),
        regs.wf(),
        old(stats).syscalls_performed < u32::MAX,
    ensures
        final(t).inv(),
        e == spec_exit_effect(regs.arch, sys, *regs, recording),
        *final(stats) == (Statistics {
            syscalls_performed: (old(stats).syscalls_performed + 1) as u32,
            ..*old(stats)
        }),
        *final(t) == (Task {
            seccomp_bpf_enabled: old(t).seccomp_bpf_enabled || e
                == SyscallExitEffect::EnableSeccompBpf,
            ..*old(t)
        }),
{
    stats.syscalls_performed = stats.syscalls_performed + 1;
    let e = syscall_exit_effect(regs.arch, sys, regs, recording);
    if e == SyscallExitEffect::EnableSeccompBpf {
        t.seccomp_bpf_enabled = true;
    }
    e
}

} // verus!
