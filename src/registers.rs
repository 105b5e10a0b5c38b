//! General-purpose register snapshots.
//!
//! A snapshot holds the words of the architecture's `user_regs_struct` in
//! kernel order: 17 words of 32 bits for x86, 27 words of 64 bits for x86-64.
//! The tracer itself is 64-bit, so ptrace always hands out the 27-word x86-64
//! layout ("native" below); an x86 snapshot is converted to and from it.

use vstd::prelude::*;
use crate::kernel::{SupportedArch, X86_TF_FLAG};

verus! {

/// The registers the tracee-control logic reads or writes by name.
#[derive(Clone, Copy, Debug, PartialEq, Eq, Structural)]
pub enum Reg {
    Ip,
    Sp,
    Cx,
    /// Syscall number on entry, syscall result on exit (`ax`).
    SyscallNo,
    OrigSyscallNo,
    Flags,
    Cs,
    Arg1,
    Arg2,
    Arg3,
    Arg4,
    Arg5,
    Arg6,
    FsBase,
    GsBase,
}

pub const NATIVE_WORDS: usize = 27;
pub const X86_WORDS: usize = 17;

/// Number of words in a snapshot for `arch`.
pub open spec fn nwords(arch: SupportedArch) -> nat {
    match arch {
        SupportedArch::X86 => X86_WORDS as nat,
        SupportedArch::X64 => NATIVE_WORDS as nat,
    }
}

/// Position of register `r` in the `user_regs_struct` of `arch`, if it has one.
pub open spec fn reg_slot(arch: SupportedArch, r: Reg) -> Option<usize> {
    match arch {
        SupportedArch::X64 => Some(
            match r {
                Reg::Ip => 16usize,
                Reg::Sp => 19,
                Reg::Cx => 11,
                Reg::SyscallNo => 10,
                Reg::OrigSyscallNo => 15,
                Reg::Flags => 18,
                Reg::Cs => 17,
                Reg::Arg1 => 14,
                Reg::Arg2 => 13,
                Reg::Arg3 => 12,
                Reg::Arg4 => 7,
                Reg::Arg5 => 9,
                Reg::Arg6 => 8,
                Reg::FsBase => 21,
                Reg::GsBase => 22,
            },
        ),
        SupportedArch::X86 => match r {
            Reg::Ip => Some(12usize),
            Reg::Sp => Some(15),
            Reg::Cx => Some(1),
            Reg::SyscallNo => Some(6),
            Reg::OrigSyscallNo => Some(11),
            Reg::Flags => Some(14),
            Reg::Cs => Some(13),
            Reg::Arg1 => Some(0),
            Reg::Arg2 => Some(1),
            Reg::Arg3 => Some(2),
            Reg::Arg4 => Some(3),
            Reg::Arg5 => Some(4),
            Reg::Arg6 => Some(5),
            Reg::FsBase => None,
            Reg::GsBase => None,
        },
    }
}

pub fn slot_of(arch: SupportedArch, r: Reg) -> (s: Option<usize>)
    ensures
        s == reg_slot(arch, r),
        s is Some ==> s->0 < nwords(arch),
{
    match arch {
        SupportedArch::X64 => Some(
            match r {
                Reg::Ip => 16usize,
                Reg::Sp => 19,
                Reg::Cx => 11,
                Reg::SyscallNo => 10,
                Reg::OrigSyscallNo => 15,
                Reg::Flags => 18,
                Reg::Cs => 17,
                Reg::Arg1 => 14,
                Reg::Arg2 => 13,
                Reg::Arg3 => 12,
                Reg::Arg4 => 7,
                Reg::Arg5 => 9,
                Reg::Arg6 => 8,
                Reg::FsBase => 21,
                Reg::GsBase => 22,
            },
        ),
        SupportedArch::X86 => match r {
            Reg::Ip => Some(12usize),
            Reg::Sp => Some(15),
            Reg::Cx => Some(1),
            Reg::SyscallNo => Some(6),
            Reg::OrigSyscallNo => Some(11),
            Reg::Flags => Some(14),
            Reg::Cs => Some(13),
            Reg::Arg1 => Some(0),
            Reg::Arg2 => Some(1),
            Reg::Arg3 => Some(2),
            Reg::Arg4 => Some(3),
            Reg::Arg5 => Some(4),
            Reg::Arg6 => Some(5),
            Reg::FsBase => None,
            Reg::GsBase => None,
        },
    }
}

/// Where word `i` of an x86 snapshot sits in the native layout.
pub open spec fn x86_native_slot(i: int) -> int {
    if i == 0 { 5 }          // ebx <- rbx
    else if i == 1 { 11 }    // ecx <- rcx
    else if i == 2 { 12 }    // edx <- rdx
    else if i == 3 { 13 }    // esi <- rsi
    else if i == 4 { 14 }    // edi <- rdi
    else if i == 5 { 4 }     // ebp <- rbp
    else if i == 6 { 10 }    // eax <- rax
    else if i == 7 { 23 }    // xds <- ds
    else if i == 8 { 24 }    // xes <- es
    else if i == 9 { 25 }    // xfs <- fs
    else if i == 10 { 26 }   // xgs <- gs
    else if i == 11 { 15 }   // orig_eax <- orig_rax
    else if i == 12 { 16 }   // eip <- rip
    else if i == 13 { 17 }   // xcs <- cs
    else if i == 14 { 18 }   // eflags <- eflags
    else if i == 15 { 19 }   // esp <- rsp
    else { 20 }              // xss <- ss
}

pub fn native_slot_of_x86(i: usize) -> (r: usize)
    requires
        i < X86_WORDS,
    ensures
        r as int == x86_native_slot(i as int),
        r < NATIVE_WORDS,
{
    if i == 0 { 5 }
    else if i == 1 { 11 }
    else if i == 2 { 12 }
    else if i == 3 { 13 }
    else if i == 4 { 14 }
    else if i == 5 { 4 }
    else if i == 6 { 10 }
    else if i == 7 { 23 }
    else if i == 8 { 24 }
    else if i == 9 { 25 }
    else if i == 10 { 26 }
    else if i == 11 { 15 }
    else if i == 12 { 16 }
    else if i == 13 { 17 }
    else if i == 14 { 18 }
    else if i == 15 { 19 }
    else { 20 }
}

/// The value a register of `arch` holds after being assigned `v`.
pub open spec fn word_of(arch: SupportedArch, v: u64) -> u64 {
    match arch {
        SupportedArch::X86 => (v % 0x1_0000_0000) as u64,
        SupportedArch::X64 => v,
    }
}

fn truncate_word(arch: SupportedArch, v: u64) -> (r: u64)
    ensures
        r == word_of(arch, v),
{
    match arch {
        SupportedArch::X86 => v % 0x1_0000_0000,
        SupportedArch::X64 => v,
    }
}

/// Value of register `r` in the snapshot view `v` (zero for one the
/// architecture lacks).
pub open spec fn view_value(v: (SupportedArch, Seq<u64>), r: Reg) -> u64 {
    match reg_slot(v.0, r) {
        Some(i) => v.1[i as int],
        None => 0,
    }
}

/// The snapshot view `v` after assigning `x` to register `r`.
pub open spec fn view_with(v: (SupportedArch, Seq<u64>), r: Reg, x: u64) -> (SupportedArch, Seq<u64>) {
    match reg_slot(v.0, r) {
        Some(i) => (v.0, v.1.update(i as int, word_of(v.0, x))),
        None => v,
    }
}

/// A snapshot of the general-purpose registers of one tracee thread.
#[derive(Clone, Debug)]
pub struct Registers {
    pub arch: SupportedArch,
    pub words: Vec<u64>,
}

impl View for Registers {
    type V = (SupportedArch, Seq<u64>);

    open spec fn view(&self) -> (SupportedArch, Seq<u64>) {
        (self.arch, self.words@)
    }
}

impl Registers {
    /// An independent copy of this snapshot.
    pub fn snapshot(&self) -> (r: Registers)
        ensures
            r@ == self@,
            r.arch == self.arch,
            r.words@ == self.words@,
    {
        Registers { arch: self.arch, words: self.words.clone() }
    }

    /// The snapshot has its architecture's number of words, each of the
    /// architecture's width.
    pub open spec fn wf(&self) -> bool {
        &&& self.words@.len() == nwords(self.arch)
        &&& forall|i: int|
            0 <= i < self.words@.len() ==> #[trigger] self.words@[i] == word_of(
                self.arch,
                self.words@[i],
            )
    }

    /// The value of register `r` (zero for one the architecture lacks).
    pub open spec fn value(&self, r: Reg) -> u64 {
        view_value(self@, r)
    }

    /// The words after assigning `v` to register `r`.
    pub open spec fn words_with(&self, r: Reg, v: u64) -> Seq<u64> {
        view_with(self@, r, v).1
    }

    /// All-zero registers for `arch`.
    pub fn new(arch: SupportedArch) -> (r: Registers)
        ensures
            r.wf(),
            r.arch == arch,
            forall|i: int| 0 <= i < r.words@.len() ==> r.words@[i] == 0,
    {
        let n: usize = match arch {
            SupportedArch::X86 => X86_WORDS,
            SupportedArch::X64 => NATIVE_WORDS,
        };
        let mut words: Vec<u64> = Vec::new();
        let mut i: usize = 0;
        while i < n
            invariant
                i <= n,
                words@.len() == i,
                forall|j: int| 0 <= j < i ==> words@[j] == 0,
            decreases n - i,
        {
            words.push(0);
            i += 1;
        }
        let r = Registers { arch, words };
        assert forall|j: int| 0 <= j < r.words@.len() implies #[trigger] r.words@[j] == word_of(
            arch,
            r.words@[j],
        ) by {}
        r
    }

    pub fn arch(&self) -> (a: SupportedArch)
        ensures
            a == self.arch,
    {
        self.arch
    }

    /// Read register `r`.
    pub fn get(&self, r: Reg) -> (v: u64)
        requires
            self.wf(),
        ensures
            v == self.value(r),
    {
        match slot_of(self.arch, r) {
            Some(i) => self.words[i],
            None => 0,
        }
    }

    /// Assign `v` to register `r`, truncated to the register width; a
    /// register the architecture lacks is left alone.
    pub fn set(&mut self, r: Reg, v: u64)
        requires
            old(self).wf(),
        ensures
            final(self).wf(),
            final(self).arch == old(self).arch,
            final(self).words@ == old(self).words_with(r, v),
    {
        match slot_of(self.arch, r) {
            Some(i) => {
                let w = truncate_word(self.arch, v);
                self.words.set(i, w);
                assert forall|j: int| 0 <= j < self.words@.len() implies #[trigger] self.words@[j]
                    == word_of(self.arch, self.words@[j]) by {
                    if j != i as int {
                        assert(old(self).words@[j] == word_of(self.arch, old(self).words@[j]));
                    }
                }
            },
            None => {},
        }
    }

    pub fn ip(&self) -> (v: u64)
        requires
            self.wf(),
        ensures
            v == self.value(Reg::Ip),
    {
        self.get(Reg::Ip)
    }

    pub fn sp(&self) -> (v: u64)
        requires
            self.wf(),
        ensures
            v == self.value(Reg::Sp),
    {
        self.get(Reg::Sp)
    }

    pub fn cx(&self) -> (v: u64)
        requires
            self.wf(),
        ensures
            v == self.value(Reg::Cx),
    {
        self.get(Reg::Cx)
    }

    pub fn original_syscallno(&self) -> (v: u64)
        requires
            self.wf(),
        ensures
            v == self.value(Reg::OrigSyscallNo),
    {
        self.get(Reg::OrigSyscallNo)
    }

    /// Whether the trap flag is set in the flags register.
    pub open spec fn spec_singlestep_flag(&self) -> bool {
        self.value(Reg::Flags) & X86_TF_FLAG != 0
    }

    pub fn singlestep_flag(&self) -> (b: bool)
        requires
            self.wf(),
        ensures
            b == self.spec_singlestep_flag(),
    {
        self.get(Reg::Flags) & X86_TF_FLAG != 0
    }

    /// Clear the trap flag, leaving every other flag as it was.
    pub fn clear_singlestep_flag(&mut self)
        requires
            old(self).wf(),
        ensures
            final(self).wf(),
            final(self).arch == old(self).arch,
            final(self).words@ == old(self).words_with(
                Reg::Flags,
                old(self).value(Reg::Flags) & !X86_TF_FLAG,
            ),
    {
        let f = self.get(Reg::Flags);
        self.set(Reg::Flags, f & !X86_TF_FLAG);
    }

    /// Signed view of a register word of `arch`.
    pub open spec fn signed(arch: SupportedArch, w: u64) -> int {
        match arch {
            SupportedArch::X86 => if (w as int) % 0x1_0000_0000 >= 0x8000_0000 {
                (w as int) % 0x1_0000_0000 - 0x1_0000_0000
            } else {
                (w as int) % 0x1_0000_0000
            },
            SupportedArch::X64 => if w >= 0x8000_0000_0000_0000 {
                w - 0x1_0000_0000_0000_0000
            } else {
                w as int
            },
        }
    }

    /// The syscall result register read as a signed value.
    pub fn syscall_result_signed(&self) -> (v: i64)
        requires
            self.wf(),
        ensures
            v as int == Self::signed(self.arch, self.value(Reg::SyscallNo)),
    {
        let w = self.get(Reg::SyscallNo);
        match self.arch {
            SupportedArch::X86 => {
                let w32 = w % 0x1_0000_0000;
                if w32 >= 0x8000_0000 {
                    w32 as i64 - 0x1_0000_0000i64
                } else {
                    w32 as i64
                }
            },
            SupportedArch::X64 => {
                if w >= 0x8000_0000_0000_0000 {
                    -((u64::MAX - w) as i64) - 1
                } else {
                    w as i64
                }
            },
        }
    }

    /// A syscall failed when its result lies in (-4096, 0).
    pub open spec fn spec_syscall_failed(&self) -> bool {
        let r = Self::signed(self.arch, self.value(Reg::SyscallNo));
        -4096 < r && r < 0
    }

    pub fn syscall_failed(&self) -> (b: bool)
        requires
            self.wf(),
        ensures
            b == self.spec_syscall_failed(),
    {
        let r = self.syscall_result_signed();
        -4096 < r && r < 0
    }

    /// The snapshot of `arch` that the native words `native` describe.
    pub open spec fn spec_from_native(arch: SupportedArch, native: Seq<u64>) -> Seq<u64> {
        match arch {
            SupportedArch::X64 => native,
            SupportedArch::X86 => Seq::new(
                X86_WORDS as nat,
                |i: int| word_of(SupportedArch::X86, native[x86_native_slot(i)]),
            ),
        }
    }

    /// Build the snapshot of `arch` from the words PTRACE_GETREGS returned.
    pub fn from_native(arch: SupportedArch, native: &Vec<u64>) -> (r: Registers)
        requires
            native@.len() == NATIVE_WORDS,
        ensures
            r.wf(),
            r.arch == arch,
            r.words@ == Self::spec_from_native(arch, native@),
    {
        match arch {
            SupportedArch::X64 => {
                let r = Registers { arch, words: native.clone() };
                assert(r.words@ =~= native@);
                r
            },
            SupportedArch::X86 => {
                let mut words: Vec<u64> = Vec::new();
                let mut i: usize = 0;
                while i < X86_WORDS
                    invariant
                        i <= X86_WORDS,
                        native@.len() == NATIVE_WORDS,
                        words@.len() == i,
                        forall|j: int|
                            0 <= j < i ==> words@[j] == word_of(
                                SupportedArch::X86,
                                native@[x86_native_slot(j)],
                            ),
                    decreases X86_WORDS - i,
                {
                    let s = native_slot_of_x86(i);
                    words.push(truncate_word(SupportedArch::X86, native[s]));
                    i += 1;
                }
                let r = Registers { arch, words };
                assert(r.words@ =~= Self::spec_from_native(arch, native@));
                r
            },
        }
    }

    /// The native words that PTRACE_SETREGS is given for this snapshot; the
    /// native registers an x86 tracee cannot see are zero.
    pub fn to_native(&self) -> (n: Vec<u64>)
        requires
            self.wf(),
        ensures
            n@.len() == NATIVE_WORDS,
            self.arch == SupportedArch::X64 ==> n@ == self.words@,
            self.arch == SupportedArch::X86 ==> forall|i: int|
                0 <= i < X86_WORDS ==> n@[x86_native_slot(i)] == self.words@[i],
    {
        match self.arch {
            SupportedArch::X64 => self.words.clone(),
            SupportedArch::X86 => {
                let mut n: Vec<u64> = Vec::new();
                let mut k: usize = 0;
                while k < NATIVE_WORDS
                    invariant
                        k <= NATIVE_WORDS,
                        n@.len() == k,
                    decreases NATIVE_WORDS - k,
                {
                    n.push(0);
                    k += 1;
                }
                let mut i: usize = 0;
                while i < X86_WORDS
                    invariant
                        i <= X86_WORDS,
                        self.wf(),
                        self.arch == SupportedArch::X86,
                        n@.len() == NATIVE_WORDS,
                        forall|j: int| 0 <= j < i ==> n@[x86_native_slot(j)] == self.words@[j],
                    decreases X86_WORDS - i,
                {
                    let s = native_slot_of_x86(i);
                    n.set(s, self.words[i]);
                    i += 1;
                }
                n
            },
        }
    }
}

/// Handing a snapshot to the kernel and reading it back gives the same
/// snapshot: whatever native words `to_native` produces for `r`,
/// `from_native` turns them back into `r`.
pub proof fn lemma_native_round_trip(r: Registers, n: Seq<u64>)
    requires
        r.wf(),
        n.len() == NATIVE_WORDS,
        r.arch == SupportedArch::X64 ==> n == r.words@,
        r.arch == SupportedArch::X86 ==> forall|i: int|
            0 <= i < X86_WORDS ==> n[x86_native_slot(i)] == r.words@[i],
    ensures
        Registers::spec_from_native(r.arch, n) == r.words@,
{
    if r.arch == SupportedArch::X86 {
        assert(Registers::spec_from_native(r.arch, n) =~= r.words@);
    }
}

} // verus!
