//! Mirroring a tracee's own `ptrace` requests into the tracer's model of the
//! subordinate tracee it manipulated.
//!
//! When the recorded process calls `ptrace(request, pid, addr, data)` on a
//! thread that the tracer also controls, the request's effect on that thread's
//! registers is applied to the tracer's register snapshot of it, so that
//! replay reproduces it.

use vstd::prelude::*;
use crate::kernel::{spec_word_size, word_size, SupportedArch};
use crate::registers::{nwords, word_of, x86_native_slot, Reg, Registers, X86_WORDS};

verus! {

pub const PTRACE_POKEUSER: u64 = 6;
pub const PTRACE_SETREGS: u64 = 13;
pub const PTRACE_SETFPREGS: u64 = 15;
pub const PTRACE_SETFPXREGS: u64 = 19;
pub const PTRACE_ARCH_PRCTL: u64 = 30;
pub const PTRACE_SETREGSET: u64 = 0x4205;

pub const NT_PRSTATUS: u64 = 1;
pub const NT_FPREGSET: u64 = 2;
pub const NT_X86_XSTATE: u64 = 0x202;

pub const ARCH_SET_GS: u64 = 0x1001;
pub const ARCH_SET_FS: u64 = 0x1002;
pub const ARCH_GET_FS: u64 = 0x1003;
pub const ARCH_GET_GS: u64 = 0x1004;

/// Register set named by a PTRACE_SETREGSET request.
#[derive(Clone, Copy, Debug, PartialEq, Eq, Structural)]
pub enum Regset {
    Prstatus,
    Fpregset,
    Xstate,
}

/// What a tracee's ptrace request asks the tracer to mirror.
#[derive(Clone, Copy, Debug, PartialEq, Eq, Structural)]
pub enum Reflection {
    SetRegs,
    SetFpRegs,
    SetFpxRegs,
    SetRegset(Regset),
    PokeUser,
    /// ARCH_SET_FS (`fs` true) or ARCH_SET_GS.
    ArchPrctlSet { fs: bool },
    /// A request with no effect on the mirrored state.
    Nothing,
}

/// A request the earlier validation phase should have refused.
#[derive(Clone, Copy, Debug, PartialEq, Eq, Structural)]
pub enum ReflectError {
    UnknownRegset,
    UnknownArchPrctlCode,
    /// The iovec of a PTRACE_SETREGSET is smaller than the register set.
    RegsetTooSmall,
}

pub open spec fn spec_classify(request: u64, addr: u64, data: u64) -> Result<Reflection, ReflectError> {
    if request == PTRACE_SETREGS {
        Ok(Reflection::SetRegs)
    } else if request == PTRACE_SETFPREGS {
        Ok(Reflection::SetFpRegs)
    } else if request == PTRACE_SETFPXREGS {
        Ok(Reflection::SetFpxRegs)
    } else if request == PTRACE_SETREGSET {
        if addr == NT_PRSTATUS {
            Ok(Reflection::SetRegset(Regset::Prstatus))
        } else if addr == NT_FPREGSET {
            Ok(Reflection::SetRegset(Regset::Fpregset))
        } else if addr == NT_X86_XSTATE {
            Ok(Reflection::SetRegset(Regset::Xstate))
        } else {
            Err(ReflectError::UnknownRegset)
        }
    } else if request == PTRACE_POKEUSER {
        Ok(Reflection::PokeUser)
    } else if request == PTRACE_ARCH_PRCTL {
        if data == ARCH_GET_FS || data == ARCH_GET_GS {
            Ok(Reflection::Nothing)
        } else if data == ARCH_SET_FS {
            Ok(Reflection::ArchPrctlSet { fs: true })
        } else if data == ARCH_SET_GS {
            Ok(Reflection::ArchPrctlSet { fs: false })
        } else {
            Err(ReflectError::UnknownArchPrctlCode)
        }
    } else {
        Ok(Reflection::Nothing)
    }
}

/// Classify the request `ptrace(request, pid, addr, data)` made by a tracee.
pub fn classify_ptrace_request(request: u64, addr: u64, data: u64) -> (r: Result<
    Reflection,
    ReflectError,
>)
    ensures
        r == spec_classify(request, addr, data),
{
    if request == PTRACE_SETREGS {
        Ok(Reflection::SetRegs)
    } else if request == PTRACE_SETFPREGS {
        Ok(Reflection::SetFpRegs)
    } else if request == PTRACE_SETFPXREGS {
        Ok(Reflection::SetFpxRegs)
    } else if request == PTRACE_SETREGSET {
        if addr == NT_PRSTATUS {
            Ok(Reflection::SetRegset(Regset::Prstatus))
        } else if addr == NT_FPREGSET {
            Ok(Reflection::SetRegset(Regset::Fpregset))
        } else if addr == NT_X86_XSTATE {
            Ok(Reflection::SetRegset(Regset::Xstate))
        } else {
            Err(ReflectError::UnknownRegset)
        }
    } else if request == PTRACE_POKEUSER {
        Ok(Reflection::PokeUser)
    } else if request == PTRACE_ARCH_PRCTL {
        if data == ARCH_GET_FS || data == ARCH_GET_GS {
            Ok(Reflection::Nothing)
        } else if data == ARCH_SET_FS {
            Ok(Reflection::ArchPrctlSet { fs: true })
        } else if data == ARCH_SET_GS {
            Ok(Reflection::ArchPrctlSet { fs: false })
        } else {
            Err(ReflectError::UnknownArchPrctlCode)
        }
    } else {
        Ok(Reflection::Nothing)
    }
}

/// Size in bytes of `user_regs_struct` for `arch`.
pub open spec fn user_regs_size(arch: SupportedArch) -> nat {
    nwords(arch) * spec_word_size(arch)
}

/// Offset of `u_debugreg` in `struct user` for `arch`.
pub open spec fn debugreg_offset(arch: SupportedArch) -> nat {
    match arch {
        SupportedArch::X86 => 252,
        SupportedArch::X64 => 848,
    }
}

/// Size of `struct user` for `arch`.
pub open spec fn user_size(arch: SupportedArch) -> nat {
    match arch {
        SupportedArch::X86 => 284,
        SupportedArch::X64 => 912,
    }
}

/// Checks the iovec of a PTRACE_SETREGSET: the register set must fill at
/// least `min_size` bytes. Returns the range of tracee memory to read.
pub fn ptrace_get_regs_set(iov_base: u64, iov_len: u64, min_size: u64) -> (r: Result<
    (u64, u64),
    ReflectError,
>)
    ensures
        iov_len >= min_size ==> r == Ok::<(u64, u64), ReflectError>((iov_base, iov_len)),
        iov_len < min_size ==> r == Err::<(u64, u64), ReflectError>(ReflectError::RegsetTooSmall),
{
    if iov_len >= min_size {
        Ok((iov_base, iov_len))
    } else {
        Err(ReflectError::RegsetTooSmall)
    }
}

/// Little-endian value of a byte string.
pub open spec fn le_value(s: Seq<u8>) -> nat
    decreases s.len(),
{
    if s.len() == 0 {
        0
    } else {
        s[0] as nat + 256 * le_value(s.subrange(1, s.len() as int))
    }
}

pub open spec fn pow256(n: nat) -> nat
    decreases n,
{
    if n == 0 {
        1
    } else {
        256 * pow256((n - 1) as nat)
    }
}

proof fn lemma_pow256_small()
    ensures
        pow256(0) == 1,
        pow256(4) == 0x1_0000_0000,
        pow256(8) == 0x1_0000_0000_0000_0000,
        forall|n: nat| n <= 8 ==> #[trigger] pow256(n) <= pow256(8),
{
    assert(pow256(0) == 1);
    assert(pow256(1) == 256);
    assert(pow256(2) == 0x1_0000);
    assert(pow256(3) == 0x100_0000);
    assert(pow256(4) == 0x1_0000_0000);
    assert(pow256(5) == 0x100_0000_0000);
    assert(pow256(6) == 0x1_0000_0000_0000);
    assert(pow256(7) == 0x100_0000_0000_0000);
    assert(pow256(8) == 0x1_0000_0000_0000_0000);
}

proof fn lemma_le_value_bound(s: Seq<u8>)
    ensures
        le_value(s) < pow256(s.len()),
    decreases s.len(),
{
    if s.len() > 0 {
        let t = s.subrange(1, s.len() as int);
        lemma_le_value_bound(t);
        assert(le_value(s) == s[0] as nat + 256 * le_value(t));
        assert(le_value(t) + 1 <= pow256(t.len()));
        assert(256 * (le_value(t) + 1) <= 256 * pow256(t.len())) by (nonlinear_arith)
            requires
                le_value(t) + 1 <= pow256(t.len()),
        ;
    }
}

/// The `i`th register word of a little-endian register area.
pub open spec fn word_at(bytes: Seq<u8>, ws: nat, i: int) -> nat {
    le_value(bytes.subrange(i * ws, i * ws + ws))
}

fn le_word(bytes: &Vec<u8>, start: usize, ws: usize) -> (v: u64)
    requires
        ws == 4 || ws == 8,
        start + ws <= bytes@.len(),
    ensures
        v as nat == le_value(bytes@.subrange(start as int, start + ws)),
{
    let len = bytes.len();
    let mut v: u64 = 0;
    let mut k: usize = ws;
    proof {
        lemma_pow256_small();
        assert(bytes@.subrange(start + ws, start + ws).len() == 0);
    }
    while k > 0
        invariant
            k <= ws,
            ws == 4 || ws == 8,
            len == bytes@.len(),
            start + ws <= bytes@.len(),
            v as nat == le_value(bytes@.subrange(start + k, start + ws)),
            pow256(8) == 0x1_0000_0000_0000_0000,
            forall|n: nat| n <= 8 ==> #[trigger] pow256(n) <= pow256(8),
        decreases k,
    {
        let ghost rest = bytes@.subrange(start + k, start + ws);
        let ghost cur = bytes@.subrange(start + k - 1, start + ws);
        proof {
            assert(cur.subrange(1, cur.len() as int) =~= rest);
            assert(le_value(cur) == cur[0] as nat + 256 * le_value(rest));
            lemma_le_value_bound(cur);
            assert(cur.len() <= 8);
        }
        assert(start + k <= bytes@.len());
        let idx: usize = start + k - 1;
        let b = bytes[idx] as u64;
        assert(le_value(cur) < 0x1_0000_0000_0000_0000);
        v = v * 256 + b;
        k -= 1;
    }
    v
}

/// Split a little-endian register area into words of `arch`.
#[verifier::rlimit(30)]
pub fn words_from_bytes(arch: SupportedArch, bytes: &Vec<u8>) -> (w: Vec<u64>)
    requires
        bytes@.len() >= user_regs_size(arch),
    ensures
        w@.len() == nwords(arch),
        forall|i: int|
            0 <= i < nwords(arch) ==> w@[i] as nat == #[trigger] word_at(
                bytes@,
                spec_word_size(arch),
                i,
            ),
{
    let ws = word_size(arch);
    let n: usize = match arch {
        SupportedArch::X86 => 17,
        SupportedArch::X64 => 27,
    };
    proof {
        lemma_pow256_small();
    }
    let mut w: Vec<u64> = Vec::new();
    let mut i: usize = 0;
    while i < n
        invariant
            i <= n,
            n == nwords(arch),
            ws == spec_word_size(arch),
            bytes@.len() >= n * ws,
            w@.len() == i,
            pow256(8) == 0x1_0000_0000_0000_0000,
            forall|m: nat| m <= 8 ==> #[trigger] pow256(m) <= pow256(8),
            forall|j: int| 0 <= j < i ==> w@[j] as nat == #[trigger] word_at(bytes@, ws as nat, j),
        decreases n - i,
    {
        assert((i + 1) * ws <= n * ws) by (nonlinear_arith)
            requires
                i < n,
        ;
        assert(i * ws + ws == (i + 1) * ws) by (nonlinear_arith);
        let v = le_word(bytes, i * ws, ws);
        w.push(v);
        i += 1;
    }
    w
}

/// Register words of `arch` as the tracee wrote them, widened or narrowed to
/// the snapshot's own architecture.
pub open spec fn spec_converted(regs: Registers, arch: SupportedArch, words: Seq<u64>) -> Seq<u64> {
    if arch == regs.arch {
        Seq::new(nwords(arch), |i: int| word_of(arch, words[i]))
    } else if arch == SupportedArch::X64 {
        Registers::spec_from_native(SupportedArch::X86, words)
    } else {
        Seq::new(
            nwords(SupportedArch::X64),
            |k: int|
                if exists|i: int| 0 <= i < X86_WORDS && x86_native_slot(i) == k {
                    words[choose|i: int| 0 <= i < X86_WORDS && x86_native_slot(i) == k]
                } else {
                    regs.words@[k]
                },
        )
    }
}

impl Registers {
    /// Replace the snapshot by the register words `words` laid out for `arch`.
    /// Words of another architecture are converted: x86-64 words narrow to x86
    /// by truncation; x86 words land in their x86-64 registers, zero-extended,
    /// and the registers x86 lacks keep their values.
    #[verifier::rlimit(30)]
    pub fn set_from_ptrace_for_arch(&mut self, arch: SupportedArch, words: &Vec<u64>)
        requires
            old(self).wf(),
            words@.len() == nwords(arch),
            arch == SupportedArch::X86 ==> forall|i: int|
                0 <= i < words@.len() ==> words@[i] < 0x1_0000_0000,
        ensures
            final(self).wf(),
            final(self).arch == old(self).arch,
            arch == old(self).arch ==> final(self).words@ == words@,
            arch == SupportedArch::X64 && old(self).arch == SupportedArch::X86
                ==> final(self).words@ == Registers::spec_from_native(SupportedArch::X86, words@),
            arch == SupportedArch::X86 && old(self).arch == SupportedArch::X64 ==> forall|i: int|
                0 <= i < X86_WORDS ==> final(self).words@[x86_native_slot(i)] == words@[i],
            arch == SupportedArch::X86 && old(self).arch == SupportedArch::X64 ==> forall|k: int|
                0 <= k < nwords(SupportedArch::X64) && !(exists|i: int|
                    0 <= i < X86_WORDS && x86_native_slot(i) == k) ==> final(self).words@[k]
                    == old(self).words@[k],
    {
        if arch == self.arch {
            let mut i: usize = 0;
            let n = words.len();
            while i < n
                invariant
                    i <= n,
                    n == words@.len(),
                    n == self.words@.len(),
                    old(self).wf(),
                    self.arch == old(self).arch,
                    arch == self.arch,
                    arch == SupportedArch::X86 ==> forall|j: int|
                        0 <= j < words@.len() ==> words@[j] < 0x1_0000_0000,
                    forall|j: int| 0 <= j < i ==> self.words@[j] == words@[j],
                    forall|j: int| i <= j < n ==> self.words@[j] == old(self).words@[j],
                decreases n - i,
            {
                self.words.set(i, words[i]);
                i += 1;
            }
            assert(self.words@ =~= words@);
            assert forall|j: int| 0 <= j < self.words@.len() implies #[trigger] self.words@[j]
                == word_of(self.arch, self.words@[j]) by {
                if arch == SupportedArch::X86 {
                    assert(words@[j] < 0x1_0000_0000);
                }
            }
        } else if arch == SupportedArch::X64 {
            let r = Registers::from_native(SupportedArch::X86, words);
            self.words = r.words;
        } else {
            let mut i: usize = 0;
            while i < X86_WORDS
                invariant
                    i <= X86_WORDS,
                    old(self).wf(),
                    old(self).arch == SupportedArch::X64,
                    self.arch == SupportedArch::X64,
                    self.words@.len() == 27,
                    words@.len() == X86_WORDS,
                    forall|j: int| 0 <= j < i ==> self.words@[x86_native_slot(j)] == words@[j],
                    forall|k: int|
                        0 <= k < 27 && !(exists|j: int|
                            0 <= j < i && x86_native_slot(j) == k) ==> self.words@[k]
                            == old(self).words@[k],
                decreases X86_WORDS - i,
            {
                let s = crate::registers::native_slot_of_x86(i);
                self.words.set(s, words[i]);
                i += 1;
            }
        }
    }

    /// Write `value` to the register at byte `offset` of this snapshot's
    /// `user_regs_struct`; an offset that does not start a register is ignored.
    pub fn write_register_by_user_offset(&mut self, offset: u64, value: u64)
        requires
            old(self).wf(),
        ensures
            final(self).wf(),
            final(self).arch == old(self).arch,
            (offset % (spec_word_size(old(self).arch) as u64) == 0 && offset / (spec_word_size(
                old(self).arch,
            ) as u64) < nwords(old(self).arch)) ==> final(self).words@ == old(self).words@.update(
                (offset / (spec_word_size(old(self).arch) as u64)) as int,
                word_of(old(self).arch, value),
            ),
            !(offset % (spec_word_size(old(self).arch) as u64) == 0 && offset / (spec_word_size(
                old(self).arch,
            ) as u64) < nwords(old(self).arch)) ==> final(self).words@ == old(self).words@,
    {
        let ws = word_size(self.arch) as u64;
        let n = self.words.len() as u64;
        if offset % ws == 0 && offset / ws < n {
            let i = (offset / ws) as usize;
            let w: u64 = match self.arch {
                SupportedArch::X86 => value % 0x1_0000_0000,
                SupportedArch::X64 => value,
            };
            self.words.set(i, w);
            assert forall|j: int| 0 <= j < self.words@.len() implies #[trigger] self.words@[j]
                == word_of(self.arch, self.words@[j]) by {
                if j != i as int {
                    assert(old(self).words@[j] == word_of(self.arch, old(self).words@[j]));
                }
            }
        }
    }
}

/// What the tracer must still do after mirroring a request.
#[derive(Clone, Debug, PartialEq, Eq)]
pub enum ReflectAction {
    /// Nothing more.
    Done,
    /// Write debug register `regno` of the subordinate.
    SetDebugReg { regno: u64, value: u64 },
    /// Issue PTRACE_ARCH_PRCTL(`code`, base 0) on the subordinate: pre-4.7
    /// kernels ignore a zero base set through the register set.
    ArchPrctlZeroBase { code: u64 },
    /// Load `data` (what the request passed, read from the tracee) into the
    /// floating-point or extended state, in the format `kind` names, of the
    /// subordinate thread `subordinate` (not of the thread that made the
    /// request).
    SetExtraRegs { kind: Reflection, subordinate: i32, data: Vec<u8> },
}

/// What a PTRACE_POKEUSER at `addr` with `data` by a tracee of `arch` leaves
/// to do: write a debug register when `addr` lies in `u_debugreg`.
pub open spec fn spec_poke_action(arch: SupportedArch, addr: u64, data: u64) -> ReflectAction {
    if addr >= user_regs_size(arch) && debugreg_offset(arch) <= addr < user_size(arch) {
        ReflectAction::SetDebugReg {
            regno: ((addr - debugreg_offset(arch)) / (spec_word_size(arch) as int)) as u64,
            value: data,
        }
    } else {
        ReflectAction::Done
    }
}

/// The subordinate's register words after that PTRACE_POKEUSER: the
/// register at byte `addr` of its `user_regs_struct` takes `data`.
pub open spec fn spec_poke_words(t: Registers, arch: SupportedArch, addr: u64, data: u64) -> Seq<u64> {
    let ws = spec_word_size(t.arch) as u64;
    if addr < user_regs_size(arch) && addr % ws == 0 && addr / ws < nwords(t.arch) {
        t.words@.update((addr / ws) as int, word_of(t.arch, data))
    } else {
        t.words@
    }
}

/// Mirror a PTRACE_POKEUSER at `addr` with word `data`, issued by a tracee
/// of `arch`, into the subordinate's registers `tracee`.
pub fn poke_user(tracee: &mut Registers, arch: SupportedArch, addr: u64, data: u64) -> (a:
    ReflectAction)
    requires
        old(tracee).wf(),
    ensures
        final(tracee).wf(),
        final(tracee).arch == old(tracee).arch,
        final(tracee).words@ == spec_poke_words(*old(tracee), arch, addr, data),
        a == spec_poke_action(arch, addr, data),
{
    let ws = word_size(arch) as u64;
    let (regs_size, dr_offset, u_size): (u64, u64, u64) = match arch {
        SupportedArch::X86 => (68, 252, 284),
        SupportedArch::X64 => (216, 848, 912),
    };
    if addr < regs_size {
        tracee.write_register_by_user_offset(addr, data);
        ReflectAction::Done
    } else if addr >= dr_offset && addr < u_size {
        ReflectAction::SetDebugReg { regno: (addr - dr_offset) / ws, value: data }
    } else {
        ReflectAction::Done
    }
}

/// Mirror ARCH_SET_FS (`fs`) or ARCH_SET_GS with `base` into `tracee`.
pub fn arch_prctl_set_base(tracee: &mut Registers, fs: bool, base: u64) -> (a: ReflectAction)
    requires
        old(tracee).wf(),
    ensures
        final(tracee).wf(),
        final(tracee).arch == old(tracee).arch,
        final(tracee).words@ == old(tracee).words_with(
            if fs {
                Reg::FsBase
            } else {
                Reg::GsBase
            },
            base,
        ),
        base == 0 ==> a == (ReflectAction::ArchPrctlZeroBase {
            code: if fs {
                ARCH_SET_FS
            } else {
                ARCH_SET_GS
            },
        }),
        base != 0 ==> a == ReflectAction::Done,
{
    if fs {
        tracee.set(Reg::FsBase, base);
    } else {
        tracee.set(Reg::GsBase, base);
    }
    if base == 0 {
        ReflectAction::ArchPrctlZeroBase { code: if fs { ARCH_SET_FS } else { ARCH_SET_GS } }
    } else {
        ReflectAction::Done
    }
}

/// Mirror the request `ptrace(request, pid, addr, data)` that a tracee of
/// `arch` made into `tracee`, the tracer's snapshot of the registers of the
/// subordinate thread `pid`. `bytes` is what the tracer read from the
/// tracee's memory for the request: the register or floating-point area at
/// `data`, or the iovec contents of PTRACE_SETREGSET (of which a register
/// set uses the leading `user_regs_struct`); it is unused otherwise.
#[verifier::rlimit(30)]
pub fn process_ptrace(
    arch: SupportedArch,
    pid: i32,
    request: u64,
    addr: u64,
    data: u64,
    bytes: &Vec<u8>,
    tracee: &mut Registers,
) -> (r: Result<ReflectAction, ReflectError>)
    requires
        old(tracee).wf(),
        (spec_classify(request, addr, data) == Ok::<Reflection, ReflectError>(Reflection::SetRegs)
            || spec_classify(request, addr, data) == Ok::<Reflection, ReflectError>(
            Reflection::SetRegset(Regset::Prstatus),
        )) ==> bytes@.len() >= user_regs_size(arch),
    ensures
        final(tracee).wf(),
        final(tracee).arch == old(tracee).arch,
        spec_classify(request, addr, data) is Err ==> r == Err::<ReflectAction, ReflectError>(
            spec_classify(request, addr, data)->Err_0,
        ) && *final(tracee) == *old(tracee),
        spec_classify(request, addr, data) == Ok::<Reflection, ReflectError>(Reflection::Nothing)
            ==> r == Ok::<ReflectAction, ReflectError>(ReflectAction::Done) && *final(tracee)
            == *old(tracee),
        (spec_classify(request, addr, data) == Ok::<Reflection, ReflectError>(Reflection::SetRegs)
            || spec_classify(request, addr, data) == Ok::<Reflection, ReflectError>(
            Reflection::SetRegset(Regset::Prstatus),
        )) ==> r == Ok::<ReflectAction, ReflectError>(ReflectAction::Done) && (arch
            == old(tracee).arch ==> forall|i: int|
            0 <= i < nwords(arch) ==> final(tracee).words@[i] as nat == #[trigger] word_at(
                bytes@,
                spec_word_size(arch),
                i,
            )) && (arch == SupportedArch::X64 && old(tracee).arch == SupportedArch::X86
            ==> forall|i: int|
            0 <= i < X86_WORDS ==> #[trigger] final(tracee).words@[i] as nat == word_at(
                bytes@,
                8,
                x86_native_slot(i),
            ) % 0x1_0000_0000) && (arch == SupportedArch::X86 && old(tracee).arch
            == SupportedArch::X64 ==> forall|i: int|
            0 <= i < X86_WORDS ==> final(tracee).words@[x86_native_slot(i)] as nat == word_at(
                bytes@,
                4,
                i,
            )),
        spec_classify(request, addr, data) == Ok::<Reflection, ReflectError>(Reflection::PokeUser)
            ==> r == Ok::<ReflectAction, ReflectError>(spec_poke_action(arch, addr, data))
            && final(tracee).words@ == spec_poke_words(*old(tracee), arch, addr, data),
        spec_classify(request, addr, data) == Ok::<Reflection, ReflectError>(
            Reflection::ArchPrctlSet { fs: true },
        ) ==> final(tracee).words@ == old(tracee).words_with(Reg::FsBase, addr),
        spec_classify(request, addr, data) == Ok::<Reflection, ReflectError>(
            Reflection::ArchPrctlSet { fs: false },
        ) ==> final(tracee).words@ == old(tracee).words_with(Reg::GsBase, addr),
        (spec_classify(request, addr, data) is Ok && spec_classify(request, addr, data)->Ok_0
            is ArchPrctlSet) ==> r == Ok::<ReflectAction, ReflectError>(
            if addr == 0 {
                ReflectAction::ArchPrctlZeroBase { code: data }
            } else {
                ReflectAction::Done
            },
        ),
        (spec_classify(request, addr, data) == Ok::<Reflection, ReflectError>(Reflection::SetFpRegs)
            || spec_classify(request, addr, data) == Ok::<Reflection, ReflectError>(
            Reflection::SetFpxRegs,
        ) || spec_classify(request, addr, data) == Ok::<Reflection, ReflectError>(
            Reflection::SetRegset(Regset::Fpregset),
        ) || spec_classify(request, addr, data) == Ok::<Reflection, ReflectError>(
            Reflection::SetRegset(Regset::Xstate),
        )) ==> (r matches Ok(ReflectAction::SetExtraRegs { kind, subordinate, data: d })
            && kind == spec_classify(request, addr, data)->Ok_0 && subordinate == pid && d@
            == bytes@) && *final(tracee) == *old(tracee),
{
    match classify_ptrace_request(request, addr, data) {
        Err(e) => Err(e),
        Ok(Reflection::Nothing) => Ok(ReflectAction::Done),
        Ok(Reflection::SetRegs) | Ok(Reflection::SetRegset(Regset::Prstatus)) => {
            let words = words_from_bytes(arch, bytes);
            proof {
                if arch == SupportedArch::X86 {
                    assert forall|i: int| 0 <= i < words@.len() implies words@[i]
                        < 0x1_0000_0000 by {
                        let s = bytes@.subrange(i * 4, i * 4 + 4);
                        assert(0 <= i * 4) by (nonlinear_arith) requires 0 <= i;
                        lemma_le_value_bound(s);
                        lemma_pow256_small();
                        assert(words@[i] as nat == word_at(bytes@, 4, i));
                    }
                }
            }
            tracee.set_from_ptrace_for_arch(arch, &words);
            Ok(ReflectAction::Done)
        },
        Ok(Reflection::PokeUser) => Ok(poke_user(tracee, arch, addr, data)),
        Ok(Reflection::ArchPrctlSet { fs }) => Ok(arch_prctl_set_base(tracee, fs, addr)),
        Ok(other) => {
            let d = bytes.clone();
            assert(d@ =~= bytes@);
            Ok(ReflectAction::SetExtraRegs { kind: other, subordinate: pid, data: d })
        },
    }
}

} // verus!
