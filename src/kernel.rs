//! Kernel ABI constants and small facts about x86 / x86-64 tracees.

use vstd::prelude::*;

verus! {

/// Instruction-set architecture a tracee executes.
#[derive(Clone, Copy, Debug, PartialEq, Eq, Structural)]
pub enum SupportedArch {
    X86,
    X64,
}

/// A range `[addr, addr + len)` of tracee memory.
#[derive(Clone, Copy, Debug, PartialEq, Eq, Structural)]
pub struct MemRange {
    pub addr: u64,
    pub len: u64,
}

pub const SIGTRAP: i32 = 5;
pub const SIGKILL: i32 = 9;
pub const SIGSTOP: i32 = 19;
/// Signal used by the tick counter to interrupt a tracee (SIGSTKFLT).
pub const TIME_SLICE_SIGNAL: i32 = 16;
/// `si_code` of a signal raised because a descriptor became readable.
pub const POLL_IN: i32 = 1;
/// `si_code` values at or below zero come from user space.
pub const SI_KERNEL: i32 = 0x80;
pub const TRAP_BRKPT: i32 = 1;

pub const ESRCH: i32 = 3;
pub const EPERM: i32 = 1;

pub const PTRACE_EVENT_EXIT: i32 = 6;
pub const PTRACE_EVENT_STOP: i32 = 128;

pub const PROT_READ: i32 = 1;
pub const PROT_WRITE: i32 = 2;
pub const MAP_SHARED: i32 = 1;

pub const PAGE_SIZE: u64 = 4096;

/// Access-rights bit of a code segment that marks it as a 64-bit segment.
pub const AR_L: u32 = 0x20_0000;

/// The value of `cx` above which a quirky CPU may coalesce several
/// iterations of a single-stepped string instruction.
pub const SINGLE_STEP_COALESCE_CUTOFF: u64 = 16;

/// Largest tick budget a resume may ask for.
pub const MAX_TICKS_REQUEST: u64 = 2_000_000_000;

/// Trap flag in EFLAGS.
pub const X86_TF_FLAG: u64 = 0x100;

/// Architecture of a tracee whose code segment has access rights `ar`
/// (as the `lar` instruction reports them).
pub open spec fn spec_arch_for_access_rights(ar: u32) -> SupportedArch {
    if ar & AR_L == AR_L {
        SupportedArch::X64
    } else {
        SupportedArch::X86
    }
}

/// Decide the architecture from the access rights of the `cs` selector.
pub fn arch_for_access_rights(ar: u32) -> (r: SupportedArch)
    ensures
        r == spec_arch_for_access_rights(ar),
        (r == SupportedArch::X64) == (ar & AR_L == AR_L),
{
    if ar & AR_L == AR_L {
        SupportedArch::X64
    } else {
        SupportedArch::X86
    }
}

/// Whether the `eax` of CPUID leaf 1 identifies a processor that coalesces
/// single-stepped string-instruction iterations.
pub fn cpu_has_knl_string_singlestep_bug_init(eax: u32) -> (r: bool)
    ensures
        r == (eax & 0xF0FF0 == 0x50670),
{
    eax & 0xF0FF0 == 0x50670
}

/// The `cx` value above which single-stepping a string instruction is unreliable.
pub fn single_step_coalesce_cutoff() -> (r: u64)
    ensures
        r == SINGLE_STEP_COALESCE_CUTOFF,
{
    SINGLE_STEP_COALESCE_CUTOFF
}

/// Size in bytes of a general-purpose register word.
pub open spec fn spec_word_size(arch: SupportedArch) -> nat {
    match arch {
        SupportedArch::X86 => 4,
        SupportedArch::X64 => 8,
    }
}

pub fn word_size(arch: SupportedArch) -> (r: usize)
    ensures
        r == spec_word_size(arch),
{
    match arch {
        SupportedArch::X86 => 4,
        SupportedArch::X64 => 8,
    }
}

/// Addition of remote addresses, wrapping at 2^64 as the hardware does.
pub open spec fn addr_add(a: u64, n: u64) -> u64 {
    if a + n <= u64::MAX {
        (a + n) as u64
    } else {
        (a + n - 0x1_0000_0000_0000_0000) as u64
    }
}

pub fn remote_add(a: u64, n: u64) -> (r: u64)
    ensures
        r == addr_add(a, n),
{
    a.wrapping_add(n)
}

/// Subtraction of remote addresses, wrapping at 2^64.
pub open spec fn addr_sub(a: u64, n: u64) -> u64 {
    if a >= n {
        (a - n) as u64
    } else {
        (a + 0x1_0000_0000_0000_0000 - n) as u64
    }
}

pub fn remote_sub(a: u64, n: u64) -> (r: u64)
    ensures
        r == addr_sub(a, n),
{
    a.wrapping_sub(n)
}

/// Start of the page that holds `a`.
pub open spec fn spec_floor_page(a: u64) -> u64 {
    (a - a % PAGE_SIZE) as u64
}

/// Least page boundary at or above `a`, computed over the integers.
pub open spec fn spec_ceil_page(a: int) -> int {
    if a % (PAGE_SIZE as int) == 0 {
        a
    } else {
        a - a % (PAGE_SIZE as int) + PAGE_SIZE
    }
}

pub fn floor_page_size(a: u64) -> (r: u64)
    ensures
        r == spec_floor_page(a),
        r <= a,
        r % PAGE_SIZE == 0,
        a - r < PAGE_SIZE,
{
    a - a % PAGE_SIZE
}

pub fn ceil_page_size(a: u64) -> (r: u64)
    requires
        spec_ceil_page(a as int) <= u64::MAX,
    ensures
        r as int == spec_ceil_page(a as int),
        r >= a,
        r % PAGE_SIZE == 0,
        r - a < PAGE_SIZE,
{
    if a % PAGE_SIZE == 0 {
        a
    } else {
        a - a % PAGE_SIZE + PAGE_SIZE
    }
}

} // verus!
