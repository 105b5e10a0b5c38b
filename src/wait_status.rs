//! Decoding of the status word that `waitpid` reports for a traced thread.

use vstd::prelude::*;
use crate::kernel::{PTRACE_EVENT_STOP, SIGSTOP, SIGTRAP};

verus! {

/// What a wait status says happened to the thread.
#[derive(Clone, Copy, Debug, PartialEq, Eq, Structural)]
pub enum WaitKind {
    /// The thread exited with this code.
    Exited(u32),
    /// The thread was killed by this signal.
    FatalSig(u32),
    /// The thread stopped for delivery of this signal.
    StopSig(u32),
    /// The thread entered a group stop caused by this signal.
    GroupStop(u32),
    /// The thread stopped at this ptrace event.
    PtraceEvent(u32),
    /// The thread stopped at a syscall entry or exit.
    SyscallStop,
}

/// A raw status as `waitpid` stores it.
#[derive(Clone, Copy, Debug, PartialEq, Eq, Structural)]
pub struct WaitStatus {
    pub raw: u32,
}

/// Stop signal reported at a syscall stop under PTRACE_O_TRACESYSGOOD.
pub const SYSCALL_STOP_SIG: u32 = 0x85;

pub open spec fn low7(s: u32) -> u32 {
    s % 128
}

pub open spec fn stop_byte(s: u32) -> u32 {
    (s / 256) % 256
}

pub open spec fn event_byte(s: u32) -> u32 {
    (s / 65536) % 256
}

/// A signal number with the 0x80 bit dropped; zero reads as SIGSTOP.
pub open spec fn sig_or_stop(b: u32) -> u32 {
    if b % 128 == 0 {
        SIGSTOP as u32
    } else {
        b % 128
    }
}

/// The meaning of a raw status, if it has one.
pub open spec fn decode(s: u32) -> Option<WaitKind> {
    if low7(s) == 0 {
        Some(WaitKind::Exited(stop_byte(s)))
    } else if low7(s) != 0x7f {
        Some(WaitKind::FatalSig(low7(s)))
    } else if s % 256 != 0x7f {
        None
    } else if event_byte(s) == 0 {
        if stop_byte(s) == SYSCALL_STOP_SIG {
            Some(WaitKind::SyscallStop)
        } else {
            Some(WaitKind::StopSig(sig_or_stop(stop_byte(s))))
        }
    } else if event_byte(s) == PTRACE_EVENT_STOP as u32 {
        Some(WaitKind::GroupStop(sig_or_stop(stop_byte(s))))
    } else {
        Some(WaitKind::PtraceEvent(event_byte(s)))
    }
}

fn sig_or_stop_exec(b: u32) -> (r: u32)
    ensures
        r == sig_or_stop(b),
{
    if b % 128 == 0 {
        SIGSTOP as u32
    } else {
        b % 128
    }
}

impl WaitStatus {
    pub open spec fn view_kind(&self) -> Option<WaitKind> {
        decode(self.raw)
    }

    /// Wrap the status word `raw` that waitpid stored.
    pub fn new(raw: i32) -> (r: WaitStatus)
        ensures
            r.raw == raw as u32,
    {
        WaitStatus { raw: raw as u32 }
    }

    /// Decode the status.
    pub fn kind(&self) -> (k: Option<WaitKind>)
        ensures
            k == decode(self.raw),
    {
        let s = self.raw;
        let low = s % 128;
        let stop = (s / 256) % 256;
        let event = (s / 65536) % 256;
        if low == 0 {
            Some(WaitKind::Exited(stop))
        } else if low != 0x7f {
            Some(WaitKind::FatalSig(low))
        } else if s % 256 != 0x7f {
            None
        } else if event == 0 {
            if stop == SYSCALL_STOP_SIG {
                Some(WaitKind::SyscallStop)
            } else {
                Some(WaitKind::StopSig(sig_or_stop_exec(stop)))
            }
        } else if event == PTRACE_EVENT_STOP as u32 {
            Some(WaitKind::GroupStop(sig_or_stop_exec(stop)))
        } else {
            Some(WaitKind::PtraceEvent(event))
        }
    }

    /// The signal of a signal-delivery stop, zero otherwise.
    pub open spec fn spec_stop_sig(&self) -> u32 {
        match decode(self.raw) {
            Some(WaitKind::StopSig(sig)) => sig,
            _ => 0,
        }
    }

    pub fn maybe_stop_sig(&self) -> (sig: u32)
        ensures
            sig == self.spec_stop_sig(),
    {
        match self.kind() {
            Some(WaitKind::StopSig(sig)) => sig,
            _ => 0,
        }
    }

    /// The signal of a group stop, zero otherwise.
    pub open spec fn spec_group_stop_sig(&self) -> u32 {
        match decode(self.raw) {
            Some(WaitKind::GroupStop(sig)) => sig,
            _ => 0,
        }
    }

    pub fn maybe_group_stop_sig(&self) -> (sig: u32)
        ensures
            sig == self.spec_group_stop_sig(),
    {
        match self.kind() {
            Some(WaitKind::GroupStop(sig)) => sig,
            _ => 0,
        }
    }

    /// The ptrace event of an event stop, zero otherwise.
    pub open spec fn spec_ptrace_event(&self) -> u32 {
        match decode(self.raw) {
            Some(WaitKind::PtraceEvent(ev)) => ev,
            _ => 0,
        }
    }

    pub fn maybe_ptrace_event(&self) -> (ev: u32)
        ensures
            ev == self.spec_ptrace_event(),
    {
        match self.kind() {
            Some(WaitKind::PtraceEvent(ev)) => ev,
            _ => 0,
        }
    }

    /// The killing signal of a fatal-signal status, zero otherwise.
    pub open spec fn spec_fatal_sig(&self) -> u32 {
        match decode(self.raw) {
            Some(WaitKind::FatalSig(sig)) => sig,
            _ => 0,
        }
    }

    pub fn fatal_sig(&self) -> (sig: u32)
        ensures
            sig == self.spec_fatal_sig(),
    {
        match self.kind() {
            Some(WaitKind::FatalSig(sig)) => sig,
            _ => 0,
        }
    }

    /// Status of a thread that exited with `code`.
    pub fn for_exit_code(code: u32) -> (r: WaitStatus)
        requires
            code < 256,
        ensures
            decode(r.raw) == Some(WaitKind::Exited(code)),
    {
        WaitStatus { raw: code * 256 }
    }

    /// Status of a thread killed by `sig`.
    pub fn for_fatal_sig(sig: u32) -> (r: WaitStatus)
        requires
            1 <= sig < 0x7f,
        ensures
            decode(r.raw) == Some(WaitKind::FatalSig(sig)),
    {
        WaitStatus { raw: sig }
    }

    /// Status of a signal-delivery stop for `sig`.
    pub fn for_stop_sig(sig: u32) -> (r: WaitStatus)
        requires
            1 <= sig < 128,
        ensures
            decode(r.raw) == Some(WaitKind::StopSig(sig)),
            r.raw == sig * 256 + 0x7f,
    {
        WaitStatus { raw: sig * 256 + 0x7f }
    }

    /// Status of a group stop caused by `sig`.
    pub fn for_group_sig(sig: u32) -> (r: WaitStatus)
        requires
            1 <= sig < 128,
        ensures
            decode(r.raw) == Some(WaitKind::GroupStop(sig)),
    {
        WaitStatus { raw: (PTRACE_EVENT_STOP as u32) * 65536 + sig * 256 + 0x7f }
    }

    /// Status of a syscall stop.
    pub fn for_syscall() -> (r: WaitStatus)
        ensures
            decode(r.raw) == Some(WaitKind::SyscallStop),
    {
        WaitStatus { raw: SYSCALL_STOP_SIG * 256 + 0x7f }
    }

    /// Status of a stop at ptrace event `ev`.
    pub fn for_ptrace_event(ev: u32) -> (r: WaitStatus)
        requires
            1 <= ev < 256,
            ev != PTRACE_EVENT_STOP,
        ensures
            decode(r.raw) == Some(WaitKind::PtraceEvent(ev)),
            r.raw == ev * 65536 + 5 * 256 + 0x7f,
    {
        WaitStatus { raw: ev * 65536 + (SIGTRAP as u32) * 256 + 0x7f }
    }
}

} // verus!
