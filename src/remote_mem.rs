//! Transfers to and from a tracee's address space.
//!
//! Bulk transfers go through `/proc/<tid>/mem`; the kernel calls are made by
//! the caller, and the state machines here decide what to do with each
//! result: continue after a short transfer, reopen a descriptor that still
//! refers to the address space from before an exec, fall back to
//! word-at-a-time ptrace, or use a memory range shared with the tracee.

use vstd::prelude::*;
use crate::kernel::{
    spec_ceil_page, ceil_page_size, floor_page_size, EPERM, ESRCH, MAP_SHARED, PAGE_SIZE,
    PROT_READ, PROT_WRITE,
};

verus! {

/// The next thing a read of tracee memory needs.
#[derive(Clone, Copy, Debug, PartialEq, Eq, Structural)]
pub enum ReadStep {
    /// The read is over with this many bytes read.
    Finished(usize),
    /// The read is over and no byte could be read.
    Failed,
    /// Copy the bytes from the memory shared with the tracee.
    CopyFromLocal,
    /// No mem descriptor is open: read word by word with ptrace.
    ReadByPtrace,
    /// `pread` the bytes from `offset` to the end of the buffer at the
    /// tracee address plus `offset`, with errno cleared first.
    Pread { offset: usize },
    /// Reopen the mem descriptor, then report with `after_reopen`.
    ReopenMemFd,
}

/// Progress of one read of `len` bytes.
#[derive(Clone, Copy, Debug, PartialEq, Eq, Structural)]
pub struct MemRead {
    pub len: usize,
    pub all_read: usize,
    /// The mem descriptor was already reopened once during this read.
    pub reopened: bool,
}

pub open spec fn spec_read_start(len: usize, has_local_mapping: bool, mem_fd_open: bool) -> (MemRead, ReadStep) {
    let s = MemRead { len, all_read: 0, reopened: false };
    if len == 0 {
        (s, ReadStep::Finished(0))
    } else if has_local_mapping {
        (s, ReadStep::CopyFromLocal)
    } else if !mem_fd_open {
        (s, ReadStep::ReadByPtrace)
    } else {
        (s, ReadStep::Pread { offset: 0 })
    }
}

/// What follows a `pread` that returned `nread` with `errno` set as given.
pub open spec fn spec_after_pread(s: MemRead, nread: i64, errno: i32) -> (MemRead, ReadStep) {
    if nread == 0 && s.all_read == 0 && errno == 0 && !s.reopened {
        (s, ReadStep::ReopenMemFd)
    } else if nread <= 0 {
        if s.all_read > 0 {
            (s, ReadStep::Finished(s.all_read))
        } else {
            (s, ReadStep::Failed)
        }
    } else {
        let t = MemRead { all_read: (s.all_read + nread) as usize, ..s };
        if t.all_read < s.len {
            (t, ReadStep::Pread { offset: t.all_read })
        } else {
            (t, ReadStep::Finished(t.all_read))
        }
    }
}

/// What follows reopening the mem descriptor (`ok` tells whether it worked).
pub open spec fn spec_after_reopen(s: MemRead, ok: bool) -> (MemRead, ReadStep) {
    let t = MemRead { reopened: true, ..s };
    if ok {
        (t, ReadStep::Pread { offset: 0 })
    } else {
        (t, ReadStep::Finished(0))
    }
}

impl MemRead {
    /// Begin reading `len` bytes; `has_local_mapping` tells whether memory
    /// shared with the tracee covers them, `mem_fd_open` whether the
    /// address space has an open mem descriptor.
    pub fn start(len: usize, has_local_mapping: bool, mem_fd_open: bool) -> (r: (MemRead, ReadStep))
        ensures
            r == spec_read_start(len, has_local_mapping, mem_fd_open),
    {
        let s = MemRead { len, all_read: 0, reopened: false };
        if len == 0 {
            (s, ReadStep::Finished(0))
        } else if has_local_mapping {
            (s, ReadStep::CopyFromLocal)
        } else if !mem_fd_open {
            (s, ReadStep::ReadByPtrace)
        } else {
            (s, ReadStep::Pread { offset: 0 })
        }
    }

    /// Take the result of the `pread` asked for: `nread` bytes, or an error
    /// when negative, with `errno` as it was left.
    pub fn after_pread(&mut self, nread: i64, errno: i32) -> (step: ReadStep)
        requires
            old(self).all_read < old(self).len,
            nread <= old(self).len - old(self).all_read,
        ensures
            (*final(self), step) == spec_after_pread(*old(self), nread, errno),
            final(self).all_read <= final(self).len,
    {
        if nread == 0 && self.all_read == 0 && errno == 0 && !self.reopened {
            return ReadStep::ReopenMemFd;
        }
        if nread <= 0 {
            if self.all_read > 0 {
                return ReadStep::Finished(self.all_read);
            }
            return ReadStep::Failed;
        }
        self.all_read = self.all_read + nread as usize;
        if self.all_read < self.len {
            ReadStep::Pread { offset: self.all_read }
        } else {
            ReadStep::Finished(self.all_read)
        }
    }

    /// Take the outcome of reopening the mem descriptor.
    pub fn after_reopen(&mut self, ok: bool) -> (step: ReadStep)
        ensures
            (*final(self), step) == spec_after_reopen(*old(self), ok),
    {
        self.reopened = true;
        if ok {
            ReadStep::Pread { offset: 0 }
        } else {
            ReadStep::Finished(0)
        }
    }
}

/// A read of nothing succeeds at once with zero bytes, whatever else holds,
/// and touches no descriptor.
pub proof fn lemma_empty_read(has_local_mapping: bool, mem_fd_open: bool)
    ensures
        spec_read_start(0, has_local_mapping, mem_fd_open).1 == ReadStep::Finished(0),
{
}

/// A first `pread` that returns nothing with errno zero means a stale
/// descriptor: it is reopened, the read starts over at offset zero, and a
/// second such result is an error, never another silent zero.
pub proof fn lemma_stale_fd_reopened_once(len: usize)
    requires
        len > 0,
    ensures
        ({
            let (s0, step0) = spec_read_start(len, false, true);
            let (s1, step1) = spec_after_pread(s0, 0, 0);
            let (s2, step2) = spec_after_reopen(s1, true);
            let (s3, step3) = spec_after_pread(s2, 0, 0);
            &&& step0 == ReadStep::Pread { offset: 0 }
            &&& step1 == ReadStep::ReopenMemFd
            &&& step2 == ReadStep::Pread { offset: 0 }
            &&& step3 == ReadStep::Failed
        }),
{
}

/// Whether a read of `len` bytes must have transferred them all and did.
pub fn read_complete(result: Result<usize, ()>, len: usize) -> (b: bool)
    ensures
        b == (result == Ok::<usize, ()>(len)),
{
    match result {
        Ok(n) => n == len,
        Err(_) => false,
    }
}

/// Completion of a read for a caller with an `ok` flag: the flag is cleared
/// when fewer bytes than asked for were read, and left alone otherwise.
pub fn read_bytes_helper(result: Result<usize, ()>, len: usize, ok: &mut bool)
    ensures
        *final(ok) == (*old(ok) && result == Ok::<usize, ()>(len)),
{
    if !read_complete(result, len) {
        *ok = false;
    }
}

/// The next thing a write to tracee memory needs.
#[derive(Clone, Copy, Debug, PartialEq, Eq, Structural)]
pub enum WriteStep {
    /// Nothing to write.
    Done,
    /// Copy the bytes into the memory shared with the tracee.
    CopyToLocal,
    /// No mem descriptor is open: write word by word with ptrace, then
    /// report with `write_verdict_ptrace`.
    WriteByPtrace,
    /// Write through the mem descriptor (see `safe_pwrite64_plan`), then
    /// report with `write_verdict`.
    SafePwrite,
}

pub fn start_write(len: usize, has_local_mapping: bool, mem_fd_open: bool) -> (step: WriteStep)
    ensures
        len == 0 ==> step == WriteStep::Done,
        len != 0 && has_local_mapping ==> step == WriteStep::CopyToLocal,
        len != 0 && !has_local_mapping && !mem_fd_open ==> step == WriteStep::WriteByPtrace,
        len != 0 && !has_local_mapping && mem_fd_open ==> step == WriteStep::SafePwrite,
{
    if len == 0 {
        WriteStep::Done
    } else if has_local_mapping {
        WriteStep::CopyToLocal
    } else if !mem_fd_open {
        WriteStep::WriteByPtrace
    } else {
        WriteStep::SafePwrite
    }
}

/// What follows a write through the mem descriptor.
#[derive(Clone, Copy, Debug, PartialEq, Eq, Structural)]
pub enum WriteVerdict {
    /// Nothing was written: the descriptor is stale. Reopen it and write again.
    ReopenAndRetry,
    /// The kernel refused the write (EPERM): memory protection hardening
    /// such as grsecurity MPROTECT is in the way, which is fatal.
    PermissionDenied,
    /// The write is over. `written` bytes reached the tracee (the address
    /// space must be told of them when nonzero); `complete` tells whether
    /// that is all of them.
    Finished { written: usize, complete: bool },
}

/// Judge a write of `len` bytes through the mem descriptor that returned
/// `result`, with `errno` as it was left.
pub fn write_verdict(result: Result<usize, ()>, errno: i32, len: usize) -> (v: WriteVerdict)
    ensures
        result == Ok::<usize, ()>(0) ==> v == WriteVerdict::ReopenAndRetry,
        result != Ok::<usize, ()>(0) && errno == EPERM ==> v == WriteVerdict::PermissionDenied,
        result != Ok::<usize, ()>(0) && errno != EPERM ==> v == (WriteVerdict::Finished {
            written: match result {
                Ok(n) => n,
                Err(_) => 0,
            },
            complete: result == Ok::<usize, ()>(len),
        }),
{
    match result {
        Ok(0) => WriteVerdict::ReopenAndRetry,
        _ => {
            if errno == EPERM {
                WriteVerdict::PermissionDenied
            } else {
                let (written, complete) = match result {
                    Ok(n) => (n, n == len),
                    Err(_) => (0, false),
                };
                WriteVerdict::Finished { written, complete }
            }
        },
    }
}

/// Judge a word-at-a-time write of `len` bytes that wrote `nwritten`.
pub fn write_verdict_ptrace(nwritten: usize, len: usize) -> (v: WriteVerdict)
    ensures
        v == (WriteVerdict::Finished { written: nwritten, complete: nwritten >= len }),
{
    WriteVerdict::Finished { written: nwritten, complete: nwritten >= len }
}

/// A mapping of the tracee's address space, as the address space lists it.
#[derive(Clone, Copy, Debug, PartialEq, Eq, Structural)]
pub struct Mapping {
    pub start: u64,
    pub end: u64,
    pub prot: i32,
    pub flags: i32,
}

/// A change of protection on `[start, start + size)`.
#[derive(Clone, Copy, Debug, PartialEq, Eq, Structural)]
pub struct ProtFix {
    pub start: u64,
    pub size: u64,
    pub prot: i32,
}

/// A mapping the kernel may not write through `/proc/<tid>/mem`: one that
/// is not writable, or one that is readable and shared.
pub open spec fn needs_fix(m: Mapping) -> bool {
    m.prot & PROT_WRITE == 0 || (m.prot & PROT_READ != 0 && m.flags & MAP_SHARED != 0)
}

/// The mappings among `maps` (in address order) that lie below `limit` and
/// need their protection raised, with their original protection.
pub open spec fn spec_fixes(maps: Seq<Mapping>, limit: int) -> Seq<ProtFix>
    decreases maps.len(),
{
    if maps.len() == 0 || maps[0].start >= limit {
        Seq::empty()
    } else {
        let rest = spec_fixes(maps.drop_first(), limit);
        if needs_fix(maps[0]) {
            seq![
                ProtFix {
                    start: maps[0].start,
                    size: (maps[0].end - maps[0].start) as u64,
                    prot: maps[0].prot,
                },
            ].add(rest)
        } else {
            rest
        }
    }
}

/// The protection changes around a write through `/proc/<tid>/mem`:
/// `elevate` adds write permission before the write, `restore` puts back
/// each original protection after it, whatever the write's outcome.
pub struct SafeWritePlan {
    pub elevate: Vec<ProtFix>,
    pub restore: Vec<ProtFix>,
}

/// Plan a write of `len` bytes at `addr`. `maps` are the mappings from the
/// one holding the page of `addr` onwards, in address order.
#[verifier::rlimit(30)]
pub fn safe_pwrite64_plan(maps: &Vec<Mapping>, addr: u64, len: u64) -> (p: SafeWritePlan)
    requires
        addr + len + PAGE_SIZE <= u64::MAX,
        forall|i: int| 0 <= i < maps@.len() ==> maps@[i].start <= maps@[i].end,
    ensures
        p.restore@ == spec_fixes(maps@, spec_ceil_page(addr + len)),
        p.elevate@.len() == p.restore@.len(),
        forall|i: int|
            0 <= i < p.elevate@.len() ==> p.elevate@[i] == (ProtFix {
                prot: p.restore@[i].prot | PROT_WRITE,
                ..p.restore@[i]
            }),
{
    let limit = ceil_page_size(addr + len);
    let mut restore: Vec<ProtFix> = Vec::new();
    let mut elevate: Vec<ProtFix> = Vec::new();
    let mut i: usize = 0;
    let mut past_limit = false;
    let ghost full = spec_fixes(maps@, limit as int);
    assert(maps@.subrange(0, maps@.len() as int) =~= maps@);
    assert(restore@.add(full) =~= full);
    while i < maps.len() && !past_limit
        invariant
            i <= maps@.len(),
            limit as int == spec_ceil_page(addr + len),
            forall|j: int| 0 <= j < maps@.len() ==> maps@[j].start <= maps@[j].end,
            full == spec_fixes(maps@, limit as int),
            restore@.add(spec_fixes(maps@.subrange(i as int, maps@.len() as int), limit as int))
                == full,
            past_limit ==> spec_fixes(maps@.subrange(i as int, maps@.len() as int), limit as int)
                == Seq::<ProtFix>::empty(),
            elevate@.len() == restore@.len(),
            forall|j: int|
                0 <= j < elevate@.len() ==> elevate@[j] == (ProtFix {
                    prot: restore@[j].prot | PROT_WRITE,
                    ..restore@[j]
                }),
        decreases maps@.len() - i + if past_limit { 0int } else { 1int },
    {
        let ghost rest = maps@.subrange(i as int, maps@.len() as int);
        assert(rest.drop_first() =~= maps@.subrange(i + 1, maps@.len() as int));
        let m = maps[i];
        if m.start >= limit {
            past_limit = true;
        } else {
            if m.prot & PROT_WRITE == 0 || (m.prot & PROT_READ != 0 && m.flags & MAP_SHARED != 0) {
                let fix = ProtFix { start: m.start, size: m.end - m.start, prot: m.prot };
                let ghost r0 = restore@;
                restore.push(fix);
                elevate.push(ProtFix { prot: m.prot | PROT_WRITE, ..fix });
                proof {
                    let tail = spec_fixes(rest.drop_first(), limit as int);
                    assert(restore@.add(tail) =~= r0.add(seq![fix].add(tail)));
                }
            }
            i += 1;
        }
    }
    proof {
        if !past_limit {
            assert(maps@.subrange(i as int, maps@.len() as int).len() == 0);
        }
        assert(restore@.add(Seq::<ProtFix>::empty()) =~= restore@);
    }
    SafeWritePlan { elevate, restore }
}

/// Protections per mapping start after applying `calls` in order.
pub open spec fn apply_prots(m: Map<u64, i32>, calls: Seq<ProtFix>) -> Map<u64, i32>
    decreases calls.len(),
{
    if calls.len() == 0 {
        m
    } else {
        apply_prots(m.insert(calls[0].start, calls[0].prot), calls.drop_first())
    }
}

proof fn lemma_apply_outside(m: Map<u64, i32>, calls: Seq<ProtFix>, k: u64)
    requires
        forall|i: int| 0 <= i < calls.len() ==> calls[i].start != k,
    ensures
        apply_prots(m, calls).dom().contains(k) == m.dom().contains(k),
        m.dom().contains(k) ==> apply_prots(m, calls)[k] == m[k],
    decreases calls.len(),
{
    if calls.len() > 0 {
        let m1 = m.insert(calls[0].start, calls[0].prot);
        assert forall|i: int| 0 <= i < calls.drop_first().len() implies calls.drop_first()[i].start
            != k by {
            assert(calls.drop_first()[i] == calls[i + 1]);
        }
        lemma_apply_outside(m1, calls.drop_first(), k);
    }
}

proof fn lemma_apply_restores(p: Map<u64, i32>, q: Map<u64, i32>, calls: Seq<ProtFix>)
    requires
        forall|i: int|
            0 <= i < calls.len() ==> p.dom().contains(calls[i].start) && p[calls[i].start]
                == calls[i].prot,
        q.dom() == p.dom(),
        forall|k: u64|
            p.dom().contains(k) && !(exists|i: int| 0 <= i < calls.len() && calls[i].start == k)
                ==> q[k] == p[k],
    ensures
        apply_prots(q, calls) == p,
    decreases calls.len(),
{
    if calls.len() == 0 {
        assert forall|k: u64| p.dom().contains(k) implies q[k] == p[k] by {
        }
        assert(q =~= p);
    } else {
        let c0 = calls[0];
        let rest = calls.drop_first();
        let q1 = q.insert(c0.start, c0.prot);
        assert(q1.dom() =~= p.dom());
        assert forall|i: int|
            0 <= i < rest.len() implies p.dom().contains(rest[i].start) && p[rest[i].start]
            == rest[i].prot by {
            assert(rest[i] == calls[i + 1]);
        }
        assert forall|k: u64|
            p.dom().contains(k) && !(exists|i: int| 0 <= i < rest.len() && rest[i].start == k)
                implies q1[k] == p[k] by {
            if k != c0.start {
                if exists|i: int| 0 <= i < calls.len() && calls[i].start == k {
                    let i = choose|i: int| 0 <= i < calls.len() && calls[i].start == k;
                    assert(i != 0);
                    assert(rest[i - 1] == calls[i]);
                }
            }
        }
        lemma_apply_restores(p, q1, rest);
    }
}

/// Raising the protections of a write plan and then restoring them leaves
/// every mapping with exactly the protection it had, on success and on
/// failure of the write alike (the restore does not depend on it).
#[verifier::rlimit(30)]
pub proof fn lemma_protections_restored(
    prots: Map<u64, i32>,
    maps: Seq<Mapping>,
    addr: u64,
    len: u64,
    elevate: Seq<ProtFix>,
    restore: Seq<ProtFix>,
)
    requires
        forall|i: int|
            0 <= i < maps.len() ==> prots.dom().contains(maps[i].start) && prots[maps[i].start]
                == maps[i].prot,
        restore == spec_fixes(maps, spec_ceil_page(addr + len)),
        elevate.len() == restore.len(),
        forall|i: int|
            0 <= i < elevate.len() ==> elevate[i] == (ProtFix {
                prot: restore[i].prot | PROT_WRITE,
                ..restore[i]
            }),
    ensures
        apply_prots(apply_prots(prots, elevate), restore) == prots,
{
    lemma_fixes_from_maps(maps, spec_ceil_page(addr + len));
    let q = apply_prots(prots, elevate);
    assert forall|k: u64| #![trigger prots.dom().contains(k)]
        prots.dom().contains(k) implies q.dom().contains(k) by {
        lemma_apply_domain(prots, elevate, k);
    }
    assert forall|k: u64| #![trigger q.dom().contains(k)]
        q.dom().contains(k) implies prots.dom().contains(k) by {
        lemma_apply_domain(prots, elevate, k);
    }
    assert(q.dom() =~= prots.dom());
    assert forall|k: u64|
        prots.dom().contains(k) && !(exists|i: int| 0 <= i < restore.len() && restore[i].start == k)
            implies q[k] == prots[k] by {
        assert forall|i: int| 0 <= i < elevate.len() implies elevate[i].start != k by {
            assert(elevate[i].start == restore[i].start);
        }
        lemma_apply_outside(prots, elevate, k);
    }
    lemma_apply_restores(prots, q, restore);
}

proof fn lemma_apply_domain(m: Map<u64, i32>, calls: Seq<ProtFix>, k: u64)
    requires
        forall|i: int| 0 <= i < calls.len() ==> m.dom().contains(calls[i].start),
    ensures
        apply_prots(m, calls).dom().contains(k) == m.dom().contains(k),
    decreases calls.len(),
{
    if calls.len() > 0 {
        let m1 = m.insert(calls[0].start, calls[0].prot);
        assert(m1.dom() =~= m.dom());
        assert forall|i: int| 0 <= i < calls.drop_first().len() implies m1.dom().contains(
            calls.drop_first()[i].start,
        ) by {
            assert(calls.drop_first()[i] == calls[i + 1]);
        }
        lemma_apply_domain(m1, calls.drop_first(), k);
    }
}

/// Every protection fix comes from one of the mappings, with its protection.
proof fn lemma_fixes_from_maps(maps: Seq<Mapping>, limit: int)
    ensures
        forall|i: int|
            0 <= i < spec_fixes(maps, limit).len() ==> exists|j: int|
                0 <= j < maps.len() && #[trigger] maps[j].start == (#[trigger] spec_fixes(
                    maps,
                    limit,
                )[i]).start && maps[j].prot == spec_fixes(maps, limit)[i].prot,
    decreases maps.len(),
{
    if maps.len() > 0 && maps[0].start < limit {
        let rest = maps.drop_first();
        lemma_fixes_from_maps(rest, limit);
        let f = spec_fixes(maps, limit);
        let fr = spec_fixes(rest, limit);
        assert forall|i: int| 0 <= i < f.len() implies exists|j: int|
            0 <= j < maps.len() && #[trigger] maps[j].start == (#[trigger] f[i]).start
                && maps[j].prot == f[i].prot by {
            if needs_fix(maps[0]) {
                if i == 0 {
                    assert(maps[0].start == f[0].start);
                } else {
                    assert(f[i] == fr[i - 1]);
                    let j = choose|j: int|
                        0 <= j < rest.len() && #[trigger] rest[j].start == fr[i - 1].start
                            && rest[j].prot == fr[i - 1].prot;
                    assert(maps[j + 1] == rest[j]);
                }
            } else {
                assert(f[i] == fr[i]);
                let j = choose|j: int|
                    0 <= j < rest.len() && #[trigger] rest[j].start == fr[i].start && rest[j].prot
                        == fr[i].prot;
                assert(maps[j + 1] == rest[j]);
            }
        }
    }
}

/// Reads a NUL-terminated string out of the tracee one page piece at a time:
/// only the page holding the next byte is known to be mapped, so no read
/// crosses a page boundary and none happens once the NUL is seen.
pub struct CStrReader {
    /// Address of the next byte to read.
    pub next: u64,
    /// The bytes before the terminator read so far.
    pub bytes: Vec<u8>,
    /// The terminator was found.
    pub done: bool,
}

/// Number of bytes from `a` to the end of its page.
pub open spec fn to_page_end(a: u64) -> int {
    spec_ceil_page(a + 1) - a
}

impl CStrReader {
    /// No terminator among the bytes collected.
    pub open spec fn inv(&self) -> bool {
        forall|i: int| 0 <= i < self.bytes@.len() ==> self.bytes@[i] != 0
    }

    /// Start reading the string at `addr`.
    pub fn new(addr: u64) -> (r: CStrReader)
        ensures
            r.inv(),
            r.next == addr,
            r.bytes@.len() == 0,
            !r.done,
    {
        CStrReader { next: addr, bytes: Vec::new(), done: false }
    }

    /// The range to read next: from the next byte to the end of its page.
    pub fn next_chunk(&self) -> (r: (u64, u64))
        requires
            !self.done,
            spec_ceil_page(self.next + 1) <= u64::MAX,
        ensures
            r.0 == self.next,
            r.1 == to_page_end(self.next),
            1 <= r.1 <= PAGE_SIZE,
            (r.0 + r.1) % (PAGE_SIZE as int) == 0,
    {
        let end = ceil_page_size(self.next + 1);
        (self.next, end - self.next)
    }

    /// Take the bytes of the range `next_chunk` named. Returns the position of
    /// the terminator in `chunk`, if it holds one; the string then ends there.
    #[verifier::rlimit(30)]
    pub fn feed(&mut self, chunk: &Vec<u8>) -> (z: Option<usize>)
        requires
            old(self).inv(),
            !old(self).done,
            spec_ceil_page(old(self).next + 1) <= u64::MAX,
            chunk@.len() == to_page_end(old(self).next),
        ensures
            final(self).inv(),
            z is Some ==> {
                let k = z->0 as int;
                &&& k < chunk@.len()
                &&& chunk@[k] == 0
                &&& forall|i: int| 0 <= i < k ==> chunk@[i] != 0
                &&& final(self).done
                &&& final(self).bytes@ == old(self).bytes@.add(chunk@.subrange(0, k))
                &&& final(self).next == old(self).next
            },
            z is None ==> {
                &&& forall|i: int| 0 <= i < chunk@.len() ==> chunk@[i] != 0
                &&& !final(self).done
                &&& final(self).bytes@ == old(self).bytes@.add(chunk@)
                &&& final(self).next == spec_ceil_page(old(self).next + 1)
            },
    {
        let ghost b0 = self.bytes@;
        let mut i: usize = 0;
        while i < chunk.len()
            invariant
                i <= chunk@.len(),
                !self.done,
                self.next == old(self).next,
                b0 == old(self).bytes@,
                forall|j: int| 0 <= j < i ==> chunk@[j] != 0,
                self.bytes@ == b0.add(chunk@.subrange(0, i as int)),
                forall|j: int| 0 <= j < b0.len() ==> b0[j] != 0,
            decreases chunk@.len() - i,
        {
            if chunk[i] == 0 {
                self.done = true;
                proof {
                    assert forall|j: int| 0 <= j < self.bytes@.len() implies self.bytes@[j]
                        != 0 by {
                        if j >= b0.len() {
                            assert(self.bytes@[j] == chunk@[j - b0.len()]);
                        }
                    }
                }
                return Some(i);
            }
            self.bytes.push(chunk[i]);
            assert(chunk@.subrange(0, i + 1) =~= chunk@.subrange(0, i as int).push(chunk@[i as int]));
            i += 1;
        }
        assert(chunk@.subrange(0, chunk@.len() as int) =~= chunk@);
        self.next = ceil_page_size(self.next + 1);
        assert forall|j: int| 0 <= j < self.bytes@.len() implies self.bytes@[j] != 0 by {
            if j >= b0.len() {
                assert(self.bytes@[j] == chunk@[j - b0.len()]);
            }
        }
        None
    }
}

/// Memory the tracer shares with the tracee: `data` is what the tracee sees
/// at `start`.
pub struct LocalMapping {
    pub start: u64,
    pub data: Vec<u8>,
}

impl LocalMapping {
    /// The mapping holds all of `[addr, addr + n)`.
    pub open spec fn covers(&self, addr: u64, n: int) -> bool {
        self.start <= addr && addr + n <= self.start + self.data@.len()
    }

    /// Copy `n` bytes at tracee address `addr`, if the mapping holds them.
    pub fn local_read(&self, addr: u64, n: usize) -> (r: Option<Vec<u8>>)
        ensures
            r is Some == self.covers(addr, n as int),
            r is Some ==> r->0@ == self.data@.subrange(
                addr - self.start,
                addr - self.start + n,
            ),
    {
        if addr < self.start {
            return None;
        }
        let off = addr - self.start;
        let len = self.data.len();
        if off > len as u64 || (n as u64) > (len as u64) - off {
            return None;
        }
        let off = off as usize;
        let mut out: Vec<u8> = Vec::new();
        let mut i: usize = 0;
        while i < n
            invariant
                i <= n,
                len == self.data@.len(),
                off + n <= self.data@.len(),
                out@ == self.data@.subrange(off as int, off + i),
            decreases n - i,
        {
            out.push(self.data[off + i]);
            assert(self.data@.subrange(off as int, off + i + 1) =~= self.data@.subrange(
                off as int,
                off + i,
            ).push(self.data@[off + i]));
            i += 1;
        }
        Some(out)
    }

    /// The contents after `buf` is written at tracee address `addr`.
    pub open spec fn spliced(&self, addr: u64, buf: Seq<u8>) -> Seq<u8> {
        let off = addr - self.start;
        self.data@.subrange(0, off).add(buf).add(
            self.data@.subrange(off + buf.len(), self.data@.len() as int),
        )
    }

    /// Write `buf` at tracee address `addr`, if the mapping holds the range.
    #[verifier::rlimit(30)]
    pub fn local_write(&mut self, addr: u64, buf: &Vec<u8>) -> (written: bool)
        ensures
            written == old(self).covers(addr, buf@.len() as int),
            final(self).start == old(self).start,
            written ==> final(self).data@ == old(self).spliced(addr, buf@),
            !written ==> final(self).data@ == old(self).data@,
    {
        if addr < self.start {
            return false;
        }
        let off = addr - self.start;
        let len = self.data.len();
        let n = buf.len();
        if off > len as u64 || (n as u64) > (len as u64) - off {
            return false;
        }
        let off = off as usize;
        let mut i: usize = 0;
        while i < n
            invariant
                i <= n,
                n == buf@.len(),
                len == self.data@.len(),
                off + n <= self.data@.len(),
                self.start == old(self).start,
                self.data@.len() == old(self).data@.len(),
                forall|j: int| 0 <= j < off ==> self.data@[j] == old(self).data@[j],
                forall|j: int| off + n <= j < self.data@.len() ==> self.data@[j] == old(self).data@[j],
                forall|j: int| 0 <= j < i ==> self.data@[off + j] == buf@[j],
            decreases n - i,
        {
            self.data.set(off + i, buf[i]);
            i += 1;
        }
        assert(self.data@ =~= old(self).spliced(addr, buf@));
        true
    }
}

/// Reading back what was just written to shared memory gives exactly the
/// bytes written.
pub proof fn lemma_local_write_read(m: LocalMapping, addr: u64, buf: Seq<u8>)
    requires
        m.covers(addr, buf.len() as int),
    ensures
        ({
            let d = m.spliced(addr, buf);
            d.len() == m.data@.len() && d.subrange(addr - m.start, addr - m.start + buf.len())
                == buf
        }),
{
    let d = m.spliced(addr, buf);
    assert(d.subrange(addr - m.start, addr - m.start + buf.len()) =~= buf);
}

/// Where the descriptor for `/proc/<tid>/mem` comes from.
#[derive(Clone, Copy, Debug, PartialEq, Eq, Structural)]
pub enum MemFdSource {
    /// The thread is not stopped: no descriptor can be retrieved now.
    NotStopped,
    /// The thread vanished while opening its own mem file.
    TaskVanished,
    /// The tracee could not open its own mem file (as after a fork following
    /// setuid): the tracer opens `/proc/<tid>/mem` itself.
    OpenDirectly,
    /// The tracee opened it as this descriptor: fetch it over the tracee
    /// socket, then close the tracee's copy.
    RetrieveFromTracee(i32),
}

/// Decide the source of the mem descriptor, given whether the thread is
/// stopped and what the tracee's `openat` returned (a descriptor or a
/// negated errno).
pub fn mem_fd_source(is_stopped: bool, remote_fd: i64) -> (r: MemFdSource)
    ensures
        !is_stopped ==> r == MemFdSource::NotStopped,
        is_stopped && remote_fd == -(ESRCH as i64) ==> r == MemFdSource::TaskVanished,
        is_stopped && remote_fd != -(ESRCH as i64) && remote_fd < 0 ==> r
            == MemFdSource::OpenDirectly,
        is_stopped && 0 <= remote_fd <= i32::MAX ==> r == MemFdSource::RetrieveFromTracee(
            remote_fd as i32,
        ),
        is_stopped && remote_fd > i32::MAX ==> r == MemFdSource::OpenDirectly,
{
    if !is_stopped {
        MemFdSource::NotStopped
    } else if remote_fd == -(ESRCH as i64) {
        MemFdSource::TaskVanished
    } else if remote_fd < 0 || remote_fd > i32::MAX as i64 {
        MemFdSource::OpenDirectly
    } else {
        MemFdSource::RetrieveFromTracee(remote_fd as i32)
    }
}

/// The path a tracee opens relative to the reserved root-directory
/// descriptor to reach its own memory: `/proc/self/mem` without the
/// leading `/`.
pub fn proc_self_mem_relative() -> (p: &'static str)
    ensures
        p@ == "proc/self/mem"@,
{
    "proc/self/mem"
}

/// A C-string read asks for one page piece at a time: each piece ends at a
/// page boundary and spans at most one page, so no byte of a page past the
/// one holding the terminator is touched.
pub proof fn lemma_cstr_chunk_within_page(next: u64)
    requires
        spec_ceil_page(next + 1) <= u64::MAX,
    ensures
        1 <= to_page_end(next) <= PAGE_SIZE,
        (next + to_page_end(next)) % (PAGE_SIZE as int) == 0,
        (next as int) / (PAGE_SIZE as int) == (next + to_page_end(next) - 1) / (PAGE_SIZE as int),
{
}

} // verus!
