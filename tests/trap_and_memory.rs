use rd::kernel::{MAP_SHARED, PROT_READ, PROT_WRITE};
use rd::remote_mem::{
    mem_fd_source, read_bytes_helper, read_complete, safe_pwrite64_plan, start_write,
    write_verdict, write_verdict_ptrace, CStrReader, LocalMapping, Mapping, MemFdSource, MemRead,
    ProtFix, ReadStep, WriteStep, WriteVerdict,
};
use rd::task::{ResumeRequest, TrappedInstruction};
use rd::trap::{compute_trap_reasons, is_trap_consistent, watchpoint_notification, TrapContext, TrapReasons};

fn ctx() -> TrapContext {
    TrapContext {
        debug_status: 0,
        how_last_resumed: ResumeRequest::Cont,
        resume_addr: 0x1000,
        ip: 0x2000,
        syscall_insn_at_resume: false,
        insn_at_resume: TrappedInstruction::NoTrap,
        watchpoint_changes: false,
        exec_watchpoint_before_ip: false,
        bkpt_insn_at_resume: false,
        bkpt_insn_before_ip: true,
        si_signo: 5,
        si_code: 0,
    }
}

fn exactly_one(r: TrapReasons) -> bool {
    (r.singlestep as u8) + (r.watchpoint as u8) + (r.breakpoint as u8) == 1
}

#[test]
fn single_step_alone() {
    let c = TrapContext { debug_status: 0x4000, how_last_resumed: ResumeRequest::Singlestep, ..ctx() };
    let r = compute_trap_reasons(&c);
    assert_eq!(r, TrapReasons { singlestep: true, watchpoint: false, breakpoint: false });
    assert!(exactly_one(r));
}

#[test]
fn watchpoint_alone() {
    let c = TrapContext { debug_status: 0x2, ..ctx() };
    let r = compute_trap_reasons(&c);
    assert_eq!(r, TrapReasons { singlestep: false, watchpoint: true, breakpoint: false });
    assert!(exactly_one(r));
    let c2 = TrapContext { watchpoint_changes: true, ..ctx() };
    assert!(exactly_one(compute_trap_reasons(&c2)));
}

#[test]
fn breakpoint_alone() {
    let c = TrapContext { si_code: 0x80, ..ctx() };
    let r = compute_trap_reasons(&c);
    assert_eq!(r, TrapReasons { singlestep: false, watchpoint: false, breakpoint: true });
    let c2 = TrapContext { si_code: 1, ..ctx() };
    assert!(compute_trap_reasons(&c2).breakpoint);
    let user = TrapContext { si_code: 0, ..ctx() };
    assert_eq!(compute_trap_reasons(&user), TrapReasons { singlestep: false, watchpoint: false, breakpoint: false });
}

#[test]
fn emulated_steps_count_as_singlestep() {
    let base = TrapContext { how_last_resumed: ResumeRequest::SysemuSinglestep, ..ctx() };
    let syscall = TrapContext { syscall_insn_at_resume: true, ip: 0x1002, ..base };
    assert!(compute_trap_reasons(&syscall).singlestep);
    let int3 = TrapContext { insn_at_resume: TrappedInstruction::Int3, ip: 0x1001, ..base };
    assert!(compute_trap_reasons(&int3).singlestep);
    let not_step = TrapContext { how_last_resumed: ResumeRequest::Cont, ..int3 };
    assert!(!compute_trap_reasons(&not_step).singlestep);
}

#[test]
fn concurrent_events_give_several_reasons() {
    let c = TrapContext { debug_status: 0x4001, how_last_resumed: ResumeRequest::Singlestep, bkpt_insn_at_resume: true, ip: 0x1001, ..ctx() };
    let r = compute_trap_reasons(&c);
    assert!(r.singlestep && r.watchpoint && r.breakpoint);
}

#[test]
fn watchpoint_notification_address() {
    assert_eq!(watchpoint_notification(0, ResumeRequest::Singlestep, 0x1000), None);
    assert_eq!(watchpoint_notification(0x4000, ResumeRequest::Singlestep, 0x1000), Some(0x1000));
    assert_eq!(watchpoint_notification(0x1, ResumeRequest::Cont, 0x1000), Some(0));
}

#[test]
fn empty_read_touches_nothing() {
    let (s, step) = MemRead::start(0, false, true);
    assert_eq!(step, ReadStep::Finished(0));
    assert_eq!(s.all_read, 0);
    assert_eq!(MemRead::start(0, true, false).1, ReadStep::Finished(0));
}

#[test]
fn read_paths() {
    assert_eq!(MemRead::start(8, true, true).1, ReadStep::CopyFromLocal);
    assert_eq!(MemRead::start(8, false, false).1, ReadStep::ReadByPtrace);
    assert_eq!(MemRead::start(8, false, true).1, ReadStep::Pread { offset: 0 });
}

#[test]
fn short_reads_accumulate() {
    let (mut s, _) = MemRead::start(100, false, true);
    assert_eq!(s.after_pread(60, 0), ReadStep::Pread { offset: 60 });
    assert_eq!(s.after_pread(40, 0), ReadStep::Finished(100));
    let (mut p, _) = MemRead::start(100, false, true);
    assert_eq!(p.after_pread(30, 0), ReadStep::Pread { offset: 30 });
    assert_eq!(p.after_pread(-1, 5), ReadStep::Finished(30));
    let (mut e, _) = MemRead::start(100, false, true);
    assert_eq!(e.after_pread(-1, 14), ReadStep::Failed);
}

#[test]
fn stale_mem_fd_is_reopened_once() {
    let (mut s, _) = MemRead::start(16, false, true);
    assert_eq!(s.after_pread(0, 0), ReadStep::ReopenMemFd);
    assert_eq!(s.after_reopen(true), ReadStep::Pread { offset: 0 });
    assert_eq!(s.after_pread(16, 0), ReadStep::Finished(16));
    let (mut t, _) = MemRead::start(16, false, true);
    t.after_pread(0, 0);
    t.after_reopen(true);
    assert_eq!(t.after_pread(0, 0), ReadStep::Failed);
    let (mut u, _) = MemRead::start(16, false, true);
    u.after_pread(0, 0);
    assert_eq!(u.after_reopen(false), ReadStep::Finished(0));
}

#[test]
fn read_completion_flag() {
    let mut ok = true;
    read_bytes_helper(Ok(4), 4, &mut ok);
    assert!(ok);
    read_bytes_helper(Ok(3), 4, &mut ok);
    assert!(!ok);
    let mut ok2 = true;
    read_bytes_helper(Err(()), 4, &mut ok2);
    assert!(!ok2);
    assert!(read_complete(Ok(4), 4));
}

#[test]
fn write_decisions() {
    assert_eq!(start_write(0, true, true), WriteStep::Done);
    assert_eq!(start_write(4, true, true), WriteStep::CopyToLocal);
    assert_eq!(start_write(4, false, false), WriteStep::WriteByPtrace);
    assert_eq!(start_write(4, false, true), WriteStep::SafePwrite);
    assert_eq!(write_verdict(Ok(0), 0, 4), WriteVerdict::ReopenAndRetry);
    assert_eq!(write_verdict(Err(()), 1, 4), WriteVerdict::PermissionDenied);
    assert_eq!(write_verdict(Ok(4), 0, 4), WriteVerdict::Finished { written: 4, complete: true });
    assert_eq!(write_verdict(Ok(2), 0, 4), WriteVerdict::Finished { written: 2, complete: false });
    assert_eq!(write_verdict(Err(()), 14, 4), WriteVerdict::Finished { written: 0, complete: false });
    assert_eq!(write_verdict_ptrace(3, 4), WriteVerdict::Finished { written: 3, complete: false });
}

#[test]
fn write_through_prot_none_page() {
    let p: u64 = 0x7f00_0000_0000;
    let maps = vec![Mapping { start: p, end: p + 0x1000, prot: 0, flags: 2 }];
    let plan = safe_pwrite64_plan(&maps, p + 0x10, 4);
    assert_eq!(plan.restore, vec![ProtFix { start: p, size: 0x1000, prot: 0 }]);
    assert_eq!(plan.elevate, vec![ProtFix { start: p, size: 0x1000, prot: PROT_WRITE }]);
}

#[test]
fn unwritable_and_shared_readable_pages_are_fixed() {
    let maps = vec![
        Mapping { start: 0x1000, end: 0x2000, prot: PROT_READ | PROT_WRITE, flags: 2 },
        Mapping { start: 0x2000, end: 0x3000, prot: PROT_READ, flags: 2 },
        Mapping { start: 0x3000, end: 0x4000, prot: PROT_READ, flags: MAP_SHARED },
        Mapping { start: 0x4000, end: 0x5000, prot: 0, flags: 2 },
    ];
    let plan = safe_pwrite64_plan(&maps, 0x1800, 0x2000);
    assert_eq!(
        plan.restore,
        vec![
            ProtFix { start: 0x2000, size: 0x1000, prot: PROT_READ },
            ProtFix { start: 0x3000, size: 0x1000, prot: PROT_READ },
        ]
    );
    assert_eq!(
        plan.elevate,
        vec![
            ProtFix { start: 0x2000, size: 0x1000, prot: PROT_READ | PROT_WRITE },
            ProtFix { start: 0x3000, size: 0x1000, prot: PROT_READ | PROT_WRITE },
        ]
    );
    // a shared mapping that is readable and writable is fixed too
    let shared_rw = vec![Mapping { start: 0x1000, end: 0x2000, prot: PROT_READ | PROT_WRITE, flags: MAP_SHARED }];
    assert_eq!(safe_pwrite64_plan(&shared_rw, 0x1000, 8).restore.len(), 1);
    // a private writable mapping needs nothing
    let private_rw = vec![Mapping { start: 0x1000, end: 0x2000, prot: PROT_READ | PROT_WRITE, flags: 2 }];
    assert!(safe_pwrite64_plan(&private_rw, 0x1000, 8).restore.is_empty());
}

#[test]
fn cstring_read_stops_at_terminator() {
    let mut r = CStrReader::new(0x1ffa);
    let (addr, len) = r.next_chunk();
    assert_eq!((addr, len), (0x1ffa, 6));
    assert_eq!(r.feed(&vec![b'h', b'e', b'l', b'l', b'o', b' ']), None);
    assert_eq!(r.next, 0x2000);
    let (addr2, len2) = r.next_chunk();
    assert_eq!((addr2, len2), (0x2000, 0x1000));
    let mut page = vec![0xaau8; 0x1000];
    page[0] = b'w';
    page[1] = 0;
    assert_eq!(r.feed(&page), Some(1));
    assert!(r.done);
    assert_eq!(r.bytes, b"hello w".to_vec());
}

#[test]
fn local_mapping_round_trip() {
    let mut m = LocalMapping { start: 0x5000, data: vec![0; 64] };
    assert!(m.local_write(0x5010, &vec![0xde, 0xad, 0xbe, 0xef]));
    assert_eq!(m.local_read(0x5010, 4), Some(vec![0xde, 0xad, 0xbe, 0xef]));
    assert_eq!(m.local_read(0x503e, 4), None);
    assert!(!m.local_write(0x4fff, &vec![1]));
    assert_eq!(m.data[0x10], 0xde);
}

#[test]
fn mem_fd_sources() {
    assert_eq!(mem_fd_source(false, 5), MemFdSource::NotStopped);
    assert_eq!(mem_fd_source(true, -3), MemFdSource::TaskVanished);
    assert_eq!(mem_fd_source(true, -13), MemFdSource::OpenDirectly);
    assert_eq!(mem_fd_source(true, 7), MemFdSource::RetrieveFromTracee(7));
}

#[test]
fn inconsistent_traps_are_detected() {
    assert!(is_trap_consistent(&TrapContext { si_code: 0x80, ..ctx() }));
    // a kernel trap with no breakpoint instruction before ip
    assert!(!is_trap_consistent(&TrapContext { si_code: 0x80, bkpt_insn_before_ip: false, ..ctx() }));
    // a step onto a breakpoint that did not stop just past the resume address
    let step = TrapContext { debug_status: 0x4000, how_last_resumed: ResumeRequest::Singlestep, bkpt_insn_at_resume: true, ..ctx() };
    assert!(!is_trap_consistent(&step));
    assert!(is_trap_consistent(&TrapContext { ip: 0x1001, ..step }));
    // an unexplained stop whose siginfo is not SIGTRAP's
    assert!(!is_trap_consistent(&TrapContext { si_signo: 11, ..ctx() }));
}
