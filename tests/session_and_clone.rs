use rd::clone_exec::{
    clone_task, close_buffers_for, destroy_buffers, exec_cleanup, prname_from_exe_image,
    set_thread_area_core, stored_record_size, task_drop_plan, unmap_buffers_for, BufferAction,
    CloneFlags, CloneReason, ExecCleanup, ExecStep, TaskBuffers,
};
use rd::kernel::{SupportedArch, AR_L};
use rd::registers::{Reg, Registers};
use rd::session::{
    detach_verdict, is_singlestep, AddressSpaceInfo, DetachVerdict, RunCommand, SessionInner,
    SessionKind, ShutdownAction, Statistics, ThreadGroupInfo, TicksSemantics,
};
use rd::task::{AddressSpaceUid, SigInfo, StopReport, Task, ThreadGroupUid, UserDesc};
use rd::wait_status::WaitStatus;

fn vm(tid: i32) -> AddressSpaceUid {
    AddressSpaceUid { tid, serial: tid as u32, exec_count: 0 }
}

fn tg(tid: i32) -> ThreadGroupUid {
    ThreadGroupUid { tid, serial: tid as u32 }
}

fn stopped(tid: i32) -> Task {
    let mut t = Task::new(tid, tid, tid as u32, SupportedArch::X64, vm(tid), tg(tid));
    let mut r = Registers::new(SupportedArch::X64);
    r.set(Reg::Ip, 0x40_0000);
    r.set(Reg::Arg1, 77);
    t.did_waitpid(
        WaitStatus::for_stop_sig(19),
        StopReport {
            siginfo: Some(SigInfo { signo: 19, code: 0, fd: 0 }),
            native_regs: Some(r.to_native()),
            cs_access_rights: AR_L,
            ticks_interrupt_fd: 0,
            more_ticks: 0,
            breakpoint_at_resume: false,
            rd_page_start: 0x7000_0000,
        },
    );
    t
}

fn two_task_session() -> SessionInner {
    let mut s = SessionInner::new(SessionKind::Recording, 100, TicksSemantics::TicksRetiredConditionalBranches);
    let t1 = stopped(10);
    let t2 = Task::new(20, 20, 20, SupportedArch::X64, vm(20), tg(20));
    s.tasks.push(t1);
    s.tasks.push(t2);
    s.vms.push(AddressSpaceInfo { uid: vm(10), privileged_traced_syscall_ip: Some(0x7000_0010) });
    s.vms.push(AddressSpaceInfo { uid: vm(20), privileged_traced_syscall_ip: Some(0x7000_0010) });
    s.thread_groups.push(ThreadGroupInfo { uid: tg(10), real_tgid: 10, unstable: false });
    s.thread_groups.push(ThreadGroupInfo { uid: tg(20), real_tgid: 20, unstable: false });
    s
}

#[test]
fn orderly_shutdown_with_running_task() {
    let mut s = two_task_session();
    let actions = s.kill_all_tasks();
    assert!(s.tasks.is_empty());
    assert!(s.vms.is_empty());
    assert!(s.thread_groups.is_empty());
    assert_eq!(actions.len(), 1 + 2 + 2 + 2);
    match &actions[0] {
        ShutdownAction::DetachAtExit { tid, regs } => {
            assert_eq!(*tid, 10);
            assert_eq!(regs.ip(), 0x7000_0010);
            assert_eq!(regs.get(Reg::SyscallNo), 60);
            assert_eq!(regs.get(Reg::Arg1), 0);
        },
        _ => panic!("first action must detach the stopped task"),
    }
    let kills: Vec<(i32, i32)> = actions
        .iter()
        .filter_map(|a| match a {
            ShutdownAction::Kill { tgid, tid } => Some((*tgid, *tid)),
            _ => None,
        })
        .collect();
    assert_eq!(kills, vec![(20, 20), (10, 10)]);
    let first_kill = actions.iter().position(|a| matches!(a, ShutdownAction::Kill { .. })).unwrap();
    let last_detach = actions.iter().rposition(|a| matches!(a, ShutdownAction::DetachAtExit { .. })).unwrap();
    assert!(last_detach < first_kill);
    assert!(matches!(actions[3], ShutdownAction::DestroyVm(u) if u == vm(10)));
    assert!(matches!(actions[4], ShutdownAction::DestroyVm(u) if u == vm(20)));
    assert!(matches!(actions[5], ShutdownAction::DestroyTg(u) if u == tg(10)));
    assert!(matches!(actions[6], ShutdownAction::DestroyTg(u) if u == tg(20)));
}

#[test]
fn one_kill_per_stable_thread_group() {
    let mut s = SessionInner::new(SessionKind::Replaying, 100, TicksSemantics::TicksTakenBranches);
    let mut a = Task::new(30, 30, 1, SupportedArch::X64, vm(30), tg(30));
    a.tg = tg(30);
    let b = Task::new(31, 31, 2, SupportedArch::X64, vm(30), tg(30));
    s.tasks.push(a);
    s.tasks.push(b);
    s.vms.push(AddressSpaceInfo { uid: vm(30), privileged_traced_syscall_ip: None });
    s.thread_groups.push(ThreadGroupInfo { uid: tg(30), real_tgid: 30, unstable: false });
    let actions = s.kill_all_tasks();
    let kills = actions.iter().filter(|a| matches!(a, ShutdownAction::Kill { .. })).count();
    assert_eq!(kills, 1);
    assert!(matches!(actions[0], ShutdownAction::Kill { tgid: 30, tid: 31 }));
}

#[test]
fn detach_retries_on_spurious_esrch() {
    assert_eq!(detach_verdict(0, 0, false), DetachVerdict::Detached);
    assert_eq!(detach_verdict(-1, 3, false), DetachVerdict::Retry);
    assert_eq!(detach_verdict(-1, 3, true), DetachVerdict::Vanished);
}

#[test]
fn session_counters() {
    let mut s = SessionInner::new(SessionKind::Recording, 100, TicksSemantics::TicksRetiredConditionalBranches);
    assert!(s.is_recording() && !s.is_replaying() && !s.is_diversion());
    assert_eq!(s.next_task_serial(), 1);
    assert_eq!(s.next_task_serial(), 2);
    s.accumulate_bytes_written(10);
    s.accumulate_bytes_written(5);
    s.accumulate_syscall_performed();
    s.accumulate_ticks_processed(99);
    assert_eq!(s.statistics(), Statistics { bytes_written: 15, ticks_processed: 99, syscalls_performed: 1 });
    assert_eq!(Statistics::new(), Statistics { bytes_written: 0, ticks_processed: 0, syscalls_performed: 0 });
    s.set_visible_execution(false);
    assert!(!s.visible_execution());
    assert_eq!(SessionInner::rd_mapping_prefix(), "/rd-shared-");
    assert_eq!(s.tracee_fd_number(), 100);
}

#[test]
fn singlestep_commands() {
    assert!(is_singlestep(RunCommand::RunSinglestep));
    assert!(is_singlestep(RunCommand::RunSinglestepFastForward));
    assert!(!is_singlestep(RunCommand::RunContinue));
}

#[test]
fn exec_on_shared_address_space() {
    let mut t1 = stopped(40);
    t1.syscallbuf_child = 0x6000_0000;
    t1.syscallbuf_size = 0x10000;
    t1.scratch_ptr = 0x6100_0000;
    t1.scratch_size = 0x1000;
    t1.preload_globals = Some(0x6200_0000);
    t1.thread_areas.push(UserDesc { entry_number: 12, base_addr: 0, limit: 0xfffff, flags: 0x51 });
    let mine = t1.buffers();
    let cleanup = exec_cleanup(mine, &vec![(41, true)]);
    assert_eq!(
        cleanup,
        ExecCleanup::UnmapVia {
            tid: 41,
            actions: vec![
                BufferAction::Unmap { addr: 0x6100_0000, len: 0x1000 },
                BufferAction::Unmap { addr: 0x6000_0000, len: 0x10000 },
            ],
        }
    );
    let old_vm = t1.vm;
    let steps = t1.post_exec(&b"/bin/ls".to_vec());
    let new_vm = t1.vm;
    assert_eq!(new_vm.exec_count, old_vm.exec_count + 1);
    assert_eq!(
        steps,
        vec![
            ExecStep::NotifySession,
            ExecStep::LeaveVm(old_vm),
            ExecStep::LeaveFdTable,
            ExecStep::CreateVm(new_vm),
            ExecStep::CopyFdTable,
        ]
    );
    assert_eq!(t1.prname, b"ls".to_vec());
    assert_eq!(t1.syscallbuf_child, 0);
    assert_eq!(t1.scratch_ptr, 0);
    assert_eq!(t1.preload_globals, None);
    assert!(t1.thread_areas.is_empty());
}

#[test]
fn exec_cleanup_without_stopped_cotenant() {
    let t = stopped(50);
    assert_eq!(exec_cleanup(t.buffers(), &vec![(51, false)]), ExecCleanup::Leak);
    assert_eq!(exec_cleanup(t.buffers(), &vec![]), ExecCleanup::Nothing);
}

#[test]
fn prname_is_basename() {
    assert_eq!(prname_from_exe_image(&b"/usr/bin/env".to_vec()), b"env".to_vec());
    assert_eq!(prname_from_exe_image(&b"a.out".to_vec()), b"a.out".to_vec());
    assert_eq!(prname_from_exe_image(&b"/".to_vec()), Vec::<u8>::new());
}

#[test]
fn buffers_to_unmap_and_close() {
    let b = TaskBuffers {
        syscallbuf_child: 0x1000,
        syscallbuf_size: 0x100,
        scratch_ptr: 0,
        scratch_size: 0,
        desched_fd_child: 5,
        cloned_file_data_fd_child: -1,
    };
    assert_eq!(unmap_buffers_for(b), vec![BufferAction::Unmap { addr: 0x1000, len: 0x100 }]);
    assert_eq!(close_buffers_for(5, 6, true), vec![BufferAction::CloseRemote { fd: 5 }, BufferAction::CloseRemote { fd: 6 }]);
    assert_eq!(close_buffers_for(5, -1, false), vec![BufferAction::Forget { fd: 5 }]);
    assert_eq!(close_buffers_for(-1, -1, true), vec![]);
}

#[test]
fn destroying_buffers_forgets_them() {
    let mut t = stopped(60);
    t.syscallbuf_child = 0x1000;
    t.syscallbuf_size = 0x100;
    t.scratch_ptr = 0x2000;
    t.scratch_size = 0x10;
    t.desched_fd_child = 9;
    let r = destroy_buffers(&mut t, true);
    assert_eq!(
        r,
        vec![
            BufferAction::Unmap { addr: 0x2000, len: 0x10 },
            BufferAction::Unmap { addr: 0x1000, len: 0x100 },
            BufferAction::CloseRemote { fd: 9 },
        ]
    );
    assert_eq!((t.syscallbuf_child, t.scratch_ptr, t.desched_fd_child), (0, 0, -1));
}

#[test]
fn fork_clone_plan() {
    let mut parent = stopped(70);
    parent.prname = b"parent".to_vec();
    parent.syscallbuf_size = 0x10000;
    parent.desched_fd_child = 100;
    parent.seccomp_bpf_enabled = true;
    let other = TaskBuffers {
        syscallbuf_child: 0x3000,
        syscallbuf_size: 0x1000,
        scratch_ptr: 0x5000,
        scratch_size: 0x100,
        desched_fd_child: 101,
        cloned_file_data_fd_child: -1,
    };
    let flags = CloneFlags { share_vm: false, share_files: false, share_thread_group: false, set_tls: false };
    let (child, plan) = clone_task(
        &parent, CloneReason::TraceeClone, flags, 0, 0, 71, 0, 9, vm(71), tg(71),
        &vec![other], &vec![other], false, true,
    );
    assert_eq!(child.tid, 71);
    assert_eq!(child.rec_tid, 71);
    assert_eq!(child.vm, vm(71));
    assert_eq!(child.tg, tg(71));
    assert_eq!(child.prname, b"parent".to_vec());
    assert_eq!(child.syscallbuf_size, 0x10000);
    assert!(child.seccomp_bpf_enabled);
    assert!(!child.is_stopped);
    assert_eq!(plan.unmap_in_child, vec![
        BufferAction::Unmap { addr: 0x5000, len: 0x100 },
        BufferAction::Unmap { addr: 0x3000, len: 0x1000 },
    ]);
    assert!(plan.did_fork_into);
    assert_eq!(plan.close_in_child, vec![BufferAction::CloseRemote { fd: 100 }, BufferAction::CloseRemote { fd: 101 }]);
    assert!(plan.copy_fd_table);
    assert!(plan.post_vm_clone);
    assert!(plan.copy_preload_thread_locals);
}

#[test]
fn thread_clone_plan() {
    let parent = stopped(80);
    let flags = CloneFlags { share_vm: true, share_files: true, share_thread_group: true, set_tls: true };
    let (child, plan) = clone_task(
        &parent, CloneReason::TraceeClone, flags, 0x7f00_1000, 0x1234, 81, 0, 10, vm(81), tg(81),
        &vec![], &vec![], false, true,
    );
    assert_eq!(child.vm, vm(80));
    assert_eq!(child.tg, tg(80));
    assert_eq!(child.top_of_stack, 0x7f00_1000);
    assert_eq!(plan.remap_stack_at, Some(0x7f00_0fff));
    assert_eq!(plan.set_thread_area_from, None);
    assert!(plan.unmap_in_child.is_empty());
    assert!(plan.close_in_child.is_empty());
    assert!(!plan.copy_fd_table);
    assert!(!plan.post_vm_clone);
}

#[test]
fn thread_areas_replace_by_entry_number() {
    let mut areas = vec![UserDesc { entry_number: 12, base_addr: 1, limit: 2, flags: 3 }];
    set_thread_area_core(&mut areas, UserDesc { entry_number: 13, base_addr: 4, limit: 5, flags: 6 });
    assert_eq!(areas.len(), 2);
    set_thread_area_core(&mut areas, UserDesc { entry_number: 12, base_addr: 9, limit: 9, flags: 9 });
    assert_eq!(areas.len(), 2);
    assert_eq!(areas[0].base_addr, 9);
}

#[test]
fn drop_plans() {
    let mut t = stopped(90);
    t.unstable = true;
    t.syscallbuf_child = 0x1000;
    t.syscallbuf_size = 0x20;
    let p = task_drop_plan(&t, true, false, 90);
    assert_eq!(p.unmap_syscallbuf.map(|r| (r.addr, r.len)), Some((0x1000, 0x20)));
    assert_eq!(p.reap_tgid, None);
    let mut u = stopped(91);
    u.seen_ptrace_exit_event = true;
    assert_eq!(task_drop_plan(&u, true, true, 91).reap_tgid, Some(91));
    assert_eq!(task_drop_plan(&u, true, false, 91).reap_tgid, None);
    assert_eq!(task_drop_plan(&u, false, true, 91).reap_tgid, None);
}

#[test]
fn record_sizes_round_to_eight() {
    assert_eq!(stored_record_size(0), 0);
    assert_eq!(stored_record_size(1), 8);
    assert_eq!(stored_record_size(24), 24);
    assert_eq!(stored_record_size(25), 32);
}
