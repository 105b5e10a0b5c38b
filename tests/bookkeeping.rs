use rd::session::{
    AddressSpaceInfo, BreakStatus, SessionInner, SessionKind, ThreadGroupInfo, TicksSemantics,
    WatchConfig, WatchType,
};
use rd::kernel::SupportedArch;
use rd::task::{read_val_mem, write_val_mem, SigInfo, Task, ThreadGroupUid};

#[test]
fn address_spaces_come_and_go() {
    let mut s = SessionInner::new(SessionKind::Replaying, 3, TicksSemantics::TicksTakenBranches);
    let a = s.create_vm(10, 1, 0, Some(0x7000));
    let b = s.create_vm(10, 1, 1, None);
    assert_eq!(a.exec_count, 0);
    assert_eq!(b.exec_count, 1);
    assert_eq!(s.vms(), vec![a, b]);
    s.on_destroy_vm(a);
    assert_eq!(s.vms(), vec![b]);
    assert_eq!(
        s.vms[0],
        AddressSpaceInfo { uid: b, privileged_traced_syscall_ip: None }
    );
}

#[test]
fn thread_groups_come_and_go() {
    let mut s = SessionInner::new(SessionKind::Diversion, 3, TicksSemantics::TicksTakenBranches);
    assert!(s.is_diversion());
    let g1 = ThreadGroupUid { tid: 5, serial: 1 };
    let g2 = ThreadGroupUid { tid: 6, serial: 2 };
    s.on_create_tg(ThreadGroupInfo { uid: g1, real_tgid: 5, unstable: false });
    s.on_create_tg(ThreadGroupInfo { uid: g2, real_tgid: 6, unstable: false });
    s.on_destroy_tg(g1);
    assert_eq!(s.thread_groups.len(), 1);
    assert_eq!(s.thread_groups[0].uid, g2);
}

#[test]
fn break_status_reasons() {
    let mut b = BreakStatus::new(7);
    assert!(!b.any_break());
    assert!(!b.hardware_or_software_breakpoint_hit());
    b.watchpoints_hit.push(WatchConfig { addr: 0x10, num_bytes: 4, kind: WatchType::Write });
    assert!(b.any_break());
    assert!(!b.hardware_or_software_breakpoint_hit());
    b.watchpoints_hit.push(WatchConfig { addr: 0x20, num_bytes: 1, kind: WatchType::Exec });
    assert!(b.hardware_or_software_breakpoint_hit());
    assert_eq!(
        b.data_watchpoints_hit(),
        vec![WatchConfig { addr: 0x10, num_bytes: 4, kind: WatchType::Write }]
    );
    let mut s = BreakStatus::new(8);
    s.signal = Some(SigInfo { signo: 11, code: 1, fd: 0 });
    assert!(s.any_break());
    let mut e = BreakStatus::new(9);
    e.task_exit = true;
    assert!(!e.any_break());
}

#[test]
fn values_read_back_from_their_bytes() {
    assert_eq!(read_val_mem(&vec![0x46, 0x03]), 0x0346);
    assert_eq!(read_val_mem(&vec![]), 0);
    assert_eq!(read_val_mem(&write_val_mem(0xdead_beef_0102_0304, 8)), 0xdead_beef_0102_0304);
    assert_eq!(read_val_mem(&write_val_mem(0x1_0000, 2)), 0);
}

#[test]
fn task_table_add_find_remove() {
    let mut s = SessionInner::new(SessionKind::Recording, 3, TicksSemantics::TicksRetiredConditionalBranches);
    let vm = s.create_vm(1, 1, 0, None);
    let tg = ThreadGroupUid { tid: 1, serial: 1 };
    s.on_create_tg(ThreadGroupInfo { uid: tg, real_tgid: 1, unstable: false });
    s.add_task(Task::new(1, 501, 1, SupportedArch::X64, vm, tg));
    s.add_task(Task::new(2, 502, 2, SupportedArch::X64, vm, tg));
    assert_eq!(s.find_task_from_rec_tid(502), Some(1));
    assert_eq!(s.find_task_from_rec_tid(999), None);
    let gone = s.on_destroy_task(1).expect("task 1 exists");
    assert_eq!(gone.tid, 1);
    assert_eq!(s.tasks.len(), 1);
    assert_eq!(s.tasks[0].tid, 2);
    assert!(s.on_destroy_task(1).is_none());
}

#[test]
fn cloned_address_space_keeps_syscall_address() {
    let mut s = SessionInner::new(SessionKind::Replaying, 3, TicksSemantics::TicksTakenBranches);
    let a = s.create_vm(1, 1, 2, Some(0x7000_0010));
    let b = s.clone_vm(9, 4, a);
    assert_eq!(b.tid, 9);
    assert_eq!(b.serial, 4);
    assert_eq!(b.exec_count, 0);
    assert_eq!(s.vms[1].privileged_traced_syscall_ip, Some(0x7000_0010));
    let g = s.create_initial_tg(1, 1, 1234);
    assert_eq!(s.thread_groups[0], ThreadGroupInfo { uid: g, real_tgid: 1234, unstable: false });
}
