use prestige::allocator::allocate;
use prestige::frame_alloc::{BootInfoFrameAllocator, MemmapEntry, PhysFrame, RegionKind};
use prestige::gdt::{USER_CODE, USER_DATA};
use prestige::paging::{Mapper, Page, PageEntry};
use prestige::process::{
    ExitCode, IdSource, Launch, Process, ProcessGroupId, ProcessId, ProcessPrivileges,
    ProcessTable, ProcessUserId, StackFrame, Thread, ThreadId, ALL_PRIVILEGES, MAX_PROC_SIZE,
    OWNER_PRIVILEGES, USER_SPACE_END,
};
use prestige::resource::{Device, Resource};

fn frames(n: u64) -> BootInfoFrameAllocator {
    BootInfoFrameAllocator::init(&vec![MemmapEntry {
        base: 0x200000,
        len: n * 4096,
        kind: RegionKind::Usable,
    }])
}

const CONSOLE: Resource = Resource::Device(Device::Console);
const NULL: Resource = Resource::Device(Device::Null);

fn children(set: &std::collections::BTreeSet<u64>) -> Vec<u64> {
    set.iter().copied().collect()
}

#[test]
fn exit_codes() {
    let table = [
        (0, ExitCode::Success),
        (1, ExitCode::GeneralFailure),
        (60, ExitCode::UsageFault),
        (61, ExitCode::DataFault),
        (125, ExitCode::WriteFault),
        (126, ExitCode::ReadFault),
        (127, ExitCode::OpenFault),
        (128, ExitCode::ExecFault),
        (129, ExitCode::PageFault),
        (130, ExitCode::SegFault),
        (225, ExitCode::ShellExit),
    ];
    for (n, code) in table {
        assert_eq!(ExitCode::from(n), code);
        assert_eq!(code.code() as usize, n);
    }
    assert_eq!(ExitCode::from(2), ExitCode::GeneralFailure);
    assert_eq!(ExitCode::from(59), ExitCode::GeneralFailure);
    assert_eq!(ExitCode::from(255), ExitCode::GeneralFailure);
    assert_eq!(ExitCode::from(100_000), ExitCode::GeneralFailure);
}

#[test]
fn identifiers_count_up_and_wrap() {
    let mut ids = IdSource::new();
    assert_eq!(ProcessId::new(&mut ids), ProcessId(0));
    assert_eq!(ProcessId::new(&mut ids), ProcessId(1));
    assert_eq!(ProcessId::new(&mut ids).inner(), 2);
    assert_eq!(ThreadId::new(&mut ids), ThreadId(0));
    assert_eq!(ProcessUserId::new(&mut ids).inner(), 0);
    assert_eq!(ProcessUserId::new(&mut ids).inner(), 1);
    assert_eq!(ProcessGroupId::new(&mut ids).inner(), 0);
    assert_eq!(
        ids,
        IdSource { next_thread: 1, next_process: 3, next_user: 2, next_group: 1 }
    );
    let t = Thread::new(&mut ids, ProcessId(9));
    assert_eq!(t.id(), ThreadId(1));
    assert_eq!(t.proc, ProcessId(9));
    ids.next_process = u64::MAX;
    assert_eq!(ProcessId::new(&mut ids), ProcessId(u64::MAX));
    assert_eq!(ProcessId::new(&mut ids), ProcessId(0));
}

#[test]
fn privileges() {
    assert_eq!(ProcessPrivileges::from_bits(0), Some(ProcessPrivileges { bits: 0 }));
    assert_eq!(
        ProcessPrivileges::from_bits(ALL_PRIVILEGES),
        Some(ProcessPrivileges { bits: (1 << 45) - 1 })
    );
    assert_eq!(ProcessPrivileges::from_bits(1 << 45), None);
    assert_eq!(ProcessPrivileges::from_bits(u64::MAX), None);
    let owner = ProcessPrivileges { bits: 0x3FFF_FFFF }.complement();
    assert_eq!(owner.bits, OWNER_PRIVILEGES);
    assert_eq!(owner.bits, 0x7FFF << 30);
    assert!(owner.contains(ProcessPrivileges::bit(2, 0, 0)));
    assert!(owner.contains(ProcessPrivileges::bit(2, 4, 2)));
    assert!(!owner.contains(ProcessPrivileges::bit(1, 4, 2)));
    assert!(!owner.contains(ProcessPrivileges::bit(0, 0, 0)));
    assert_eq!(ProcessPrivileges::bit(0, 0, 0).bits, 1);
    assert_eq!(ProcessPrivileges::bit(0, 1, 1).bits, 1 << 4);
    assert_eq!(ProcessPrivileges::bit(1, 0, 0).bits, 1 << 15);
    assert_eq!(ProcessPrivileges::bit(2, 4, 2).bits, 1 << 44);
}

#[test]
fn new_process() {
    let mut ids = IdSource::new();
    let p = Process::new("/", &mut ids);
    assert_eq!(p.id(), ProcessId(0));
    assert_eq!(p.parent(), None);
    assert!(p.children.is_empty());
    assert_eq!(p.privileges.bits, OWNER_PRIVILEGES);
    assert_eq!(p.dir(), "/");
    assert_eq!(p.threads.len(), 100);
    assert_eq!(p.threads[0], Some(Thread { id: ThreadId(0), proc: ProcessId(0) }));
    assert!(p.threads[1..].iter().all(|t| t.is_none()));
    assert_eq!(p.resource_handles.len(), 64);
    assert_eq!(p.handle(0), Some(CONSOLE));
    assert_eq!(p.handle(1), Some(CONSOLE));
    assert_eq!(p.handle(2), Some(CONSOLE));
    assert_eq!(p.handle(3), Some(NULL));
    for h in 4..64 {
        assert_eq!(p.handle(h), None);
    }
    assert_eq!(p.handle(64), None);
    assert_eq!(p.handle(usize::MAX), None);
    assert_eq!(p.code_addr(), 0);
    let q = Process::new("/bin", &mut ids);
    assert_eq!(q.id(), ProcessId(1));
    assert_eq!(q.user, ProcessUserId(1));
    assert_eq!(q.group, ProcessGroupId(1));
    assert_eq!(q.threads[0], Some(Thread { id: ThreadId(1), proc: ProcessId(1) }));
    assert_eq!(q.dir(), "/bin");
}

#[test]
fn handles_are_created_from_four_on() {
    let mut ids = IdSource::new();
    let mut p = Process::new("/", &mut ids);
    assert_eq!(p.create_handle(NULL), Ok(4));
    assert_eq!(p.create_handle(CONSOLE), Ok(5));
    p.delete_handle(4);
    assert_eq!(p.handle(4), None);
    assert_eq!(p.create_handle(CONSOLE), Ok(4));
    p.delete_handle(2);
    assert_eq!(p.create_handle(NULL), Ok(6));
    assert_eq!(p.handle(2), None);
    for h in 7..64 {
        assert_eq!(p.create_handle(NULL), Ok(h));
    }
    assert_eq!(p.create_handle(NULL), Err(()));
    p.delete_handle(40);
    assert_eq!(p.create_handle(CONSOLE), Ok(40));
    assert_eq!(p.handle(40), Some(CONSOLE));
}

#[test]
fn handles_are_updated_in_place() {
    let mut ids = IdSource::new();
    let mut p = Process::new("/", &mut ids);
    p.update_handle(3, CONSOLE);
    assert_eq!(p.handle(3), Some(CONSOLE));
    p.update_handle(63, NULL);
    assert_eq!(p.handle(63), Some(NULL));
    assert_eq!(p.handle(62), None);
}

#[test]
fn user_pointers_count_from_the_code() {
    let mut ids = IdSource::new();
    let mut p = Process::new("/", &mut ids);
    assert_eq!(p.ptr_from_addr(0), 0);
    assert_eq!(p.ptr_from_addr(0x1234), 0x1234);
    p.set_code_addr(0x4000_0000);
    assert_eq!(p.code_addr(), 0x4000_0000);
    assert_eq!(p.ptr_from_addr(0), 0x4000_0000);
    assert_eq!(p.ptr_from_addr(0x10), 0x4000_0010);
    assert_eq!(p.ptr_from_addr(0x3FFF_FFFF), 0x7FFF_FFFF);
    assert_eq!(p.ptr_from_addr(0x4000_0000), 0x4000_0000);
    assert_eq!(p.ptr_from_addr(0x4000_0001), 0x4000_0001);
    assert_eq!(p.ptr_from_addr(u64::MAX), u64::MAX);
    p.set_code_addr(USER_SPACE_END - MAX_PROC_SIZE);
    assert_eq!(p.ptr_from_addr(1), USER_SPACE_END - MAX_PROC_SIZE + 1);
}

#[test]
fn directory_and_environment() {
    let mut ids = IdSource::new();
    let mut p = Process::new("/", &mut ids);
    p.set_dir("/home");
    assert_eq!(p.dir(), "/home");
    assert_eq!(p.get_env("PATH"), None);
    p.set_env("PATH", "/bin");
    assert_eq!(p.get_env("PATH"), None);
    p.env.push(("PATH".to_string(), "/bin".to_string()));
    p.env.push(("HOME".to_string(), "/root".to_string()));
    p.env.push(("TERM".to_string(), "vt".to_string()));
    assert_eq!(p.get_env("PATH"), Some("/bin".to_string()));
    assert_eq!(p.get_env("HOME"), Some("/root".to_string()));
    assert_eq!(p.get_env("home"), None);
    p.set_env("PATH", "/usr/bin");
    assert_eq!(p.get_env("PATH"), Some("/usr/bin".to_string()));
    assert_eq!(p.get_env("TERM"), Some("vt".to_string()));
    assert_eq!(p.env[0].0, "PATH");
    assert_eq!(p.env[2].1, "vt");
    p.set_env("HOME", "");
    assert_eq!(p.get_env("HOME"), Some(String::new()));
    p.set_env("SHELL", "sh");
    assert_eq!(p.get_env("SHELL"), None);
    assert_eq!(p.env.len(), 3);
}

#[test]
fn fork_makes_a_child_of_the_parent() {
    let mut ids = IdSource::new();
    let mut p = Process::new("/work", &mut ids);
    p.create_handle(NULL).unwrap();
    p.set_code_addr(0x1000_0000);
    p.registers.rax = 8;
    p.registers.rdi = 77;
    p.env.push(("A".to_string(), "b".to_string()));
    let c = p.fork(&mut ids);
    assert_eq!(c.id(), ProcessId(1));
    assert_eq!(c.parent(), Some(ProcessId(0)));
    assert!(c.children.is_empty());
    assert_eq!(children(&p.children), vec![1]);
    assert_eq!(p.parent(), None);
    assert_eq!(c.resource_handles, p.resource_handles);
    assert_eq!(c.handle(4), Some(NULL));
    assert_eq!(c.dir(), "/work");
    assert_eq!(c.env, p.env);
    assert_eq!(c.code_addr(), 0x1000_0000);
    assert_eq!(c.user, p.user);
    assert_eq!(c.group, p.group);
    assert_eq!(c.privileges, p.privileges);
    assert_eq!(c.threads, p.threads);
    assert_eq!(c.registers.rax, 0);
    assert_eq!(c.registers.rdi, 77);
    assert_eq!(p.registers.rax, 8);
    let d = p.fork(&mut ids);
    assert_eq!(d.id(), ProcessId(2));
    assert_eq!(children(&p.children), vec![1, 2]);
    let mut c = c;
    let g = c.fork(&mut ids);
    assert_eq!(g.parent(), Some(ProcessId(1)));
    assert_eq!(children(&c.children), vec![3]);
    assert_eq!(ids.next_process, 4);
    assert_eq!(ids.next_thread, 1);
}

#[test]
fn fork_does_not_list_a_child_twice() {
    let mut ids = IdSource::new();
    let mut p = Process::new("/", &mut ids);
    let c = p.fork(&mut ids);
    ids.next_process = c.id().inner();
    let again = p.fork(&mut ids);
    assert_eq!(again.id(), c.id());
    assert_eq!(children(&p.children), vec![1]);
}

#[test]
fn set_parent_records_the_parent() {
    let mut ids = IdSource::new();
    let mut p = Process::new("/", &mut ids);
    p.set_parent(ProcessId(41));
    assert_eq!(p.parent(), Some(ProcessId(41)));
}

#[test]
fn exit_unmaps_the_address_range() {
    let mut ids = IdSource::new();
    let mut m = Mapper::new();
    let mut a = frames(16);
    let mut p = Process::new("/", &mut ids);
    p.set_code_addr(0x100_0000_0000);
    allocate(&mut m, &mut a, 0x100_0000_0000, 0x3000).unwrap();
    allocate(&mut m, &mut a, 0x100_0000_0000 + MAX_PROC_SIZE - 0x1000, 0x1000).unwrap();
    allocate(&mut m, &mut a, 0x100_0000_0000 + MAX_PROC_SIZE, 0x1000).unwrap();
    allocate(&mut m, &mut a, 0x100_0000_0000 - 0x1000, 0x1000).unwrap();
    assert_eq!(p.exit(61, &mut m), ExitCode::DataFault);
    assert_eq!(m.translate(Page { start_address: 0x100_0000_0000 }), None);
    assert_eq!(m.translate(Page { start_address: 0x100_0000_2000 }), None);
    assert_eq!(
        m.translate(Page { start_address: 0x100_0000_0000 + MAX_PROC_SIZE - 0x1000 }),
        None
    );
    assert!(m.translate(Page { start_address: 0x100_0000_0000 + MAX_PROC_SIZE }).is_some());
    assert!(m.translate(Page { start_address: 0x100_0000_0000 - 0x1000 }).is_some());
    let q = Process::new("/", &mut ids);
    assert_eq!(q.exit(7, &mut m), ExitCode::GeneralFailure);
}

#[test]
fn exec_builds_the_ring_three_frame() {
    let mut ids = IdSource::new();
    let mut m = Mapper::new();
    let mut a = frames(4);
    let mut p = Process::new("/", &mut ids);
    p.code_addr = 0x100_0000_0000;
    p.stack_addr = 0x100_0000_0000 + MAX_PROC_SIZE;
    p.entry_point_addr = 0x1040;
    let launch = p.exec(&mut m, &mut a, 0xAA00, 3);
    assert_eq!(
        launch,
        Ok(Launch {
            heap_addr: 0x300_0000_0000,
            frame: StackFrame {
                rip: 0x100_0000_1040,
                cs: 0x33,
                rflags: 0x200,
                rsp: 0x500_0000_0000,
                ss: 0x2B,
            },
            rdi: 0xAA00,
            rsi: 3,
        })
    );
    assert_eq!(USER_CODE, 0x33);
    assert_eq!(USER_DATA, 0x2B);
    assert_eq!(
        m.translate(Page { start_address: 0x300_0000_0000 }),
        Some(PageEntry { frame: PhysFrame { start_address: 0x200000 }, flags: 7 })
    );
    assert_eq!(m.translate(Page { start_address: 0x300_0000_1000 }), None);
    assert_eq!(p.exec(&mut m, &mut a, 0, 0), Err(()));
    let mut none = frames(0);
    let mut fresh = Mapper::new();
    assert_eq!(p.exec(&mut fresh, &mut none, 0, 0), Err(()));
}

#[test]
fn table_spawns_processes_side_by_side() {
    let mut t = ProcessTable::new(0x10_0000);
    assert!(t.current_process().is_none());
    assert_eq!(t.spawn("/", 0x40), Some(ProcessId(0)));
    assert_eq!(t.spawn("/bin", 0), Some(ProcessId(1)));
    let p = t.slots[0].as_ref().unwrap();
    assert_eq!(p.code_addr, 0x10_0000);
    assert_eq!(p.stack_addr, 0x10_0000 + MAX_PROC_SIZE);
    assert_eq!(p.entry_point_addr, 0x40);
    assert_eq!(p.handle(3), Some(NULL));
    let q = t.slots[1].as_ref().unwrap();
    assert_eq!(q.code_addr, 0x10_0000 + MAX_PROC_SIZE);
    assert_eq!(q.stack_addr, 0x10_0000 + 2 * MAX_PROC_SIZE);
    assert_eq!(q.dir(), "/bin");
    assert_eq!(q.parent(), None);
    assert_eq!(t.code_addr, 0x10_0000 + 2 * MAX_PROC_SIZE);
    assert_eq!(t.current_process().unwrap().id(), ProcessId(0));
    assert_eq!(t.spawn("/", MAX_PROC_SIZE), None);
    assert_eq!(t.ids.next_process, 2);
    assert!(t.set_current(ProcessId(1)));
    assert_eq!(t.current_process().unwrap().id(), ProcessId(1));
    assert!(!t.set_current(ProcessId(2)));
    assert!(!t.set_current(ProcessId(50)));
    assert!(!t.set_current(ProcessId(u64::MAX)));
    assert_eq!(t.current, 1);
}

#[test]
fn table_runs_out_of_address_space() {
    let mut t = ProcessTable::new(USER_SPACE_END - 2 * MAX_PROC_SIZE);
    assert_eq!(t.spawn("/", 0), Some(ProcessId(0)));
    assert_eq!(t.spawn("/", 0), Some(ProcessId(1)));
    assert_eq!(t.spawn("/", 0), None);
    assert_eq!(t.code_addr, USER_SPACE_END);
}

#[test]
fn table_runs_out_of_slots() {
    let mut t = ProcessTable::new(0);
    assert_eq!(t.spawn("/", 0), Some(ProcessId(0)));
    for i in 1..50 {
        assert_eq!(t.fork(), Some(ProcessId(i)));
    }
    assert_eq!(t.fork(), None);
    assert_eq!(t.spawn("/", 0), None);
    assert_eq!(t.slots[0].as_ref().unwrap().children.len(), 49);
}

#[test]
fn seventh_process_forks_the_eighth() {
    let mut t = ProcessTable::new(0);
    for i in 0..8 {
        assert_eq!(t.spawn("/", 0), Some(ProcessId(i)));
    }
    assert!(t.set_current(ProcessId(7)));
    assert_eq!(t.fork(), Some(ProcessId(8)));
    assert_eq!(children(&t.slots[7].as_ref().unwrap().children), vec![8]);
    assert_eq!(t.slots[8].as_ref().unwrap().parent(), Some(ProcessId(7)));
    assert!(t.slots[8].as_ref().unwrap().children.is_empty());
    assert_eq!(t.slots[8].as_ref().unwrap().registers.rax, 0);
    assert_eq!(t.slots[8].as_ref().unwrap().id(), ProcessId(8));
    assert_eq!(t.current, 7);
}

#[test]
fn table_handles_belong_to_the_running_process() {
    let mut t = ProcessTable::new(0);
    assert_eq!(t.handle(0), None);
    assert_eq!(t.create_handle(NULL), Err(()));
    t.set_handle(5, Some(NULL));
    t.spawn("/", 0);
    t.spawn("/", 0);
    assert_eq!(t.handle(0), Some(CONSOLE));
    assert_eq!(t.create_handle(NULL), Ok(4));
    t.set_handle(9, Some(CONSOLE));
    t.set_handle(0, None);
    assert_eq!(t.handle(9), Some(CONSOLE));
    assert_eq!(t.handle(0), None);
    assert_eq!(t.handle(64), None);
    t.set_current(ProcessId(1));
    assert_eq!(t.handle(0), Some(CONSOLE));
    assert_eq!(t.handle(4), None);
    assert_eq!(t.handle(9), None);
}

#[test]
fn table_exit_removes_the_running_process() {
    let mut t = ProcessTable::new(0x100_0000_0000);
    let mut m = Mapper::new();
    let mut a = frames(4);
    assert_eq!(t.exit(0, &mut m), None);
    t.spawn("/", 0);
    t.spawn("/", 0);
    allocate(&mut m, &mut a, 0x100_0000_0000, 0x1000).unwrap();
    allocate(&mut m, &mut a, 0x100_0000_0000 + MAX_PROC_SIZE, 0x1000).unwrap();
    assert_eq!(t.exit(130, &mut m), Some(ExitCode::SegFault));
    assert!(t.slots[0].is_none());
    assert!(t.slots[1].is_some());
    assert!(t.current_process().is_none());
    assert_eq!(m.translate(Page { start_address: 0x100_0000_0000 }), None);
    assert!(m.translate(Page { start_address: 0x100_0000_0000 + MAX_PROC_SIZE }).is_some());
    assert_eq!(t.exit(0, &mut m), None);
    assert_eq!(t.fork(), None);
}
