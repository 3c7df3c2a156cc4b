use prestige::console::Console;
use prestige::fs::{
    FileKind, OpenFlag, SeekFlag, APPEND, CREATE, DEVICE, DIR, READ, READWRITE, SEEK_CURRENT,
    SEEK_END, SEEK_START, TRUNCATE, WRITE,
};
use prestige::gdt::{
    star_bases, Descriptor, GlobalDescriptorTable, SegmentSelector, Selectors,
    DOUBLE_FAULT_IST_INDEX, GENERAL_PROTECTION_FAULT_IST_INDEX, KERNEL_CODE, KERNEL_DATA,
    PAGE_FAULT_IST_INDEX, STACK_SIZE, TSS, USER_CODE, USER_DATA,
};
use prestige::interrupts::{
    end_of_interrupt, irq_idx, irq_of, Exception, IRQ_COM1, IRQ_KEYBOARD, IRQ_TIMER, PIC1_OFFSET,
    PIC2_OFFSET, SYSCALL_VECTOR,
};
use prestige::resource::{Device, Directory, File, ReadResult, Resource};
use prestige::scheduler::{Scheduler, SpawnError};
use prestige::task::{LocalExecutor, SyncTask, Task, TaskId, TaskPriority, TaskStatus};
use prestige::vga::{Color, ColorCode, SChar};
use prestige::vga_regs::{
    attribute_table, blink_off, enable_cursor, set_palette, write_cursor, DacEntry, Palette,
    CURSOR_DISABLE, UNDERLINE_OFF,
};

#[test]
fn open_flags() {
    assert_eq!((READ, WRITE, READWRITE, APPEND), (1, 2, 3, 4));
    assert_eq!((CREATE, TRUNCATE, DIR, DEVICE), (8, 16, 32, 64));
    assert_eq!(OpenFlag::from_bits(0), Some(OpenFlag { bits: 0 }));
    assert_eq!(OpenFlag::from_bits(0x7F), Some(OpenFlag { bits: 0x7F }));
    assert_eq!(OpenFlag::from_bits(0x80), None);
    assert_eq!(OpenFlag::from_bits(0xFF), None);
    let f = OpenFlag::from_bits(DEVICE | WRITE).unwrap();
    assert!(f.contains(DEVICE));
    assert!(f.contains(WRITE));
    assert!(!f.contains(READ));
    assert!(!f.contains(READWRITE));
    assert!(!f.contains(DIR));
    assert!(OpenFlag { bits: 3 }.contains(READWRITE));
    assert_eq!((SEEK_START, SEEK_CURRENT, SEEK_END), (1, 2, 4));
    assert_eq!(SeekFlag::from_bits(7), Some(SeekFlag { bits: 7 }));
    assert_eq!(SeekFlag::from_bits(8), None);
    assert_ne!(FileKind::Dir, FileKind::File);
}

#[test]
fn opening_paths() {
    let null = Some(Resource::Device(Device::Null));
    let console = Some(Resource::Device(Device::Console));
    assert_eq!(prestige::fs::open("/dev/null", (DEVICE | WRITE) as usize), null);
    assert_eq!(prestige::fs::open("/dev/null", (DEVICE | READ) as usize), null);
    assert_eq!(prestige::fs::open("/dev/console", (DEVICE | READWRITE) as usize), console);
    assert_eq!(prestige::fs::open("/dev/null", (DEVICE | READ | APPEND | CREATE) as usize), null);
    assert_eq!(prestige::fs::open("/dev/zero", (DEVICE | READ) as usize), None);
    assert_eq!(prestige::fs::open("", (DEVICE | READ) as usize), None);
    assert_eq!(prestige::fs::open("/dev/null", DEVICE as usize), None);
    assert_eq!(prestige::fs::open("/dev/null", (DEVICE | TRUNCATE) as usize), None);
    assert_eq!(prestige::fs::open("/dev/null", (DIR | DEVICE | READ) as usize), None);
    assert_eq!(prestige::fs::open("/dev", (DIR | READ) as usize), None);
    assert_eq!(prestige::fs::open("/file", READ as usize), None);
    assert_eq!(prestige::fs::open("/file", (WRITE | CREATE) as usize), None);
    assert_eq!(prestige::fs::open("/dev/null", 0xC1), None);
    assert_eq!(prestige::fs::open("/dev/null", 0x141), null);
    assert_eq!(File::open("/file"), None);
    assert_eq!(Directory::open("/"), None);
}

#[test]
fn resources_share_one_contract() {
    let mut c = Console::new(false, true);
    let dir = Directory { parent: None, addr: 0, size: 0 };
    assert!(dir.is_root());
    assert!(!Directory { parent: Some(0), addr: 8, size: 0 }.is_root());
    let file = File { dir, addr: 16, size: 4, offset: 0 };
    let mut null = Resource::Device(Device::Null);
    assert_eq!(null.read(&mut c, 10), ReadResult::Data(vec![]));
    assert_eq!(null.write(&mut c, b"abc"), Ok(3));
    assert_eq!(null.write(&mut c, b""), Ok(0));
    let mut f = Resource::File(file);
    assert_eq!(f.read(&mut c, 10), ReadResult::Failed);
    assert_eq!(f.write(&mut c, b"abc"), Err(()));
    let mut d = Resource::Directory(dir);
    assert_eq!(d.read(&mut c, 10), ReadResult::Failed);
    assert_eq!(d.write(&mut c, b"abc"), Err(()));
    assert_eq!(c.serial.take_output(), Vec::<u8>::new());
    let mut con = Resource::Device(Device::Console);
    assert_eq!(con.write(&mut c, b"abc"), Ok(3));
    assert_eq!(c.serial.take_output(), b"abc".to_vec());
    assert_eq!(con.read(&mut c, 10), ReadResult::Blocked);
    c.input = vec!['o', 'k', '\n'];
    assert_eq!(con.read(&mut c, 10), ReadResult::Data(b"ok\n".to_vec()));
    let mut dev = Device::Console;
    assert_eq!(dev.read(&mut c, 4), ReadResult::Blocked);
    c.input = vec!['z'];
    assert_eq!(dev.read(&mut c, 4), ReadResult::Data(vec![b'z']));
    assert_eq!(Device::Null.read(&mut c, 4), ReadResult::Data(vec![]));
    assert_eq!(Device::Null.write(&mut c, &[0; 10]), Ok(10));
}

#[test]
fn selectors() {
    assert_eq!(SegmentSelector::new(0, 0), SegmentSelector(0));
    assert_eq!(SegmentSelector::new(1, 0), SegmentSelector(8));
    assert_eq!(SegmentSelector::new(5, 3), SegmentSelector(0x2B));
    assert_eq!(SegmentSelector::new(8191, 3), SegmentSelector(0xFFFB));
    assert_eq!(SegmentSelector(0x33).index(), 6);
    assert_eq!(SegmentSelector(0x33).rpl(), 3);
    assert_eq!(SegmentSelector(0x18).rpl(), 0);
    let (gdt, s) = prestige::gdt::init();
    assert_eq!(gdt.len, 7);
    assert_eq!(
        s,
        Selectors {
            kernel_code: SegmentSelector(0x08),
            kernel_data: SegmentSelector(0x10),
            tss: SegmentSelector(0x18),
            user_data: SegmentSelector(0x2B),
            user_code: SegmentSelector(0x33),
        }
    );
    assert_eq!((KERNEL_CODE, KERNEL_DATA, TSS, USER_DATA, USER_CODE), (8, 16, 24, 43, 51));
    assert_eq!(star_bases(&s), (35, 8));
    assert_eq!(STACK_SIZE, 20 * 1024);
    assert_eq!(
        (DOUBLE_FAULT_IST_INDEX, PAGE_FAULT_IST_INDEX, GENERAL_PROTECTION_FAULT_IST_INDEX),
        (0, 1, 2)
    );
}

#[test]
fn descriptor_table_fills_up() {
    let mut gdt = GlobalDescriptorTable::new();
    assert_eq!(gdt.add_entry(Descriptor::Tss), Some(SegmentSelector(0x08)));
    assert_eq!(gdt.add_entry(Descriptor::Tss), Some(SegmentSelector(0x18)));
    assert_eq!(gdt.add_entry(Descriptor::Tss), Some(SegmentSelector(0x28)));
    assert_eq!(gdt.add_entry(Descriptor::Tss), None);
    assert_eq!(gdt.len, 7);
    assert_eq!(gdt.add_entry(Descriptor::UserCode), Some(SegmentSelector(0x3B)));
    assert_eq!(gdt.add_entry(Descriptor::KernelData), None);
    assert_eq!(gdt.len, 8);
}

#[test]
fn interrupt_vectors() {
    assert_eq!((PIC1_OFFSET, PIC2_OFFSET, SYSCALL_VECTOR), (32, 40, 0x80));
    assert_eq!(irq_idx(IRQ_TIMER), 32);
    assert_eq!(irq_idx(IRQ_KEYBOARD), 33);
    assert_eq!(irq_idx(IRQ_COM1), 36);
    assert_eq!(irq_idx(15), 47);
    assert_eq!(irq_of(32), Some(0));
    assert_eq!(irq_of(36), Some(4));
    assert_eq!(irq_of(47), Some(15));
    assert_eq!(irq_of(48), None);
    assert_eq!(irq_of(31), None);
    assert_eq!(irq_of(0x80), None);
    assert_eq!(end_of_interrupt(32), (true, false));
    assert_eq!(end_of_interrupt(39), (true, false));
    assert_eq!(end_of_interrupt(40), (true, true));
    assert_eq!(end_of_interrupt(47), (true, true));
    assert_eq!(end_of_interrupt(48), (false, false));
    assert_eq!(end_of_interrupt(31), (false, false));
    assert_eq!(end_of_interrupt(0x80), (false, false));
}

#[test]
fn exceptions() {
    assert!(!Exception::Breakpoint.is_fatal());
    assert!(!Exception::DivideError.is_fatal());
    for e in [
        Exception::DoubleFault,
        Exception::PageFault,
        Exception::GeneralProtectionFault,
        Exception::StackSegmentFault,
        Exception::SegmentNotPresent,
    ] {
        assert!(e.is_fatal());
    }
    assert_eq!(Exception::DoubleFault.stack_index(), Some(0));
    assert_eq!(Exception::PageFault.stack_index(), Some(1));
    assert_eq!(Exception::GeneralProtectionFault.stack_index(), Some(2));
    assert_eq!(Exception::Breakpoint.stack_index(), None);
    assert_eq!(Exception::StackSegmentFault.stack_index(), None);
    assert_eq!(Exception::DivideError.vector(), 0);
    assert_eq!(Exception::Breakpoint.vector(), 3);
    assert_eq!(Exception::DoubleFault.vector(), 8);
    assert_eq!(Exception::SegmentNotPresent.vector(), 11);
    assert_eq!(Exception::StackSegmentFault.vector(), 12);
    assert_eq!(Exception::GeneralProtectionFault.vector(), 13);
    assert_eq!(Exception::PageFault.vector(), 14);
}

#[test]
fn attribute_registers() {
    let expected: [u8; 16] = [
        0x00, 0x01, 0x02, 0x03, 0x04, 0x05, 0x14, 0x07, 0x38, 0x39, 0x3A, 0x3B, 0x3C, 0x3D, 0x3E,
        0x3F,
    ];
    let table = attribute_table();
    assert_eq!(table.len(), 16);
    for (i, value) in expected.iter().enumerate() {
        assert_eq!(table[i], (i as u8, *value));
    }
    assert_eq!(blink_off(0xFF), 0xF7);
    assert_eq!(blink_off(0x08), 0x00);
    assert_eq!(blink_off(0x0C), 0x04);
    assert_eq!(blink_off(0x00), 0x00);
    assert_eq!(blink_off(0xF7), 0xF7);
    assert_eq!(UNDERLINE_OFF, 0x1F);
    assert_eq!(CURSOR_DISABLE, (0x0A, 0x20));
}

#[test]
fn palette_is_reduced_to_six_bits() {
    let palette = Palette::default();
    assert_eq!(palette.colors.len(), 16);
    assert_eq!(palette.colors[0], (0, 0, 0));
    assert_eq!(palette.colors[1], (0, 0, 0x80));
    assert_eq!(palette.colors[7], (0xC0, 0xC0, 0xC0));
    assert_eq!(palette.colors[14], (0xFF, 0xFF, 0));
    assert_eq!(palette.colors[15], (0xFF, 0xFF, 0xFF));
    let writes = set_palette(&palette);
    assert_eq!(writes.len(), 16);
    assert_eq!(writes[0], DacEntry { reg: 0x00, red: 0, green: 0, blue: 0 });
    assert_eq!(writes[1], DacEntry { reg: 0x01, red: 0, green: 0, blue: 0x20 });
    assert_eq!(writes[6], DacEntry { reg: 0x14, red: 0x20, green: 0x20, blue: 0 });
    assert_eq!(writes[7], DacEntry { reg: 0x07, red: 0x30, green: 0x30, blue: 0x30 });
    assert_eq!(writes[12], DacEntry { reg: 0x3C, red: 0x3F, green: 0, blue: 0 });
    assert_eq!(writes[15], DacEntry { reg: 0x3F, red: 0x3F, green: 0x3F, blue: 0x3F });
    let custom = Palette { colors: vec![(7, 8, 255); 16] };
    assert_eq!(set_palette(&custom)[3], DacEntry { reg: 0x03, red: 1, green: 2, blue: 63 });
}

#[test]
fn cursor_registers() {
    assert_eq!(write_cursor(0, 0), (0, 0));
    assert_eq!(write_cursor(5, 0), (5, 0));
    assert_eq!(write_cursor(0, 1), (80, 0));
    assert_eq!(write_cursor(16, 3), (0, 1));
    assert_eq!(write_cursor(79, 24), (0xCF, 0x07));
    assert_eq!(write_cursor(80, 24), (0xD0, 0x07));
    assert_eq!(enable_cursor(0x00, 0x00), (13, 14));
    assert_eq!(enable_cursor(0xFF, 0xFF), (0xCD, 0xEE));
    assert_eq!(enable_cursor(0x20, 0x1F), (0x0D, 0x0E));
    assert_eq!(enable_cursor(0x40, 0x20), (0x4D, 0x2E));
}

#[test]
fn plain_writer_writes_on_the_bottom_row() {
    let cc = ColorCode::new(Color::Yellow, Color::Black);
    let mut w = prestige::stdout::Writer::new(cc);
    w.write_string("Hi");
    assert_eq!(w.cell(0, 24), SChar { ascii: b'H', cc });
    assert_eq!(w.cell(1, 24), SChar { ascii: b'i', cc });
    assert_eq!(w.col_pos(), 2);
    w.write_string("\n");
    assert_eq!(w.cell(0, 23), SChar { ascii: b'H', cc });
    assert_eq!(w.cell(1, 23), SChar { ascii: b'i', cc });
    assert_eq!(w.cell(0, 24), SChar { ascii: b' ', cc });
    assert_eq!(w.col_pos(), 0);
    w.write_string("a\tb\u{e9}");
    assert_eq!(w.cell(0, 24), SChar { ascii: b'a', cc });
    assert_eq!(w.cell(1, 24), SChar { ascii: 0xfe, cc });
    assert_eq!(w.cell(2, 24), SChar { ascii: b'b', cc });
    assert_eq!(w.cell(3, 24), SChar { ascii: 0xfe, cc });
    assert_eq!(w.cell(4, 24), SChar { ascii: 0xfe, cc });
    assert_eq!(w.col_pos(), 5);
    w.write_byte(0x01);
    assert_eq!(w.cell(5, 24), SChar { ascii: 0x01, cc });
    for _ in 0..74 {
        w.write_byte(b'.');
    }
    assert_eq!(w.col_pos(), 80);
    w.write_byte(b'!');
    assert_eq!(w.col_pos(), 1);
    assert_eq!(w.cell(0, 24), SChar { ascii: b'!', cc });
    assert_eq!(w.cell(79, 23), SChar { ascii: b'.', cc });
    assert_eq!(w.cell(0, 22), SChar { ascii: b'H', cc });
}

#[test]
fn tasks_get_identifiers_in_order() {
    let mut counter = 0;
    assert_eq!(TaskId::new(&mut counter), TaskId(0));
    assert_eq!(
        Task::new(&mut counter),
        Task { id: TaskId(1), priority: TaskPriority::Medium, status: TaskStatus::New }
    );
    assert_eq!(SyncTask::new(&mut counter), SyncTask { id: TaskId(2) });
    assert_eq!(counter, 3);
    counter = u64::MAX;
    assert_eq!(TaskId::new(&mut counter), TaskId(u64::MAX));
    assert_eq!(counter, 0);
    assert_eq!(TaskPriority::default(), TaskPriority::Medium);
    assert_eq!(TaskStatus::default(), TaskStatus::New);
    assert_eq!(LocalExecutor {}, LocalExecutor {});
}

#[test]
fn scheduler_queues_tasks_in_order() {
    let mut s = Scheduler::new();
    let mut counter = 5;
    assert_eq!(s.next_ready(), None);
    assert!(!s.is_full());
    let a = Task::new(&mut counter);
    let b = Task::new(&mut counter);
    assert!(!s.knows(a.id));
    s.spawn(a);
    assert!(s.knows(a.id));
    assert!(!s.knows(b.id));
    assert_eq!(s.try_spawn(b), Ok(()));
    assert_eq!(s.try_spawn(a), Err(SpawnError::DuplicateId));
    assert_eq!(s.try_spawn(b), Err(SpawnError::DuplicateId));
    assert_eq!(s.next_ready(), Some(TaskId(5)));
    assert_eq!(s.next_ready(), Some(TaskId(6)));
    assert_eq!(s.next_ready(), None);
    assert!(s.knows(a.id));
    assert_eq!(s.try_spawn(a), Err(SpawnError::DuplicateId));
}

#[test]
fn scheduler_queue_is_bounded() {
    let mut s = Scheduler::new();
    let mut counter = 0;
    for _ in 0..100 {
        assert!(!s.is_full());
        assert_eq!(s.try_spawn(Task::new(&mut counter)), Ok(()));
    }
    assert!(s.is_full());
    let extra = Task::new(&mut counter);
    assert_eq!(s.try_spawn(extra), Err(SpawnError::QueueFull));
    assert!(!s.knows(extra.id));
    assert_eq!(s.next_ready(), Some(TaskId(0)));
    assert!(!s.is_full());
    assert_eq!(s.try_spawn(extra), Ok(()));
    assert!(s.is_full());
    for i in 1..=100 {
        assert_eq!(s.next_ready(), Some(TaskId(i)));
    }
    assert_eq!(s.next_ready(), None);
}

#[test]
fn scheduler_wakes_known_tasks() {
    let mut s = Scheduler::new();
    let mut counter = 0;
    let a = Task::new(&mut counter);
    let b = Task::new(&mut counter);
    assert!(!s.wake(a.id));
    s.spawn(a);
    assert_eq!(s.next_ready(), Some(TaskId(0)));
    assert_eq!(s.next_ready(), None);
    assert!(s.wake(a.id));
    assert!(!s.wake(b.id));
    assert!(s.wake(a.id));
    assert_eq!(s.next_ready(), Some(TaskId(0)));
    assert_eq!(s.next_ready(), Some(TaskId(0)));
    assert_eq!(s.next_ready(), None);
    for _ in 0..100 {
        assert!(s.wake(a.id));
    }
    assert!(!s.wake(a.id));
    assert!(s.is_full());
}
