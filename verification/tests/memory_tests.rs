use prestige::allocator::{allocate, free, init_heap, map_range, HEAP_SIZE, HEAP_START};
use prestige::frame_alloc::{
    BootInfoFrameAllocator, MemmapEntry, MemoryRegion, PhysFrame, RegionKind,
};
use prestige::kernel::init;
use prestige::paging::{
    MapToError, Mapper, Mapping, Page, PageEntry, UnmapError, PRESENT, USER_ACCESSIBLE, WRITABLE,
};

fn entry(base: u64, len: u64, kind: RegionKind) -> MemmapEntry {
    MemmapEntry { base, len, kind }
}

fn boot_map() -> Vec<MemmapEntry> {
    vec![
        entry(0, 0x100000, RegionKind::Reserved),
        entry(0x100000, 0x3F00000, RegionKind::Usable),
    ]
}

fn small(frames: u64) -> BootInfoFrameAllocator {
    BootInfoFrameAllocator::init(&vec![entry(0x200000, frames * 4096, RegionKind::Usable)])
}

fn frame(a: u64) -> PhysFrame {
    PhysFrame { start_address: a }
}

#[test]
fn regions_are_widened_to_whole_frames() {
    assert_eq!(
        MemmapEntry::into(&entry(0x1234, 0x1000, RegionKind::Usable)),
        MemoryRegion { start_addr: 0x1000, end_addr: 0x3000 }
    );
    assert_eq!(
        MemmapEntry::into(&entry(0x2000, 0x2000, RegionKind::Usable)),
        MemoryRegion { start_addr: 0x2000, end_addr: 0x4000 }
    );
    assert_eq!(
        MemmapEntry::into(&entry(0x2000, 1, RegionKind::Usable)),
        MemoryRegion { start_addr: 0x2000, end_addr: 0x3000 }
    );
    assert_eq!(
        MemmapEntry::into(&entry(0x2fff, 2, RegionKind::Usable)),
        MemoryRegion { start_addr: 0x2000, end_addr: 0x4000 }
    );
    assert_eq!(
        MemmapEntry::into(&entry(0x5000, 0, RegionKind::Usable)),
        MemoryRegion { start_addr: 0x5000, end_addr: 0x5000 }
    );
}

#[test]
fn only_usable_entries_count() {
    let e = entry(0, 4096, RegionKind::Usable);
    assert_eq!(e.usable(), Some(&e));
    for kind in [
        RegionKind::Reserved,
        RegionKind::AcpiReclaimable,
        RegionKind::AcpiNvs,
        RegionKind::BadMemory,
        RegionKind::BootloaderReclaimable,
        RegionKind::KernelAndModules,
        RegionKind::Framebuffer,
    ] {
        assert_eq!(entry(0, 4096, kind).usable(), None);
    }
}

#[test]
fn frames_come_in_ascending_order_from_the_first_usable_region() {
    let mut a = BootInfoFrameAllocator::init(&boot_map());
    assert_eq!(a.allocate_frame(), Some(frame(0x100000)));
    assert_eq!(a.allocate_frame(), Some(frame(0x101000)));
    assert_eq!(a.allocate_frame(), Some(frame(0x102000)));
}

#[test]
fn frames_run_through_all_usable_regions_and_then_end() {
    let map = vec![
        entry(0x1000, 0x2000, RegionKind::Usable),
        entry(0x3000, 0x1000, RegionKind::Reserved),
        entry(0x8000, 0, RegionKind::Usable),
        entry(0x10800, 0x1000, RegionKind::Usable),
        entry(0x20000, 0x1000, RegionKind::Framebuffer),
    ];
    let mut a = BootInfoFrameAllocator::init(&map);
    let mut got = Vec::new();
    while let Some(f) = a.allocate_frame() {
        got.push(f.start_address);
    }
    assert_eq!(got, vec![0x1000, 0x2000, 0x10000, 0x11000]);
    assert_eq!(a.allocate_frame(), None);
    assert_eq!(a.allocate_frame(), None);
}

#[test]
fn distinct_allocations_give_distinct_frames() {
    let mut a = small(64);
    let mut seen = Vec::new();
    while let Some(f) = a.allocate_frame() {
        assert!(!seen.contains(&f));
        seen.push(f);
    }
    assert_eq!(seen.len(), 64);
}

#[test]
fn deallocation_changes_nothing() {
    let mut a = small(3);
    let first = a.allocate_frame().unwrap();
    a.deallocate_frame(first);
    a.deallocate_frame(first);
    assert_eq!(a.allocate_frame(), Some(frame(0x201000)));
    a.deallocate_frame(frame(0x999000));
    assert_eq!(a.allocate_frame(), Some(frame(0x202000)));
    assert_eq!(a.allocate_frame(), None);
}

#[test]
fn empty_map_has_no_frames() {
    let mut a = BootInfoFrameAllocator::init(&vec![]);
    assert_eq!(a.allocate_frame(), None);
}

#[test]
fn pages_hold_their_addresses() {
    assert_eq!(Page::containing_address(0x1234), Page { start_address: 0x1000 });
    assert_eq!(Page::containing_address(0x1000), Page { start_address: 0x1000 });
    assert_eq!(Page::containing_address(0xFFF), Page { start_address: 0 });
    assert_eq!(
        Page::containing_address(u64::MAX),
        Page { start_address: 0xFFFF_FFFF_FFFF_F000 }
    );
}

#[test]
fn mapper_maps_and_unmaps() {
    let mut m = Mapper::new();
    let p = Page { start_address: 0x4000 };
    assert_eq!(m.translate(p), None);
    assert_eq!(m.map_to(p, frame(0x9000), PRESENT | WRITABLE), Ok(()));
    assert_eq!(m.translate(p), Some(PageEntry { frame: frame(0x9000), flags: 3 }));
    assert_eq!(m.map_to(p, frame(0xA000), PRESENT), Err(MapToError::PageAlreadyMapped));
    assert_eq!(m.translate(p), Some(PageEntry { frame: frame(0x9000), flags: 3 }));
    assert_eq!(m.unmap(p), Ok(frame(0x9000)));
    assert_eq!(m.translate(p), None);
    assert_eq!(m.unmap(p), Err(UnmapError::PageNotMapped));
}

#[test]
fn unmap_range_removes_only_the_range() {
    let mut m = Mapper::new();
    for i in 0..10u64 {
        m.map_to(Page { start_address: i * 4096 }, frame(0x100000 + i * 4096), PRESENT).unwrap();
    }
    assert_eq!(m.unmap_range(0x3000, 0x5000), 3);
    for i in 0..10u64 {
        let mapped = m.translate(Page { start_address: i * 4096 }).is_some();
        assert_eq!(mapped, !(3..=5).contains(&i));
    }
    assert_eq!(m.unmap_range(0x3000, 0x5000), 0);
}

#[test]
fn allocate_maps_every_page_for_user_access() {
    let mut m = Mapper::new();
    let mut a = small(16);
    assert_eq!(allocate(&mut m, &mut a, 0x40_0800, 0x2000), Ok(()));
    for (i, page) in [0x40_0000u64, 0x40_1000, 0x40_2000].iter().enumerate() {
        assert_eq!(
            m.translate(Page { start_address: *page }),
            Some(PageEntry {
                frame: frame(0x200000 + 4096 * i as u64),
                flags: PRESENT | WRITABLE | USER_ACCESSIBLE,
            })
        );
    }
    assert_eq!(m.translate(Page { start_address: 0x3F_F000 }), None);
    assert_eq!(m.translate(Page { start_address: 0x40_3000 }), None);
    assert_eq!(a.allocate_frame(), Some(frame(0x203000)));
}

#[test]
fn free_after_allocate_leaves_nothing_mapped() {
    let mut m = Mapper::new();
    let mut a = small(16);
    m.map_to(Page { start_address: 0x50_0000 }, frame(0x1000), PRESENT).unwrap();
    assert_eq!(allocate(&mut m, &mut a, 0x40_0000, 0x5000), Ok(()));
    free(&mut m, 0x40_0000, 0x5000);
    for i in 0..5u64 {
        assert_eq!(m.translate(Page { start_address: 0x40_0000 + i * 4096 }), None);
    }
    assert!(m.translate(Page { start_address: 0x50_0000 }).is_some());
    free(&mut m, 0x40_0000, 0x5000);
    free(&mut m, 0x50_0000, 0);
    assert!(m.translate(Page { start_address: 0x50_0000 }).is_some());
    free(&mut m, 0x50_0fff, 1);
    assert_eq!(m.translate(Page { start_address: 0x50_0000 }), None);
}

#[test]
fn allocate_of_nothing_succeeds() {
    let mut m = Mapper::new();
    let mut a = small(0);
    assert_eq!(allocate(&mut m, &mut a, 0x1000, 0), Ok(()));
    assert_eq!(m.translate(Page { start_address: 0x1000 }), None);
}

#[test]
fn allocate_fails_when_frames_run_out() {
    let mut m = Mapper::new();
    let mut a = small(2);
    assert_eq!(allocate(&mut m, &mut a, 0x10000, 0x3000), Err(()));
    assert!(m.translate(Page { start_address: 0x10000 }).is_some());
    assert!(m.translate(Page { start_address: 0x11000 }).is_some());
    assert_eq!(m.translate(Page { start_address: 0x12000 }), None);
    assert_eq!(a.allocate_frame(), None);
}

#[test]
fn allocate_fails_on_a_mapped_page() {
    let mut m = Mapper::new();
    let mut a = small(8);
    m.map_to(Page { start_address: 0x11000 }, frame(0x7000), PRESENT).unwrap();
    assert_eq!(allocate(&mut m, &mut a, 0x10000, 0x3000), Err(()));
    assert_eq!(
        m.translate(Page { start_address: 0x10000 }),
        Some(PageEntry { frame: frame(0x200000), flags: 7 })
    );
    assert_eq!(
        m.translate(Page { start_address: 0x11000 }),
        Some(PageEntry { frame: frame(0x7000), flags: PRESENT })
    );
    assert_eq!(m.translate(Page { start_address: 0x12000 }), None);
    assert_eq!(a.allocate_frame(), Some(frame(0x202000)));
}

#[test]
fn map_range_names_its_errors() {
    let mut m = Mapper::new();
    let mut a = small(1);
    assert_eq!(
        map_range(&mut m, &mut a, 0x10000, 0x2000, PRESENT),
        Err(MapToError::FrameAllocationFailed)
    );
    let mut b = small(4);
    assert_eq!(
        map_range(&mut m, &mut b, 0x10000, 0x2000, PRESENT),
        Err(MapToError::PageAlreadyMapped)
    );
    let mut c = small(0);
    assert_eq!(
        map_range(&mut m, &mut c, 0x10000, 0x1000, PRESENT),
        Err(MapToError::FrameAllocationFailed)
    );
    let mut d = small(4);
    assert_eq!(map_range(&mut m, &mut d, 0x20000, 0x2000, PRESENT), Ok(()));
}

#[test]
fn heap_window_is_mapped_present_and_writable() {
    let mut m = Mapper::new();
    let mut a = BootInfoFrameAllocator::init(&boot_map());
    assert_eq!(init_heap(&mut m, &mut a), Ok(()));
    for i in 0..25u64 {
        assert_eq!(
            m.translate(Page { start_address: HEAP_START + i * 4096 }),
            Some(PageEntry { frame: frame(0x100000 + i * 4096), flags: PRESENT | WRITABLE })
        );
    }
    assert_eq!(m.translate(Page { start_address: HEAP_START + HEAP_SIZE }), None);
    assert_eq!(m.translate(Page { start_address: HEAP_START - 4096 }), None);
    assert_eq!(a.allocate_frame(), Some(frame(0x100000 + 25 * 4096)));
    assert_eq!(init_heap(&mut m, &mut a), Err(MapToError::PageAlreadyMapped));
}

#[test]
fn boot_needs_frames_for_the_heap() {
    let few = vec![entry(0x100000, 24 * 4096, RegionKind::Usable)];
    assert!(matches!(init(&few, true, true), Err(MapToError::FrameAllocationFailed)));
    let enough = vec![entry(0x100000, 25 * 4096, RegionKind::Usable)];
    let mut k = match init(&enough, true, false) {
        Ok(k) => k,
        Err(_) => panic!("boot failed"),
    };
    assert_eq!(k.frame_alloc.allocate_frame(), None);
    assert!(k.console.to_vga);
    assert!(!k.console.to_serial);
    assert_eq!(k.processes.code_addr, HEAP_START + HEAP_SIZE);
    assert!(k.processes.slots.iter().all(|s| s.is_none()));
    assert!(k.mapper.translate(Page { start_address: HEAP_START }).is_some());
}

#[test]
fn boot_hands_out_frames_behind_the_heap() {
    let mut k = match init(&boot_map(), true, true) {
        Ok(k) => k,
        Err(_) => panic!("boot failed"),
    };
    assert_eq!(k.frame_alloc.allocate_frame(), Some(frame(0x100000 + 25 * 4096)));
}

#[test]
fn mapper_lists_its_mappings() {
    let mut m = Mapper::new();
    assert_eq!(m.entries(), vec![]);
    m.map_to(Page { start_address: 0x4000 }, frame(0x9000), PRESENT).unwrap();
    m.map_to(Page { start_address: 0x2000 }, frame(0xA000), 7).unwrap();
    m.map_to(Page { start_address: 0x6000 }, frame(0xB000), 3).unwrap();
    m.unmap(Page { start_address: 0x4000 }).unwrap();
    let mut all = m.entries();
    all.sort_by_key(|e| e.page);
    assert_eq!(
        all,
        vec![
            Mapping { page: 0x2000, entry: PageEntry { frame: frame(0xA000), flags: 7 } },
            Mapping { page: 0x6000, entry: PageEntry { frame: frame(0xB000), flags: 3 } },
        ]
    );
}

#[test]
fn overlapping_regions_are_found() {
    let apart = BootInfoFrameAllocator::init(&vec![
        entry(0x4000, 0x2000, RegionKind::Usable),
        entry(0x1000, 0x2000, RegionKind::Usable),
        entry(0x3000, 0x1000, RegionKind::Usable),
        entry(0x3000, 0x1000, RegionKind::Reserved),
    ]);
    assert!(apart.is_disjoint());
    let mut frames = apart;
    let mut seen = Vec::new();
    while let Some(f) = frames.allocate_frame() {
        assert!(!seen.contains(&f));
        seen.push(f);
    }
    assert_eq!(seen.len(), 5);
    let shared = BootInfoFrameAllocator::init(&vec![
        entry(0x1000, 0x1800, RegionKind::Usable),
        entry(0x2800, 0x800, RegionKind::Usable),
    ]);
    assert!(!shared.is_disjoint());
    let nested = BootInfoFrameAllocator::init(&vec![
        entry(0x1000, 0x8000, RegionKind::Usable),
        entry(0x100000, 0x1000, RegionKind::Usable),
        entry(0x3000, 0x1000, RegionKind::Usable),
    ]);
    assert!(!nested.is_disjoint());
    assert!(BootInfoFrameAllocator::init(&vec![]).is_disjoint());
    assert!(small(4).is_disjoint());
}
