//! The kernel's state as a whole, and how it is set up at boot.

use crate::allocator::{
    first_page, in_run, lemma_first_conflict_skip, page_count, HEAP_FLAGS, HEAP_SIZE, HEAP_START,
};
use crate::console::Console;
use crate::frame_alloc::{
    frame_at, map_fits, total_frames, usable_regions, BootInfoFrameAllocator, MemmapEntry,
    PhysFrame,
};
use crate::paging::{MapToError, Mapper, PageEntry};
use crate::process::ProcessTable;
use vstd::prelude::*;

verus! {

/// Everything that the kernel keeps track of.
pub struct Kernel {
    pub console: Console,
    pub processes: ProcessTable,
    pub mapper: Mapper,
    pub frame_alloc: BootInfoFrameAllocator,
}

impl Kernel {
    /// The kernel's invariant, which every operation keeps.
    pub open spec fn wf(&self) -> bool {
        &&& self.console.wf()
        &&& self.processes.wf()
        &&& self.mapper.wf()
        &&& self.frame_alloc.wf()
    }
}

/// Sets the kernel up from the boot memory map: the frame allocator takes
/// the map's usable regions, the heap's 25 pages are mapped to the first 25
/// frames, the console starts cleared with the given sinks, and the process
/// table starts empty, with the first process to be placed right behind the
/// heap. This fails exactly when the map has fewer than 25 usable frames.
pub fn init(mem_map: &Vec<MemmapEntry>, to_vga: bool, to_serial: bool) -> (r: Result<
    Kernel,
    MapToError,
>)
    requires
        map_fits(mem_map@),
    ensures
        r is Ok <==> total_frames(usable_regions(mem_map@)) >= 25,
        r is Err ==> r == Err::<Kernel, MapToError>(MapToError::FrameAllocationFailed),
        r is Ok ==> {
            let k = r->Ok_0;
            &&& k.wf()
            &&& k.frame_alloc.regions() == usable_regions(mem_map@)
            &&& k.frame_alloc.next() == 25
            &&& forall|p: u64| k.mapper@.contains_key(p) <==> in_run(p, HEAP_START, 25)
            &&& forall|p: u64| #[trigger]
                in_run(p, HEAP_START, 25) ==> k.mapper@[p] == (PageEntry {
                    frame: PhysFrame {
                        start_address: frame_at(
                            usable_regions(mem_map@),
                            ((p - HEAP_START) / 4096) as nat,
                        )->0,
                    },
                    flags: HEAP_FLAGS,
                })
            &&& k.console.input@ == Seq::<char>::empty()
            &&& k.console.echo
            &&& !k.console.raw
            &&& k.console.vga@ == crate::vga::cleared()
            &&& k.console.serial@ == Seq::<u8>::empty()
            &&& k.console.to_vga == to_vga
            &&& k.console.to_serial == to_serial
            &&& k.processes.code_addr == HEAP_START + HEAP_SIZE
            &&& forall|i: int| 0 <= i < 50 ==> (#[trigger] k.processes.slots@[i]) is None
        },
{
    let mut frame_alloc = BootInfoFrameAllocator::init(mem_map);
    let mut mapper = Mapper::new();
    proof {
        lemma_first_conflict_skip(
            mapper@,
            first_page(HEAP_START),
            page_count(HEAP_START, HEAP_SIZE),
            0,
            page_count(HEAP_START, HEAP_SIZE),
        );
    }
    match crate::allocator::init_heap(&mut mapper, &mut frame_alloc) {
        Ok(()) => {
            Ok(
                Kernel {
                    console: Console::new(to_vga, to_serial),
                    processes: ProcessTable::new(HEAP_START + HEAP_SIZE),
                    mapper,
                    frame_alloc,
                },
            )
        },
        Err(e) => Err(e),
    }
}

} // verus!
