//! Mapping and unmapping ranges of virtual memory: user regions, and the
//! kernel heap's window.

use crate::frame_alloc::{frame_at, total_frames, BootInfoFrameAllocator, PhysFrame};
use crate::frame_alloc::lemma_frame_at_in_range;
use crate::paging::{without_range, MapToError, Mapper, Page, PageEntry};
use crate::paging::{PRESENT, USER_ACCESSIBLE, WRITABLE};
use vstd::prelude::*;

verus! {

/// First address of the kernel heap.
pub const HEAP_START: u64 = 0x4444_4444_0000;

/// Size of the kernel heap in bytes: 100 KiB.
pub const HEAP_SIZE: u64 = 102400;

/// First address of the kernel's own heap window.
pub const KERNEL_HEAP_START: u64 = 0xFFFF_F800_0000_0000;

/// Size of the kernel's own heap window: 128 MiB.
pub const KERNEL_HEAP_SIZE: u64 = 0x800_0000;

/// Last address of the kernel's own heap window.
pub const KERNEL_HEAP_END: u64 = 0xFFFF_F800_07FF_FFFF;

/// Flags of a user page: present, writable, accessible from ring 3.
pub const USER_FLAGS: u64 = 7;

/// Flags of a heap page: present and writable.
pub const HEAP_FLAGS: u64 = 3;

/// Start address of the first page that `addr..addr + size` touches.
pub open spec fn first_page(addr: u64) -> u64 {
    (addr / 4096 * 4096) as u64
}

/// Number of pages that `addr..addr + size` touches.
pub open spec fn page_count(addr: u64, size: u64) -> int {
    if size == 0 {
        0
    } else {
        (addr + size - 1) / 4096 - addr / 4096 + 1
    }
}

/// Start address of the last page that `addr..addr + size` touches, for a
/// range that is not empty.
pub open spec fn last_page(addr: u64, size: u64) -> u64 {
    ((addr + size - 1) / 4096 * 4096) as u64
}

/// Start address of page number `j` counted from the page at `first`.
pub open spec fn page_at(first: u64, j: int) -> u64 {
    (first + j * 4096) as u64
}

/// Whether `p` is the start of one of the `count` pages from `first` on.
pub open spec fn in_run(p: u64, first: u64, count: int) -> bool {
    first <= p < first + count * 4096 && (p - first) % 4096 == 0
}

/// Whether `p` is the start of a page that `addr..addr + size` touches.
pub open spec fn covered(p: u64, addr: u64, size: u64) -> bool {
    in_run(p, first_page(addr), page_count(addr, size))
}

/// Among the `count` pages from `first` on, the number of the first one at
/// or after `from` that `m` maps already; `count` if there is none.
pub open spec fn first_conflict(m: Map<u64, PageEntry>, first: u64, count: int, from: int) -> int
    decreases count - from,
{
    if from >= count {
        count
    } else if m.contains_key(page_at(first, from)) {
        from
    } else {
        first_conflict(m, first, count, from + 1)
    }
}

/// How many pages get mapped when `count` pages are asked for, the first
/// conflict is at `conflict` and `available` frames are left: mapping stops
/// at the first page that has no frame or is mapped already.
pub open spec fn pages_mapped(count: int, conflict: int, available: int) -> int {
    if available < conflict {
        available
    } else {
        conflict
    }
}

/// How mapping `count` pages ends: well if every page got mapped, with a
/// failed frame allocation if the frames ran out first, and else with the
/// page that was mapped already.
pub open spec fn map_result(count: int, conflict: int, available: int) -> Result<(), MapToError> {
    if pages_mapped(count, conflict, available) == count {
        Ok(())
    } else if available <= conflict {
        Err(MapToError::FrameAllocationFailed)
    } else {
        Err(MapToError::PageAlreadyMapped)
    }
}

/// How many frames are used up: one for each page mapped, and one more for
/// a page that then turned out to be mapped already.
pub open spec fn frames_used(count: int, conflict: int, available: int) -> int {
    if map_result(count, conflict, available) == Err::<(), MapToError>(
        MapToError::PageAlreadyMapped,
    ) {
        pages_mapped(count, conflict, available) + 1
    } else {
        pages_mapped(count, conflict, available)
    }
}

/// The map `m` with `mapped` more pages from `first` on, page number `j`
/// leading to the frame `frames(j)` with `flags`.
pub open spec fn with_run(
    m: Map<u64, PageEntry>,
    first: u64,
    mapped: int,
    frames: spec_fn(int) -> u64,
    flags: u64,
) -> Map<u64, PageEntry> {
    Map::new(
        |p: u64| m.contains_key(p) || in_run(p, first, mapped),
        |p: u64|
            if in_run(p, first, mapped) {
                PageEntry {
                    frame: PhysFrame { start_address: frames((p - first) / 4096) },
                    flags,
                }
            } else {
                m[p]
            },
    )
}

/// The frames that an allocator hands out from now on, by the number of the
/// request.
pub open spec fn upcoming(a: BootInfoFrameAllocator) -> spec_fn(int) -> u64 {
    |j: int| frame_at(a.regions(), (a.next() + j) as nat)->0
}

/// The first conflict at or after `from` is also the first at or after any
/// later page up to which nothing is mapped.
pub proof fn lemma_first_conflict_skip(
    m: Map<u64, PageEntry>,
    first: u64,
    count: int,
    from: int,
    to: int,
)
    requires
        0 <= from <= to <= count,
        forall|j: int| from <= j < to ==> !m.contains_key(#[trigger] page_at(first, j)),
    ensures
        first_conflict(m, first, count, from) == first_conflict(m, first, count, to),
    decreases to - from,
{
    if from < to {
        lemma_first_conflict_skip(m, first, count, from + 1, to);
    }
}

/// The first conflict at or after `from` lies between `from` and `count`.
proof fn lemma_first_conflict_bounds(m: Map<u64, PageEntry>, first: u64, count: int, from: int)
    requires
        0 <= from <= count,
    ensures
        from <= first_conflict(m, first, count, from) <= count,
    decreases count - from,
{
    if from < count && !m.contains_key(page_at(first, from)) {
        lemma_first_conflict_bounds(m, first, count, from + 1);
    }
}

/// Maps the pages that `addr..addr + size` touches, each to a fresh frame
/// with `flags`, in ascending order, and stops at the first page that gets
/// no frame or is mapped already.
pub fn map_range(
    mapper: &mut Mapper,
    frame_alloc: &mut BootInfoFrameAllocator,
    addr: u64,
    size: u64,
    flags: u64,
) -> (r: Result<(), MapToError>)
    requires
        old(mapper).wf(),
        old(frame_alloc).wf(),
        addr + size <= 0x1_0000_0000_0000_0000,
    ensures
        final(mapper).wf(),
        final(frame_alloc).wf(),
        final(frame_alloc).regions() == old(frame_alloc).regions(),
        r == map_result(
            page_count(addr, size),
            first_conflict(old(mapper)@, first_page(addr), page_count(addr, size), 0),
            old(frame_alloc).available(),
        ),
        final(mapper)@ == with_run(
            old(mapper)@,
            first_page(addr),
            pages_mapped(
                page_count(addr, size),
                first_conflict(old(mapper)@, first_page(addr), page_count(addr, size), 0),
                old(frame_alloc).available(),
            ),
            upcoming(*old(frame_alloc)),
            flags,
        ),
        final(frame_alloc).next() == old(frame_alloc).next() + frames_used(
            page_count(addr, size),
            first_conflict(old(mapper)@, first_page(addr), page_count(addr, size), 0),
            old(frame_alloc).available(),
        ),
{
    let ghost m0 = mapper@;
    let ghost first = first_page(addr);
    let ghost count_g = page_count(addr, size);
    let ghost avail = frame_alloc.available();
    let ghost next0 = frame_alloc.next();
    let ghost regions = frame_alloc.regions();
    let ghost frames = upcoming(*frame_alloc);
    proof {
        frame_alloc.lemma_next_bounded();
    }
    if size == 0 {
        assert(mapper@ =~= with_run(m0, first, 0, frames, flags));
        return Ok(());
    }
    let a: u64 = addr / 4096;
    let b: u64 = (addr + (size - 1)) / 4096;
    let count: u64 = b - a + 1;
    let mut k: u64 = 0;
    assert(mapper@ =~= with_run(m0, first, 0, frames, flags));
    while k < count
        invariant
            k <= count,
            count == count_g,
            count_g == page_count(addr, size),
            first == first_page(addr),
            m0 == old(mapper)@,
            regions == old(frame_alloc).regions(),
            next0 == old(frame_alloc).next(),
            avail == old(frame_alloc).available(),
            frames == upcoming(*old(frame_alloc)),
            a * 4096 == first,
            a + count - 1 == b,
            b <= 0xF_FFFF_FFFF_FFFF,
            mapper.wf(),
            frame_alloc.wf(),
            frame_alloc.regions() == regions,
            frame_alloc.next() == next0 + k,
            avail == total_frames(regions) - next0,
            k <= avail,
            mapper@ == with_run(m0, first, k as int, frames, flags),
            forall|j: int| 0 <= j < k ==> !m0.contains_key(#[trigger] page_at(first, j)),
        decreases count - k,
    {
        let page = Page { start_address: (a + k) * 4096 };
        proof {
            lemma_frame_at_in_range(regions, (next0 + k) as nat);
            lemma_first_conflict_skip(m0, first, count as int, 0, k as int);
            lemma_first_conflict_bounds(m0, first, count as int, k as int);
            assert(page.start_address == page_at(first, k as int));
            assert(!in_run(page.start_address, first, k as int));
        }
        let frame = match frame_alloc.allocate_frame() {
            Some(f) => f,
            None => {
                return Err(MapToError::FrameAllocationFailed);
            },
        };
        assert(frame.start_address == frames(k as int));
        match mapper.map_to(page, frame, flags) {
            Ok(()) => {
                proof {
                    let before = with_run(m0, first, k as int, frames, flags);
                    let after = with_run(m0, first, k + 1, frames, flags);
                    assert forall|p: u64| in_run(p, first, k + 1) <==> (in_run(p, first, k as int)
                        || p == page.start_address) by {}
                    assert(in_run(page.start_address, first, k + 1));
                    assert((page.start_address - first) / 4096 == k);
                    assert(before.insert(page.start_address, PageEntry { frame, flags })
                        =~= after);
                }
            },
            Err(_) => {
                assert(m0.contains_key(page.start_address));
                return Err(MapToError::PageAlreadyMapped);
            },
        }
        k += 1;
    }
    proof {
        lemma_first_conflict_skip(m0, first, count as int, 0, count as int);
    }
    Ok(())
}

/// The first page among those that `addr..addr + size` touches that `m`
/// maps already, by its number in the range; the number of pages if there
/// is none.
pub open spec fn conflict_in(m: Map<u64, PageEntry>, addr: u64, size: u64) -> int {
    first_conflict(m, first_page(addr), page_count(addr, size), 0)
}

/// Maps the pages that `addr..addr + size` touches for user code, each to a
/// fresh frame, present, writable and accessible from ring 3.
///
/// This succeeds exactly when none of the pages is mapped yet and a frame
/// is left for each. Otherwise mapping stops at the first page that fails,
/// and the pages before it stay mapped.
pub fn allocate(
    mapper: &mut Mapper,
    frame_alloc: &mut BootInfoFrameAllocator,
    addr: u64,
    size: u64,
) -> (r: Result<(), ()>)
    requires
        old(mapper).wf(),
        old(frame_alloc).wf(),
        addr + size <= 0x1_0000_0000_0000_0000,
    ensures
        final(mapper).wf(),
        final(frame_alloc).wf(),
        final(frame_alloc).regions() == old(frame_alloc).regions(),
        r is Ok <==> conflict_in(old(mapper)@, addr, size) == page_count(addr, size)
            && page_count(addr, size) <= old(frame_alloc).available(),
        final(mapper)@ == with_run(
            old(mapper)@,
            first_page(addr),
            pages_mapped(
                page_count(addr, size),
                conflict_in(old(mapper)@, addr, size),
                old(frame_alloc).available(),
            ),
            upcoming(*old(frame_alloc)),
            USER_FLAGS,
        ),
        final(frame_alloc).next() == old(frame_alloc).next() + frames_used(
            page_count(addr, size),
            conflict_in(old(mapper)@, addr, size),
            old(frame_alloc).available(),
        ),
        r is Ok ==> forall|p: u64| #[trigger]
            covered(p, addr, size) ==> final(mapper)@.contains_key(p) && final(mapper)@[p].flags
                == PRESENT | WRITABLE | USER_ACCESSIBLE,
{
    proof {
        lemma_first_conflict_bounds(
            mapper@,
            first_page(addr),
            page_count(addr, size),
            0,
        );
        old(frame_alloc).lemma_next_bounded();
        assert(1u64 | 2u64 | 4u64 == 7u64) by (bit_vector);
    }
    match map_range(mapper, frame_alloc, addr, size, USER_FLAGS) {
        Ok(()) => Ok(()),
        Err(_) => Err(()),
    }
}

/// Unmaps every page that `addr..addr + size` touches; pages of the range
/// that are not mapped are passed over.
pub fn free(mapper: &mut Mapper, addr: u64, size: u64)
    requires
        old(mapper).wf(),
        addr + size <= 0x1_0000_0000_0000_0000,
    ensures
        final(mapper).wf(),
        final(mapper)@ == if size == 0 {
            old(mapper)@
        } else {
            without_range(old(mapper)@, first_page(addr), last_page(addr, size))
        },
        forall|p: u64| #[trigger] covered(p, addr, size) ==> !final(mapper)@.contains_key(p),
        forall|p: u64|
            !(first_page(addr) <= p <= last_page(addr, size)) ==> final(mapper)@.contains_key(p)
                == old(mapper)@.contains_key(p),
{
    if size == 0 {
        return ;
    }
    let first: u64 = addr / 4096 * 4096;
    let last: u64 = (addr + (size - 1)) / 4096 * 4096;
    mapper.unmap_range(first, last);
}

/// Maps the kernel heap's window, each page to a fresh frame, present and
/// writable.
pub fn init_heap(mapper: &mut Mapper, frame_alloc: &mut BootInfoFrameAllocator) -> (r: Result<
    (),
    MapToError,
>)
    requires
        old(mapper).wf(),
        old(frame_alloc).wf(),
    ensures
        final(mapper).wf(),
        final(frame_alloc).wf(),
        final(frame_alloc).regions() == old(frame_alloc).regions(),
        r == map_result(
            page_count(HEAP_START, HEAP_SIZE),
            conflict_in(old(mapper)@, HEAP_START, HEAP_SIZE),
            old(frame_alloc).available(),
        ),
        final(mapper)@ == with_run(
            old(mapper)@,
            first_page(HEAP_START),
            pages_mapped(
                page_count(HEAP_START, HEAP_SIZE),
                conflict_in(old(mapper)@, HEAP_START, HEAP_SIZE),
                old(frame_alloc).available(),
            ),
            upcoming(*old(frame_alloc)),
            HEAP_FLAGS,
        ),
        final(frame_alloc).next() == old(frame_alloc).next() + frames_used(
            page_count(HEAP_START, HEAP_SIZE),
            conflict_in(old(mapper)@, HEAP_START, HEAP_SIZE),
            old(frame_alloc).available(),
        ),
        page_count(HEAP_START, HEAP_SIZE) == 25,
        first_page(HEAP_START) == HEAP_START,
{
    map_range(mapper, frame_alloc, HEAP_START, HEAP_SIZE, HEAP_FLAGS)
}

/// After a range has been mapped in full, freeing the same range leaves
/// none of its pages mapped, and every page outside it as it was before the
/// mapping.
pub proof fn lemma_free_undoes_alloc(
    m: Map<u64, PageEntry>,
    addr: u64,
    size: u64,
    frames: spec_fn(int) -> u64,
    flags: u64,
)
    requires
        size > 0,
        addr + size <= 0x1_0000_0000_0000_0000,
        conflict_in(m, addr, size) == page_count(addr, size),
    ensures
        forall|p: u64| #[trigger]
            covered(p, addr, size) ==> with_run(
                m,
                first_page(addr),
                page_count(addr, size),
                frames,
                flags,
            ).contains_key(p) && !without_range(
                with_run(m, first_page(addr), page_count(addr, size), frames, flags),
                first_page(addr),
                last_page(addr, size),
            ).contains_key(p),
        forall|p: u64|
            !(first_page(addr) <= p <= last_page(addr, size)) ==> without_range(
                with_run(m, first_page(addr), page_count(addr, size), frames, flags),
                first_page(addr),
                last_page(addr, size),
            ).contains_key(p) == m.contains_key(p),
{
}

} // verus!
