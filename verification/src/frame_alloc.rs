//! Physical memory: the boot memory map, its usable regions, and the frame
//! allocator that hands out their 4 KiB frames one after the other.

use vstd::prelude::*;

verus! {

/// Size of a page and of a frame, in bytes.
pub const PAGE_SIZE: u64 = 4096;

/// What a region of the boot memory map holds.
#[derive(Debug, Clone, Copy, PartialEq, Eq, Structural)]
pub enum RegionKind {
    Usable,
    Reserved,
    AcpiReclaimable,
    AcpiNvs,
    BadMemory,
    BootloaderReclaimable,
    KernelAndModules,
    Framebuffer,
}

/// One entry of the boot memory map.
#[derive(Debug, Clone, Copy, PartialEq, Eq, Structural)]
pub struct MemmapEntry {
    pub base: u64,
    pub len: u64,
    pub kind: RegionKind,
}

/// A run of whole frames, from `start_addr` up to but not including
/// `end_addr`.
#[derive(Debug, Clone, Copy, PartialEq, Eq, Structural)]
pub struct MemoryRegion {
    pub start_addr: u64,
    pub end_addr: u64,
}

/// A physical frame, named by the address of its first byte.
#[derive(Debug, Clone, Copy, PartialEq, Eq, Structural)]
pub struct PhysFrame {
    pub start_address: u64,
}

impl MemmapEntry {
    /// Whether the entry, widened to whole frames, still ends inside the
    /// address space.
    pub open spec fn fits(self) -> bool {
        self.base + self.len + 4095 <= u64::MAX
    }

    /// The entry widened to whole frames: the start rounded down and the
    /// end rounded up to a multiple of the frame size.
    pub open spec fn normalized(self) -> MemoryRegion {
        MemoryRegion {
            start_addr: (self.base / 4096 * 4096) as u64,
            end_addr: ((self.base + self.len + 4095) / 4096 * 4096) as u64,
        }
    }

    /// The entry itself if its memory is free for use.
    pub fn usable(&self) -> (r: Option<&MemmapEntry>)
        ensures
            r == if self.kind == RegionKind::Usable {
                Some(self)
            } else {
                None
            },
    {
        match self.kind {
            RegionKind::Usable => Some(self),
            _ => None,
        }
    }

    /// The entry widened to whole frames.
    pub fn into(&self) -> (r: MemoryRegion)
        requires
            self.fits(),
        ensures
            r == self.normalized(),
            r.wf(),
            r.start_addr <= self.base,
            self.base + self.len <= r.end_addr,
    {
        let start_addr: u64 = self.base / PAGE_SIZE * PAGE_SIZE;
        let end_addr: u64 = (self.base + self.len + (PAGE_SIZE - 1)) / PAGE_SIZE * PAGE_SIZE;
        MemoryRegion { start_addr, end_addr }
    }
}

impl MemoryRegion {
    /// Both ends lie on frame boundaries, the start not after the end.
    pub open spec fn wf(self) -> bool {
        &&& self.start_addr % 4096 == 0
        &&& self.end_addr % 4096 == 0
        &&& self.start_addr <= self.end_addr
    }

    /// Number of frames in the region.
    pub open spec fn frames(self) -> nat {
        ((self.end_addr - self.start_addr) / 4096) as nat
    }
}

/// Every region is well-formed.
pub open spec fn regions_wf(regions: Seq<MemoryRegion>) -> bool {
    forall|i: int| 0 <= i < regions.len() ==> (#[trigger] regions[i]).wf()
}

/// The regions come in ascending order and do not overlap.
pub open spec fn regions_ascending(regions: Seq<MemoryRegion>) -> bool {
    forall|i: int, j: int|
        0 <= i < j < regions.len() ==> (#[trigger] regions[i]).end_addr <= (
        #[trigger] regions[j]).start_addr
}

/// Number of frames in all the regions together.
pub open spec fn total_frames(regions: Seq<MemoryRegion>) -> nat
    decreases regions.len(),
{
    if regions.len() == 0 {
        0
    } else {
        total_frames(regions.drop_last()) + regions.last().frames()
    }
}

/// Address of frame number `n`, counting from zero through the regions in
/// order and through each region from its start; `None` beyond the last.
pub open spec fn frame_at(regions: Seq<MemoryRegion>, n: nat) -> Option<u64>
    decreases regions.len(),
{
    if regions.len() == 0 {
        None
    } else if n < total_frames(regions.drop_last()) {
        frame_at(regions.drop_last(), n)
    } else if n - total_frames(regions.drop_last()) < regions.last().frames() {
        Some((regions.last().start_addr + (n - total_frames(regions.drop_last())) * 4096) as u64)
    } else {
        None
    }
}

/// The usable entries of a memory map, each widened to whole frames, in the
/// order of the map.
pub open spec fn usable_regions(map: Seq<MemmapEntry>) -> Seq<MemoryRegion>
    decreases map.len(),
{
    if map.len() == 0 {
        Seq::empty()
    } else if map.last().kind == RegionKind::Usable {
        usable_regions(map.drop_last()).push(map.last().normalized())
    } else {
        usable_regions(map.drop_last())
    }
}

/// Every usable entry of the map fits into the address space.
pub open spec fn map_fits(map: Seq<MemmapEntry>) -> bool {
    forall|i: int|
        0 <= i < map.len() && (#[trigger] map[i]).kind == RegionKind::Usable ==> map[i].fits()
}

/// A frame allocator over the usable regions of the boot memory map. Frames
/// are handed out in ascending order of their number and never taken back.
pub struct BootInfoFrameAllocator {
    usable_frames: Vec<MemoryRegion>,
    /// Index of the region that the next frame comes from.
    region: usize,
    /// Number of frames of that region that have been handed out.
    taken: u64,
}

impl BootInfoFrameAllocator {
    /// The regions that frames come from.
    pub closed spec fn regions(&self) -> Seq<MemoryRegion> {
        self.usable_frames@
    }

    /// How many frames have been handed out.
    pub closed spec fn next(&self) -> nat {
        total_frames(self.usable_frames@.take(self.region as int)) + self.taken as nat
    }

    /// The allocator's invariant, which every operation keeps.
    pub closed spec fn wf(&self) -> bool {
        &&& regions_wf(self.usable_frames@)
        &&& self.region <= self.usable_frames@.len()
        &&& if self.region < self.usable_frames@.len() {
            self.taken <= self.usable_frames@[self.region as int].frames()
        } else {
            self.taken == 0
        }
    }

    /// How many frames are left.
    pub open spec fn available(&self) -> int {
        total_frames(self.regions()) - self.next()
    }

    /// An allocator over the usable entries of `mem_map`, with no frame
    /// handed out yet.
    pub fn init(mem_map: &Vec<MemmapEntry>) -> (a: BootInfoFrameAllocator)
        requires
            map_fits(mem_map@),
        ensures
            a.wf(),
            a.regions() == usable_regions(mem_map@),
            a.next() == 0,
    {
        let mut usable_frames: Vec<MemoryRegion> = Vec::new();
        let mut i: usize = 0;
        while i < mem_map.len()
            invariant
                i <= mem_map@.len(),
                map_fits(mem_map@),
                regions_wf(usable_frames@),
                usable_frames@ == usable_regions(mem_map@.take(i as int)),
            decreases mem_map@.len() - i,
        {
            proof {
                assert(mem_map@.take(i + 1).drop_last() =~= mem_map@.take(i as int));
                assert(mem_map@.take(i + 1).last() == mem_map@[i as int]);
            }
            match mem_map[i].usable() {
                Some(e) => {
                    usable_frames.push(e.into());
                },
                None => {},
            }
            i += 1;
        }
        proof {
            assert(mem_map@.take(i as int) =~= mem_map@);
            assert(usable_frames@.take(0) =~= Seq::<MemoryRegion>::empty());
        }
        BootInfoFrameAllocator { usable_frames, region: 0, taken: 0 }
    }

    /// Hands out the next frame, or `None` when every frame of the usable
    /// regions has been handed out.
    pub fn allocate_frame(&mut self) -> (r: Option<PhysFrame>)
        requires
            old(self).wf(),
        ensures
            final(self).wf(),
            final(self).regions() == old(self).regions(),
            match frame_at(old(self).regions(), old(self).next()) {
                Some(a) => r == Some(PhysFrame { start_address: a })
                    && final(self).next() == old(self).next() + 1,
                None => r is None && final(self).next() == old(self).next(),
            },
    {
        while self.region < self.usable_frames.len()
            invariant
                self.wf(),
                self.usable_frames == old(self).usable_frames,
                self.next() == old(self).next(),
            decreases self.usable_frames@.len() - self.region,
        {
            let region = self.usable_frames[self.region];
            assert(region.wf());
            let count: u64 = (region.end_addr - region.start_addr) / PAGE_SIZE;
            if self.taken < count {
                proof {
                    lemma_frame_at_cursor(
                        self.usable_frames@,
                        self.region as int,
                        self.taken as nat,
                    );
                }
                assert(self.taken * 4096 <= (count - 1) * 4096) by (nonlinear_arith)
                    requires
                        self.taken < count,
                ;
                let a: u64 = region.start_addr + self.taken * PAGE_SIZE;
                self.taken = self.taken + 1;
                return Some(PhysFrame { start_address: a });
            }
            proof {
                assert(self.usable_frames@.take(self.region + 1).drop_last()
                    =~= self.usable_frames@.take(self.region as int));
                assert(self.usable_frames@.take(self.region + 1).last()
                    == self.usable_frames@[self.region as int]);
            }
            self.region = self.region + 1;
            self.taken = 0;
        }
        proof {
            assert(self.usable_frames@.take(self.region as int) =~= self.usable_frames@);
            lemma_frame_at_in_range(self.usable_frames@, self.next());
        }
        None
    }

    /// Takes a frame back. Frames are never reused, so nothing changes.
    pub fn deallocate_frame(&mut self, frame: PhysFrame)
        ensures
            *final(self) == *old(self),
    {
    }

    /// Whether no two of the regions overlap, which is what makes every
    /// frame come out once only.
    pub fn is_disjoint(&self) -> (r: bool)
        requires
            self.wf(),
        ensures
            r == regions_disjoint(self.regions()),
    {
        let n: usize = self.usable_frames.len();
        let mut i: usize = 0;
        while i < n
            invariant
                i <= n,
                n == self.usable_frames@.len(),
                forall|a: int, b: int|
                    0 <= a < b < n && a < i ==> (#[trigger] self.usable_frames@[a]).end_addr <= (
                    #[trigger] self.usable_frames@[b]).start_addr || self.usable_frames@[b].end_addr
                        <= self.usable_frames@[a].start_addr,
            decreases n - i,
        {
            let mut j: usize = i + 1;
            while j < n
                invariant
                    i < j <= n,
                    n == self.usable_frames@.len(),
                    forall|b: int|
                        i < b < j ==> self.usable_frames@[i as int].end_addr <= (
                        #[trigger] self.usable_frames@[b]).start_addr
                            || self.usable_frames@[b].end_addr
                            <= self.usable_frames@[i as int].start_addr,
                decreases n - j,
            {
                let first = self.usable_frames[i];
                let second = self.usable_frames[j];
                if !(first.end_addr <= second.start_addr || second.end_addr <= first.start_addr) {
                    return false;
                }
                j += 1;
            }
            i += 1;
        }
        true
    }
}

/// Frame number `n` exists exactly when `n` is below the number of frames.
pub proof fn lemma_frame_at_in_range(regions: Seq<MemoryRegion>, n: nat)
    ensures
        frame_at(regions, n) is Some <==> n < total_frames(regions),
    decreases regions.len(),
{
    if regions.len() > 0 && n < total_frames(regions.drop_last()) {
        lemma_frame_at_in_range(regions.drop_last(), n);
    }
}

/// The frame count of a prefix of the regions grows with the prefix.
proof fn lemma_total_frames_prefix(regions: Seq<MemoryRegion>, k: int, m: int)
    requires
        0 <= k <= m <= regions.len(),
    ensures
        total_frames(regions.take(k)) <= total_frames(regions.take(m)),
    decreases m - k,
{
    if k < m {
        assert(regions.take(m).drop_last() =~= regions.take(m - 1));
        lemma_total_frames_prefix(regions, k, m - 1);
    }
}

/// The frame that follows all frames of the first `k` regions and `off`
/// frames of region `k` is the one at that offset in region `k`.
proof fn lemma_frame_at_cursor(regions: Seq<MemoryRegion>, k: int, off: nat)
    requires
        0 <= k < regions.len(),
        off < regions[k].frames(),
    ensures
        frame_at(regions, total_frames(regions.take(k)) + off) == Some(
            (regions[k].start_addr + off * 4096) as u64,
        ),
    decreases regions.len(),
{
    let n = total_frames(regions.take(k)) + off;
    if k == regions.len() - 1 {
        assert(regions.take(k) =~= regions.drop_last());
    } else {
        assert(regions.take(k + 1).drop_last() =~= regions.take(k));
        assert(regions.take(k + 1).last() == regions[k]);
        assert(regions.drop_last() =~= regions.take(regions.len() - 1));
        lemma_total_frames_prefix(regions, k + 1, regions.len() - 1);
        assert(n < total_frames(regions.drop_last()));
        assert(regions.drop_last().take(k) =~= regions.take(k));
        lemma_frame_at_cursor(regions.drop_last(), k, off);
    }
}

/// A frame that exists lies inside one of the regions.
pub proof fn lemma_frame_in_region(regions: Seq<MemoryRegion>, n: nat)
    requires
        regions_wf(regions),
        frame_at(regions, n) is Some,
    ensures
        exists|k: int|
            0 <= k < regions.len() && (#[trigger] regions[k]).start_addr <= frame_at(regions, n)->0
                && frame_at(regions, n)->0 + 4096 <= regions[k].end_addr,
    decreases regions.len(),
{
    let front = regions.drop_last();
    if n < total_frames(front) {
        assert forall|i: int| 0 <= i < front.len() implies (#[trigger] front[i]).wf() by {
            assert(front[i] == regions[i]);
        }
        lemma_frame_in_region(front, n);
        let k = choose|k: int|
            0 <= k < front.len() && (#[trigger] front[k]).start_addr <= frame_at(front, n)->0
                && frame_at(front, n)->0 + 4096 <= front[k].end_addr;
        assert(regions[k] == front[k]);
    } else {
        let last = regions.last();
        let off = n - total_frames(front);
        assert(last.wf());
        assert(last.start_addr + off * 4096 + 4096 <= last.end_addr) by (nonlinear_arith)
            requires
                off < (last.end_addr - last.start_addr) / 4096,
                0 <= off,
                last.start_addr <= last.end_addr,
        ;
        assert(regions[regions.len() - 1] == last);
    }
}

/// Over regions that ascend without overlap, a frame with a higher number
/// has a higher address.
pub proof fn lemma_frames_ascend(regions: Seq<MemoryRegion>, i: nat, j: nat)
    requires
        regions_wf(regions),
        regions_ascending(regions),
        i < j,
        frame_at(regions, j) is Some,
    ensures
        frame_at(regions, i) is Some,
        frame_at(regions, i)->0 < frame_at(regions, j)->0,
    decreases regions.len(),
{
    lemma_frame_at_in_range(regions, i);
    lemma_frame_at_in_range(regions, j);
    let front = regions.drop_last();
    let last = regions.last();
    assert(last.wf());
    assert forall|k: int| 0 <= k < front.len() implies (#[trigger] front[k]).wf() by {
        assert(front[k] == regions[k]);
    }
    if j < total_frames(front) {
        assert forall|a: int, b: int| 0 <= a < b < front.len() implies (
        #[trigger] front[a]).end_addr <= (#[trigger] front[b]).start_addr by {
            assert(front[a] == regions[a]);
            assert(front[b] == regions[b]);
        }
        lemma_frames_ascend(front, i, j);
    } else {
        let off_j = j - total_frames(front);
        assert(last.start_addr + off_j * 4096 + 4096 <= last.end_addr) by (nonlinear_arith)
            requires
                off_j < (last.end_addr - last.start_addr) / 4096,
                0 <= off_j,
                last.start_addr <= last.end_addr,
        ;
        if i < total_frames(front) {
            lemma_frame_at_in_range(front, i);
            lemma_frame_in_region(front, i);
            let k = choose|k: int|
                0 <= k < front.len() && (#[trigger] front[k]).start_addr <= frame_at(front, i)->0
                    && frame_at(front, i)->0 + 4096 <= front[k].end_addr;
            assert(front[k] == regions[k]);
            assert(regions[k].end_addr <= regions[regions.len() - 1].start_addr);
        } else {
            let off_i = i - total_frames(front);
            assert(off_i * 4096 < off_j * 4096) by (nonlinear_arith)
                requires
                    off_i < off_j,
            ;
        }
    }
}

/// No two regions overlap, whatever their order.
pub open spec fn regions_disjoint(regions: Seq<MemoryRegion>) -> bool {
    forall|i: int, j: int|
        0 <= i < j < regions.len() ==> (#[trigger] regions[i]).end_addr <= (
        #[trigger] regions[j]).start_addr || regions[j].end_addr <= regions[i].start_addr
}

/// Frame number `n` is the frame at its offset in region `k`: it comes
/// after all frames of the regions before `k`.
pub open spec fn frame_in(regions: Seq<MemoryRegion>, n: nat, k: int) -> bool {
    &&& 0 <= k < regions.len()
    &&& total_frames(regions.take(k)) <= n
    &&& n - total_frames(regions.take(k)) < regions[k].frames()
    &&& frame_at(regions, n) == Some(
        (regions[k].start_addr + (n - total_frames(regions.take(k))) * 4096) as u64,
    )
}

/// A frame that exists is the frame at its offset in one of the regions.
pub proof fn lemma_frame_position(regions: Seq<MemoryRegion>, n: nat)
    requires
        frame_at(regions, n) is Some,
    ensures
        exists|k: int| #[trigger] frame_in(regions, n, k),
    decreases regions.len(),
{
    let front = regions.drop_last();
    if n < total_frames(front) {
        lemma_frame_position(front, n);
        let k = choose|k: int| #[trigger] frame_in(front, n, k);
        assert(front.take(k) =~= regions.take(k));
        assert(front[k] == regions[k]);
        assert(frame_in(regions, n, k));
    } else {
        assert(regions.take(regions.len() - 1) =~= front);
        assert(frame_in(regions, n, regions.len() - 1));
    }
}

/// Over regions that do not overlap, in whatever order they come, two
/// frames with different numbers have different addresses: no frame is
/// handed out twice.
pub proof fn lemma_frames_distinct(regions: Seq<MemoryRegion>, i: nat, j: nat)
    requires
        regions_wf(regions),
        regions_disjoint(regions),
        i != j,
        frame_at(regions, i) is Some,
        frame_at(regions, j) is Some,
    ensures
        frame_at(regions, i) != frame_at(regions, j),
{
    lemma_frame_position(regions, i);
    lemma_frame_position(regions, j);
    let ki = choose|k: int| #[trigger] frame_in(regions, i, k);
    let kj = choose|k: int| #[trigger] frame_in(regions, j, k);
    let oi = i - total_frames(regions.take(ki));
    let oj = j - total_frames(regions.take(kj));
    let ri = regions[ki];
    let rj = regions[kj];
    assert(ri.wf() && rj.wf());
    assert(ri.start_addr + oi * 4096 + 4096 <= ri.end_addr) by (nonlinear_arith)
        requires
            0 <= oi < (ri.end_addr - ri.start_addr) / 4096,
            ri.start_addr <= ri.end_addr,
    ;
    assert(rj.start_addr + oj * 4096 + 4096 <= rj.end_addr) by (nonlinear_arith)
        requires
            0 <= oj < (rj.end_addr - rj.start_addr) / 4096,
            rj.start_addr <= rj.end_addr,
    ;
    if ki == kj {
        assert(oi != oj);
        assert(oi * 4096 != oj * 4096) by (nonlinear_arith)
            requires
                oi != oj,
        ;
    } else if ki < kj {
        assert(regions[ki].end_addr <= regions[kj].start_addr || regions[kj].end_addr
            <= regions[ki].start_addr);
    } else {
        assert(regions[kj].end_addr <= regions[ki].start_addr || regions[ki].end_addr
            <= regions[kj].start_addr);
    }
}

/// Regions that ascend do not overlap.
pub proof fn lemma_ascending_is_disjoint(regions: Seq<MemoryRegion>)
    requires
        regions_ascending(regions),
    ensures
        regions_disjoint(regions),
{
}

impl BootInfoFrameAllocator {
    /// A well-formed allocator has well-formed regions.
    pub proof fn lemma_regions_wf(&self)
        requires
            self.wf(),
        ensures
            regions_wf(self.regions()),
    {
    }
}

impl BootInfoFrameAllocator {
    /// No more frames have been handed out than there are.
    pub proof fn lemma_next_bounded(&self)
        requires
            self.wf(),
        ensures
            self.next() <= total_frames(self.regions()),
    {
        let regions = self.usable_frames@;
        let k = self.region as int;
        if k < regions.len() {
            assert(regions.take(k + 1).drop_last() =~= regions.take(k));
            assert(regions.take(k + 1).last() == regions[k]);
            lemma_total_frames_prefix(regions, k + 1, regions.len() as int);
        }
        assert(regions.take(regions.len() as int) =~= regions);
    }
}

} // verus!
