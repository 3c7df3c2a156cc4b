//! The virtual address space as the kernel records it: which page is mapped
//! to which frame, with which flags.

use crate::frame_alloc::PhysFrame;
use vstd::prelude::*;

verus! {

/// Flag of a present page.
pub const PRESENT: u64 = 1;

/// Flag of a writable page.
pub const WRITABLE: u64 = 2;

/// Flag of a page that ring 3 may access.
pub const USER_ACCESSIBLE: u64 = 4;

/// A virtual page, named by the address of its first byte.
#[derive(Debug, Clone, Copy, PartialEq, Eq, Structural)]
pub struct Page {
    pub start_address: u64,
}

impl Page {
    /// The page that holds `addr`.
    pub fn containing_address(addr: u64) -> (p: Page)
        ensures
            p.start_address == addr / 4096 * 4096,
            p.start_address % 4096 == 0,
            p.start_address <= addr < p.start_address + 4096,
    {
        Page { start_address: addr / 4096 * 4096 }
    }
}

/// What a mapped page leads to.
#[derive(Debug, Clone, Copy, PartialEq, Eq, Structural)]
pub struct PageEntry {
    pub frame: PhysFrame,
    pub flags: u64,
}

/// Why a page could not be mapped.
#[derive(Debug, Clone, Copy, PartialEq, Eq, Structural)]
pub enum MapToError {
    /// No frame was left.
    FrameAllocationFailed,
    /// The page is mapped already.
    PageAlreadyMapped,
}

/// Why a page could not be unmapped.
#[derive(Debug, Clone, Copy, PartialEq, Eq, Structural)]
pub enum UnmapError {
    /// The page is not mapped.
    PageNotMapped,
}

/// One mapping.
#[derive(Debug, Clone, Copy, PartialEq, Eq, Structural)]
pub struct Mapping {
    pub page: u64,
    pub entry: PageEntry,
}

/// Whether some mapping is for `page`.
pub open spec fn has_page(entries: Seq<Mapping>, page: u64) -> bool {
    exists|i: int| 0 <= i < entries.len() && (#[trigger] entries[i]).page == page
}

/// The entry of a mapping for `page`.
pub open spec fn entry_of(entries: Seq<Mapping>, page: u64) -> PageEntry {
    entries[choose|i: int| 0 <= i < entries.len() && (#[trigger] entries[i]).page == page].entry
}

/// No page has two mappings.
pub open spec fn distinct_pages(entries: Seq<Mapping>) -> bool {
    forall|i: int, j: int|
        0 <= i < j < entries.len() ==> (#[trigger] entries[i]).page != (#[trigger] entries[j]).page
}

/// The map from mapped pages to their entries.
pub open spec fn mapping_of(entries: Seq<Mapping>) -> Map<u64, PageEntry> {
    Map::new(|p: u64| has_page(entries, p), |p: u64| entry_of(entries, p))
}

/// A map without the pages whose address lies in `first..=last`.
pub open spec fn without_range(m: Map<u64, PageEntry>, first: u64, last: u64) -> Map<
    u64,
    PageEntry,
> {
    Map::new(|p: u64| m.contains_key(p) && !(first <= p <= last), |p: u64| m[p])
}

/// With distinct pages, the entry found for a page is that of its mapping.
proof fn lemma_entry_of(entries: Seq<Mapping>, i: int)
    requires
        distinct_pages(entries),
        0 <= i < entries.len(),
    ensures
        has_page(entries, entries[i].page),
        entry_of(entries, entries[i].page) == entries[i].entry,
{
    let page = entries[i].page;
    let k = choose|k: int| 0 <= k < entries.len() && (#[trigger] entries[k]).page == page;
    if k < i {
        assert(entries[k].page != entries[i].page);
    } else if i < k {
        assert(entries[i].page != entries[k].page);
    }
}

/// The page mappings of one address space.
pub struct Mapper {
    entries: Vec<Mapping>,
}

impl View for Mapper {
    type V = Map<u64, PageEntry>;

    /// The mapped pages, by start address, and what each leads to.
    closed spec fn view(&self) -> Map<u64, PageEntry> {
        mapping_of(self.entries@)
    }
}

impl Mapper {
    /// The mapper's invariant, which every operation keeps.
    pub closed spec fn wf(&self) -> bool {
        distinct_pages(self.entries@)
    }

    /// An address space with nothing mapped.
    pub fn new() -> (m: Mapper)
        ensures
            m.wf(),
            m@ == Map::<u64, PageEntry>::empty(),
    {
        let m = Mapper { entries: Vec::new() };
        assert(m@ =~= Map::<u64, PageEntry>::empty());
        m
    }

    /// What `page` is mapped to, if it is mapped.
    pub fn translate(&self, page: Page) -> (r: Option<PageEntry>)
        requires
            self.wf(),
        ensures
            r == if self@.contains_key(page.start_address) {
                Some(self@[page.start_address])
            } else {
                None
            },
    {
        let mut i: usize = 0;
        while i < self.entries.len()
            invariant
                i <= self.entries@.len(),
                self.wf(),
                forall|j: int| 0 <= j < i ==> (#[trigger] self.entries@[j]).page
                    != page.start_address,
            decreases self.entries@.len() - i,
        {
            if self.entries[i].page == page.start_address {
                proof {
                    lemma_entry_of(self.entries@, i as int);
                }
                return Some(self.entries[i].entry);
            }
            i += 1;
        }
        None
    }

    /// Every mapping: each mapped page once, with what it leads to.
    pub fn entries(&self) -> (all: Vec<Mapping>)
        requires
            self.wf(),
        ensures
            distinct_pages(all@),
            mapping_of(all@) == self@,
    {
        let mut all: Vec<Mapping> = Vec::new();
        let mut i: usize = 0;
        while i < self.entries.len()
            invariant
                i <= self.entries@.len(),
                all@ == self.entries@.take(i as int),
            decreases self.entries@.len() - i,
        {
            all.push(self.entries[i]);
            assert(all@ =~= self.entries@.take(i + 1));
            i += 1;
        }
        assert(self.entries@.take(i as int) =~= self.entries@);
        all
    }

    /// Maps `page` to `frame` with `flags`, unless the page is mapped
    /// already.
    pub fn map_to(&mut self, page: Page, frame: PhysFrame, flags: u64) -> (r: Result<
        (),
        MapToError,
    >)
        requires
            old(self).wf(),
        ensures
            final(self).wf(),
            old(self)@.contains_key(page.start_address) ==> r == Err::<(), MapToError>(
                MapToError::PageAlreadyMapped,
            ) && final(self)@ == old(self)@,
            !old(self)@.contains_key(page.start_address) ==> r is Ok
                && final(self)@ == old(self)@.insert(page.start_address, PageEntry { frame, flags }),
    {
        if self.translate(page).is_some() {
            return Err(MapToError::PageAlreadyMapped);
        }
        let entry = PageEntry { frame, flags };
        self.entries.push(Mapping { page: page.start_address, entry });
        proof {
            let before = old(self).entries@;
            let after = self.entries@;
            assert(!has_page(before, page.start_address));
            assert(distinct_pages(after)) by {
                assert forall|i: int, j: int| 0 <= i < j < after.len() implies (
                #[trigger] after[i]).page != (#[trigger] after[j]).page by {
                    if j == before.len() {
                        assert(before[i].page != page.start_address);
                    } else {
                        assert(before[i].page != before[j].page);
                    }
                }
            }
            assert forall|p: u64| has_page(after, p) <==> (has_page(before, p) || p
                == page.start_address) by {
                if has_page(before, p) {
                    let i = choose|i: int| 0 <= i < before.len() && (#[trigger] before[i]).page
                        == p;
                    assert(after[i].page == p);
                }
                if p == page.start_address {
                    assert(after[before.len() as int].page == p);
                }
                if has_page(after, p) {
                    let i = choose|i: int| 0 <= i < after.len() && (#[trigger] after[i]).page == p;
                    if i < before.len() {
                        assert(before[i].page == p);
                    }
                }
            }
            assert forall|p: u64| has_page(after, p) implies entry_of(after, p) == if p
                == page.start_address {
                entry
            } else {
                entry_of(before, p)
            } by {
                let i = choose|i: int| 0 <= i < after.len() && (#[trigger] after[i]).page == p;
                lemma_entry_of(after, i);
                if i < before.len() {
                    assert(before[i] == after[i]);
                    lemma_entry_of(before, i);
                }
            }
            assert(self@ =~= old(self)@.insert(page.start_address, entry));
        }
        Ok(())
    }

    /// Removes every mapping of a page whose address lies in `first..=last`.
    /// Returns how many there were.
    pub fn unmap_range(&mut self, first: u64, last: u64) -> (removed: usize)
        requires
            old(self).wf(),
        ensures
            final(self).wf(),
            final(self)@ == without_range(old(self)@, first, last),
    {
        let mut kept: Vec<Mapping> = Vec::new();
        let ghost mut src: Seq<int> = Seq::empty();
        let mut removed: usize = 0;
        let mut i: usize = 0;
        while i < self.entries.len()
            invariant
                i <= self.entries@.len(),
                self.entries == old(self).entries,
                self.wf(),
                removed <= i,
                src.len() == kept@.len(),
                forall|k: int|
                    0 <= k < src.len() ==> 0 <= #[trigger] src[k] < i && kept@[k]
                        == self.entries@[src[k]],
                forall|k: int, l: int| 0 <= k < l < src.len() ==> src[k] < src[l],
                forall|k: int| 0 <= k < kept@.len() ==> !(first <= (#[trigger] kept@[k]).page <= last),
                forall|j: int|
                    0 <= j < i && !(first <= (#[trigger] self.entries@[j]).page <= last)
                        ==> exists|k: int| 0 <= k < src.len() && src[k] == j,
            decreases self.entries@.len() - i,
        {
            let m = self.entries[i];
            if first <= m.page && m.page <= last {
                removed += 1;
            } else {
                kept.push(m);
                proof {
                    let old_src = src;
                    src = src.push(i as int);
                    assert forall|j: int|
                        0 <= j < i + 1 && !(first <= (#[trigger] self.entries@[j]).page <= last)
                        implies exists|k: int| 0 <= k < src.len() && src[k] == j by {
                        if j < i {
                            let k = choose|k: int| 0 <= k < old_src.len() && old_src[k] == j;
                            assert(src[k] == j);
                        } else {
                            assert(src[old_src.len() as int] == j);
                        }
                    }
                }
            }
            i += 1;
        }
        proof {
            let before = old(self).entries@;
            let after = kept@;
            assert(distinct_pages(after)) by {
                assert forall|k: int, l: int| 0 <= k < l < after.len() implies (
                #[trigger] after[k]).page != (#[trigger] after[l]).page by {
                    assert(src[k] < src[l]);
                    assert(before[src[k]].page != before[src[l]].page);
                }
            }
            assert forall|p: u64| has_page(after, p) <==> (has_page(before, p) && !(first <= p
                <= last)) by {
                if has_page(after, p) {
                    let k = choose|k: int| 0 <= k < after.len() && (#[trigger] after[k]).page == p;
                    assert(before[src[k]].page == p);
                }
                if has_page(before, p) && !(first <= p <= last) {
                    let j = choose|j: int| 0 <= j < before.len() && (#[trigger] before[j]).page
                        == p;
                    let k = choose|k: int| 0 <= k < src.len() && src[k] == j;
                    assert(after[k].page == p);
                }
            }
            assert forall|p: u64| has_page(after, p) implies entry_of(after, p) == entry_of(
                before,
                p,
            ) by {
                let k = choose|k: int| 0 <= k < after.len() && (#[trigger] after[k]).page == p;
                lemma_entry_of(after, k);
                lemma_entry_of(before, src[k]);
            }
            assert(mapping_of(after) =~= without_range(mapping_of(before), first, last));
        }
        self.entries = kept;
        removed
    }

    /// Unmaps `page` and returns the frame it was mapped to.
    pub fn unmap(&mut self, page: Page) -> (r: Result<PhysFrame, UnmapError>)
        requires
            old(self).wf(),
        ensures
            final(self).wf(),
            final(self)@ == old(self)@.remove(page.start_address),
            r == if old(self)@.contains_key(page.start_address) {
                Ok::<PhysFrame, UnmapError>(old(self)@[page.start_address].frame)
            } else {
                Err::<PhysFrame, UnmapError>(UnmapError::PageNotMapped)
            },
    {
        match self.translate(page) {
            Some(entry) => {
                self.unmap_range(page.start_address, page.start_address);
                assert(self@ =~= old(self)@.remove(page.start_address));
                Ok(entry.frame)
            },
            None => {
                assert(self@ =~= old(self)@.remove(page.start_address));
                Err(UnmapError::PageNotMapped)
            },
        }
    }
}

} // verus!
