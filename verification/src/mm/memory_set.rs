//! The address space of one task: which virtual pages are mapped, and with
//! which permission.
use vstd::prelude::*;
use crate::mm::permission::MapPermission;

verus! {

/// A contiguous run of mapped pages `[start, end)` that share one permission.
#[derive(Clone, Copy, Debug)]
pub struct MapArea {
    /// First page of the run.
    pub start: usize,
    /// Page after the last page of the run.
    pub end: usize,
    /// Permission of every page of the run.
    pub perm: MapPermission,
}

impl MapArea {
    /// Whether page `vpn` belongs to the run.
    pub open spec fn contains(self, vpn: usize) -> bool {
        self.start <= vpn < self.end
    }

    /// Whether the two runs share no page.
    pub open spec fn disjoint(self, other: MapArea) -> bool {
        self.end <= other.start || other.end <= self.start
    }
}

/// The pages `[lo, hi)` as a set.
pub open spec fn page_set(lo: usize, hi: usize) -> Set<usize> {
    Set::new(|vpn: usize| lo <= vpn < hi)
}

/// The mapping that gives each page of `[lo, hi)` the permission `perm`.
pub open spec fn page_map(lo: usize, hi: usize, perm: MapPermission) -> Map<usize, MapPermission> {
    Map::new(|vpn: usize| lo <= vpn < hi, |vpn: usize| perm)
}

/// Every run holds a page, and no page lies in two runs.
spec fn areas_wf(areas: Seq<MapArea>) -> bool {
    &&& forall|i: int| 0 <= i < areas.len() ==> (#[trigger] areas[i]).start < areas[i].end
    &&& forall|i: int, j: int|
        0 <= i < j < areas.len() ==> (#[trigger] areas[i]).disjoint(#[trigger] areas[j])
}

/// Whether some run holds page `vpn`.
spec fn covered(areas: Seq<MapArea>, vpn: usize) -> bool {
    exists|i: int| 0 <= i < areas.len() && (#[trigger] areas[i]).contains(vpn)
}

/// Index of a run that holds page `vpn`.
spec fn index_of(areas: Seq<MapArea>, vpn: usize) -> int {
    choose|i: int| 0 <= i < areas.len() && (#[trigger] areas[i]).contains(vpn)
}

/// The mapping that a list of runs stands for.
spec fn areas_view(areas: Seq<MapArea>) -> Map<usize, MapPermission> {
    Map::new(|vpn: usize| covered(areas, vpn), |vpn: usize| areas[index_of(areas, vpn)].perm)
}

/// Whether `piece` is a part of the run `from` that lies outside `[lo, hi)`.
spec fn is_piece(piece: MapArea, from: MapArea, lo: usize, hi: usize) -> bool {
    &&& piece.start < piece.end
    &&& from.start <= piece.start
    &&& piece.end <= from.end
    &&& piece.perm == from.perm
    &&& (piece.end <= lo || hi <= piece.start)
}

/// The mapped pages of an address space, as a set of disjoint runs.
pub struct MemorySet {
    areas: Vec<MapArea>,
}

impl View for MemorySet {
    type V = Map<usize, MapPermission>;

    /// The permission of every mapped page, keyed by page number.
    closed spec fn view(&self) -> Map<usize, MapPermission> {
        areas_view(self.areas@)
    }
}

impl MemorySet {
    /// The representation invariant: the runs are non-empty and disjoint.
    pub closed spec fn wf(&self) -> bool {
        areas_wf(self.areas@)
    }

    /// An address space with no mapped page.
    pub fn new_bare() -> (result: Self)
        ensures
            result.wf(),
            result@ == Map::<usize, MapPermission>::empty(),
    {
        let result = MemorySet { areas: Vec::new() };
        result
    }

    /// Index of the run that holds page `vpn`, if the page is mapped.
    fn find_area(&self, vpn: usize) -> (found: Option<usize>)
        requires
            self.wf(),
        ensures
            match found {
                Some(i) => i < self.areas@.len() && self.areas@[i as int].contains(vpn)
                    && self@.contains_key(vpn) && self@[vpn] == self.areas@[i as int].perm,
                None => !self@.contains_key(vpn),
            },
    {
        let mut i: usize = 0;
        while i < self.areas.len()
            invariant
                i <= self.areas@.len(),
                self.wf(),
                forall|j: int| 0 <= j < i ==> !(#[trigger] self.areas@[j]).contains(vpn),
            decreases self.areas@.len() - i,
        {
            if self.areas[i].start <= vpn && vpn < self.areas[i].end {
                return Some(i);
            }
            i += 1;
        }
        None
    }

    /// Looks up page `vpn`: its permission if it is mapped, `None` if not.
    pub fn translate(&self, vpn: usize) -> (result: Option<MapPermission>)
        requires
            self.wf(),
        ensures
            result == (if self@.contains_key(vpn) {
                Some(self@[vpn])
            } else {
                None
            }),
    {
        match self.find_area(vpn) {
            Some(i) => Some(self.areas[i].perm),
            None => None,
        }
    }

    /// Whether any page of `[lo, hi)` is mapped.
    pub fn overlaps(&self, lo: usize, hi: usize) -> (result: bool)
        requires
            self.wf(),
        ensures
            result <==> exists|vpn: usize| lo <= vpn < hi && self@.contains_key(vpn),
    {
        if hi <= lo {
            return false;
        }
        let mut i: usize = 0;
        while i < self.areas.len()
            invariant
                i <= self.areas@.len(),
                lo < hi,
                self.wf(),
                forall|j: int|
                    0 <= j < i ==> {
                        let a = #[trigger] self.areas@[j];
                        a.end <= lo || hi <= a.start
                    },
            decreases self.areas@.len() - i,
        {
            let area = self.areas[i];
            let first: usize = if area.start < lo {
                lo
            } else {
                area.start
            };
            if first < hi && first < area.end {
                proof {
                    assert(lo <= first < hi && self@.contains_key(first));
                }
                return true;
            }
            i += 1;
        }
        false
    }

    /// Whether every page of `[lo, hi)` is mapped.
    pub fn covers(&self, lo: usize, hi: usize) -> (result: bool)
        requires
            self.wf(),
        ensures
            result <==> forall|vpn: usize| lo <= vpn < hi ==> self@.contains_key(vpn),
    {
        let mut next: usize = lo;
        while next < hi
            invariant
                lo <= next,
                self.wf(),
                forall|vpn: usize| lo <= vpn < next && vpn < hi ==> self@.contains_key(vpn),
            decreases hi - next,
        {
            match self.find_area(next) {
                Some(i) => {
                    let end: usize = self.areas[i].end;
                    next = if end < hi {
                        end
                    } else {
                        hi
                    };
                },
                None => {
                    return false;
                },
            }
        }
        true
    }

    /// Maps the pages `[lo, hi)`, none of which is mapped yet, with the
    /// permission `perm`.
    pub fn insert_framed_area(&mut self, lo: usize, hi: usize, perm: MapPermission)
        requires
            old(self).wf(),
            lo < hi,
            forall|vpn: usize| lo <= vpn < hi ==> !old(self)@.contains_key(vpn),
        ensures
            final(self).wf(),
            final(self)@ == old(self)@.union_prefer_right(page_map(lo, hi, perm)),
    {
        let area = MapArea { start: lo, end: hi, perm };
        proof {
            let before = self.areas@;
            let after = before.push(area);
            assert forall|i: int| 0 <= i < before.len() implies (#[trigger] before[i]).disjoint(area) by {
                let a = before[i];
                let first = if a.start < lo { lo } else { a.start };
                if !a.disjoint(area) {
                    assert(self@.contains_key(first));
                }
            }
            assert forall|vpn: usize| #![auto]
                areas_view(after).contains_key(vpn) <==> (areas_view(before).contains_key(vpn) || lo <= vpn < hi) by {
                if covered(after, vpn) {
                    let k = index_of(after, vpn);
                    assert(k == before.len() || before[k].contains(vpn));
                }
                if covered(before, vpn) {
                    let k = index_of(before, vpn);
                    assert(after[k].contains(vpn));
                }
                if lo <= vpn < hi {
                    assert(after[before.len() as int].contains(vpn));
                }
            }
        }
        self.areas.push(area);
    }

    /// Unmaps every page of `[lo, hi)`; the other pages stay as they are.
    pub fn remove_range(&mut self, lo: usize, hi: usize)
        requires
            old(self).wf(),
            lo <= hi,
        ensures
            final(self).wf(),
            final(self)@ == old(self)@.remove_keys(page_set(lo, hi)),
    {
        let mut kept: Vec<MapArea> = Vec::new();
        let ghost mut origin: Seq<int> = Seq::empty();
        let mut i: usize = 0;
        while i < self.areas.len()
            invariant
                i <= self.areas@.len(),
                lo <= hi,
                areas_wf(self.areas@),
                areas_wf(kept@),
                origin.len() == kept@.len(),
                forall|k: int|
                    0 <= k < kept@.len() ==> 0 <= #[trigger] origin[k] < i && is_piece(
                        kept@[k],
                        self.areas@[origin[k]],
                        lo,
                        hi,
                    ),
                forall|j: int, vpn: usize|
                    0 <= j < i && #[trigger] self.areas@[j].contains(vpn) && !(lo <= vpn < hi)
                        ==> covered(kept@, vpn),
            decreases self.areas@.len() - i,
        {
            let area = self.areas[i];
            let ghost before = kept@;
            if area.end <= lo || hi <= area.start {
                kept.push(area);
                proof {
                    origin = origin.push(i as int);
                }
            } else {
                if area.start < lo {
                    kept.push(MapArea { start: area.start, end: lo, perm: area.perm });
                    proof {
                        origin = origin.push(i as int);
                    }
                }
                if hi < area.end {
                    kept.push(MapArea { start: hi, end: area.end, perm: area.perm });
                    proof {
                        origin = origin.push(i as int);
                    }
                }
            }
            proof {
                assert forall|a: int, b: int| 0 <= a < b < kept@.len() implies (#[trigger] kept@[a]).disjoint(
                    #[trigger] kept@[b],
                ) by {
                    // two pieces of one run lie on either side of the range,
                    // pieces of two runs lie in runs that share no page
                    assert(is_piece(kept@[a], self.areas@[origin[a]], lo, hi));
                    assert(is_piece(kept@[b], self.areas@[origin[b]], lo, hi));
                }
                assert forall|j: int, vpn: usize|
                    0 <= j < i + 1 && #[trigger] self.areas@[j].contains(vpn) && !(lo <= vpn < hi)
                    implies covered(kept@, vpn) by {
                    if j < i {
                        let k = index_of(before, vpn);
                        assert(kept@[k].contains(vpn));
                    } else {
                        if area.end <= lo || hi <= area.start {
                            assert(kept@[before.len() as int].contains(vpn));
                        } else if vpn < lo {
                            assert(kept@[before.len() as int].contains(vpn));
                        } else {
                            assert(kept@[kept@.len() - 1].contains(vpn));
                        }
                    }
                }
            }
            i += 1;
        }
        proof {
            let before = self.areas@;
            let after = kept@;
            assert forall|vpn: usize| #![auto]
                areas_view(after).contains_key(vpn) <==> (areas_view(before).contains_key(vpn) && !(lo <= vpn < hi)) by {
                if covered(after, vpn) {
                    let k = index_of(after, vpn);
                    assert(before[origin[k]].contains(vpn));
                }
            }
            assert forall|vpn: usize| areas_view(after).contains_key(vpn) implies
                #[trigger] areas_view(after)[vpn] == areas_view(before)[vpn] by {
                // the page lies in a piece, and the piece in the run that
                // gave the page its permission before
                let k = index_of(after, vpn);
                assert(before[origin[k]].contains(vpn));
                assert(after[k].perm == before[origin[k]].perm);
            }
        }
        self.areas = kept;
    }

    /// A copy of the address space: the same pages with the same
    /// permissions, sharing nothing with `self`.
    pub fn from_existed_user(&self) -> (result: Self)
        requires
            self.wf(),
        ensures
            result.wf(),
            result@ == self@,
    {
        let mut areas: Vec<MapArea> = Vec::new();
        let mut i: usize = 0;
        while i < self.areas.len()
            invariant
                i <= self.areas@.len(),
                areas@ == self.areas@.subrange(0, i as int),
            decreases self.areas@.len() - i,
        {
            areas.push(self.areas[i]);
            i += 1;
        }
        assert(areas@ == self.areas@);
        MemorySet { areas }
    }

    /// Unmaps every page.
    pub fn recycle_data_pages(&mut self)
        ensures
            final(self).wf(),
            final(self)@ == Map::<usize, MapPermission>::empty(),
    {
        self.areas.clear();
    }
}

} // verus!
