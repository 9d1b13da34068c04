//! What a request to map or unmap a byte range does to an address space,
//! stated over the mapping from page numbers to permissions.
use vstd::prelude::*;
use crate::mm::address::in_page_range;
use crate::mm::address::page_aligned;
use crate::mm::permission::decode_port;
use crate::mm::permission::valid_port;
use crate::mm::permission::MapPermission;

verus! {

/// A mapping from page numbers to the permission of each mapped page.
pub type PageMap = Map<usize, MapPermission>;

/// The pages that a request for the bytes `[start, start + len)` speaks of.
pub open spec fn request_pages(start: usize, len: usize) -> Set<usize> {
    Set::new(|vpn: usize| in_page_range(start, len, vpn))
}

/// The mapping that gives each page of the request the permission that
/// `port` stands for.
pub open spec fn request_map(start: usize, len: usize, port: usize) -> PageMap {
    Map::new(|vpn: usize| in_page_range(start, len, vpn), |vpn: usize| decode_port(port))
}

/// Whether some page of the request is mapped in `memory`.
pub open spec fn any_page_mapped(memory: PageMap, start: usize, len: usize) -> bool {
    exists|vpn: usize| in_page_range(start, len, vpn) && memory.contains_key(vpn)
}

/// Whether some page of the request is not mapped in `memory`.
pub open spec fn any_page_unmapped(memory: PageMap, start: usize, len: usize) -> bool {
    exists|vpn: usize| in_page_range(start, len, vpn) && !memory.contains_key(vpn)
}

/// Whether a request to map `[start, start + len)` with the mask `port` is
/// refused: the start is not page aligned, the mask is not valid, or the
/// request is not empty and one of its pages is mapped already.
pub open spec fn mmap_refused(memory: PageMap, start: usize, len: usize, port: usize) -> bool {
    ||| !page_aligned(start)
    ||| !valid_port(port)
    ||| (len != 0 && any_page_mapped(memory, start, len))
}

/// The value that the request to map returns: 0 when granted, -1 when
/// refused.
pub open spec fn mmap_result(memory: PageMap, start: usize, len: usize, port: usize) -> isize {
    if mmap_refused(memory, start, len, port) {
        -1isize
    } else {
        0isize
    }
}

/// The address space after the request to map: unchanged when the request
/// is refused or empty, else with every page of the request mapped.
pub open spec fn mmap_memory(memory: PageMap, start: usize, len: usize, port: usize) -> PageMap {
    if mmap_refused(memory, start, len, port) || len == 0 {
        memory
    } else {
        memory.union_prefer_right(request_map(start, len, port))
    }
}

/// Whether a request to unmap `[start, start + len)` is refused: the start
/// is not page aligned, or the request is not empty and one of its pages is
/// not mapped.
pub open spec fn munmap_refused(memory: PageMap, start: usize, len: usize) -> bool {
    ||| !page_aligned(start)
    ||| (len != 0 && any_page_unmapped(memory, start, len))
}

/// The value that the request to unmap returns: 0 when granted, -1 when
/// refused.
pub open spec fn munmap_result(memory: PageMap, start: usize, len: usize) -> isize {
    if munmap_refused(memory, start, len) {
        -1isize
    } else {
        0isize
    }
}

/// The address space after the request to unmap: unchanged when the request
/// is refused or empty, else without the pages of the request.
pub open spec fn munmap_memory(memory: PageMap, start: usize, len: usize) -> PageMap {
    if munmap_refused(memory, start, len) || len == 0 {
        memory
    } else {
        memory.remove_keys(request_pages(start, len))
    }
}

/// Mapping a range whose pages are all free and unmapping the same range
/// right after both succeed, and the address space is then what it was
/// before: in particular no page of the range is mapped.
pub proof fn lemma_mmap_then_munmap(memory: PageMap, start: usize, len: usize, port: usize)
    requires
        page_aligned(start),
        valid_port(port),
        !any_page_mapped(memory, start, len),
    ensures
        mmap_result(memory, start, len, port) == 0,
        munmap_result(mmap_memory(memory, start, len, port), start, len) == 0,
        munmap_memory(mmap_memory(memory, start, len, port), start, len) == memory,
        forall|vpn: usize|
            in_page_range(start, len, vpn) ==> !munmap_memory(
                mmap_memory(memory, start, len, port),
                start,
                len,
            ).contains_key(vpn),
{
}

/// A request to map an empty range changes no mapping, whatever its start
/// and mask are; it returns 0 exactly when the start is page aligned and the
/// mask is valid.
pub proof fn lemma_mmap_empty(memory: PageMap, start: usize, port: usize)
    ensures
        mmap_memory(memory, start, 0, port) == memory,
        mmap_result(memory, start, 0, port) == 0 <==> page_aligned(start) && valid_port(port),
{
}

/// After a request to map has been granted, a second request that shares a
/// page with it is refused and leaves the address space as the first
/// request left it.
pub proof fn lemma_mmap_overlap_refused(
    memory: PageMap,
    start1: usize,
    len1: usize,
    port1: usize,
    start2: usize,
    len2: usize,
    port2: usize,
)
    requires
        mmap_result(memory, start1, len1, port1) == 0,
        exists|vpn: usize| in_page_range(start1, len1, vpn) && in_page_range(start2, len2, vpn),
    ensures
        mmap_result(mmap_memory(memory, start1, len1, port1), start2, len2, port2) == -1,
        mmap_memory(mmap_memory(memory, start1, len1, port1), start2, len2, port2) == mmap_memory(
            memory,
            start1,
            len1,
            port1,
        ),
{
}

/// A request to unmap a range of which some page is not mapped is refused
/// and leaves every mapping as it was.
pub proof fn lemma_munmap_unmapped_refused(memory: PageMap, start: usize, len: usize)
    requires
        any_page_unmapped(memory, start, len),
    ensures
        munmap_result(memory, start, len) == -1,
        munmap_memory(memory, start, len) == memory,
{
}

/// A request to map with a mask outside 1 to 7 is refused and changes no
/// mapping.
pub proof fn lemma_mmap_invalid_port_refused(memory: PageMap, start: usize, len: usize, port: usize)
    requires
        port == 0 || port > 7,
    ensures
        mmap_result(memory, start, len, port) == -1,
        mmap_memory(memory, start, len, port) == memory,
{
}

} // verus!
