//! Arithmetic on virtual addresses and virtual page numbers.
use vstd::prelude::*;
use crate::config::PAGE_SIZE;

verus! {

/// Whether `addr` is the first byte of a page.
pub open spec fn page_aligned(addr: usize) -> bool {
    addr % PAGE_SIZE == 0
}

/// Number of the page that holds the byte at `addr`.
pub open spec fn vpn_floor(addr: int) -> int {
    addr / (PAGE_SIZE as int)
}

/// Number of the first page that starts at or after `addr`.
pub open spec fn vpn_ceil(addr: int) -> int {
    (addr + PAGE_SIZE - 1) / (PAGE_SIZE as int)
}

/// Whether page `vpn` lies in the page range that covers the bytes
/// `[start, start + len)`, the end rounded up to a full page.
pub open spec fn in_page_range(start: usize, len: usize, vpn: usize) -> bool {
    vpn_floor(start as int) <= vpn < vpn_ceil(start + len)
}

/// Offset of `addr` inside its page.
pub fn page_offset(addr: usize) -> (offset: usize)
    ensures
        offset == addr % PAGE_SIZE,
        offset == 0 <==> page_aligned(addr),
{
    addr % PAGE_SIZE
}

/// Page range `[first, end)` that covers the bytes `[start, start + len)`.
///
/// The sum `start + len` is taken over the integers, so the range is exact
/// even where the byte range runs past the largest address.
pub fn page_range(start: usize, len: usize) -> (range: (usize, usize))
    ensures
        range.0 == vpn_floor(start as int),
        range.1 == vpn_ceil(start + len),
        range.0 <= range.1,
        len > 0 ==> range.0 < range.1,
        forall|vpn: usize| in_page_range(start, len, vpn) <==> range.0 <= vpn < range.1,
{
    let first: usize = start / PAGE_SIZE;
    let offset: usize = start % PAGE_SIZE;
    let whole: usize = len / PAGE_SIZE;
    let rest: usize = offset + len % PAGE_SIZE;
    let extra: usize = if rest == 0 {
        0
    } else if rest <= PAGE_SIZE {
        1
    } else {
        2
    };
    (first, first + whole + extra)
}

} // verus!
