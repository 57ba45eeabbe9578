//! Queue-pair sizing and addressing: the ring-size maxima a single DMA page
//! allows, the bounce-pool floor, and the physical addresses of the two rings
//! within the pair's DMA allocation.

use vstd::prelude::*;
use crate::nvme::PAGE_SIZE64;

verus! {

/// Maximum submission queue size in entries: one page of 64-byte entries.
pub const MAX_SQSIZE: u16 = 4096 / 64;

/// Maximum completion queue size in entries: one page of 16-byte entries.
pub const MAX_CQSIZE: u16 = 4096 / 16;

/// The least bounce-pool size in pages any queue pair is given:
/// enough for a 512 KiB transfer plus one auxiliary PRP-list page.
pub const MIN_PER_QUEUE_PAGES: u64 = (512 * 1024 + 4096) / 4096;

/// Whether the requested ring sizes fit the single page each ring is given.
/// A queue pair must not be built with larger ones.
pub fn queue_sizes_ok(sq_size: u16, cq_size: u16) -> (r: bool)
    ensures
        r == (sq_size <= MAX_SQSIZE && cq_size <= MAX_CQSIZE),
{
    sq_size <= MAX_SQSIZE && cq_size <= MAX_CQSIZE
}

/// Returns the bounce-pool size in pages for a requested page count:
/// the request, raised to the per-queue floor when below it.
pub fn bounce_pool_size_pages(requested: u64) -> (r: u64)
    ensures
        r == if requested >= MIN_PER_QUEUE_PAGES { requested } else { MIN_PER_QUEUE_PAGES },
        r >= MIN_PER_QUEUE_PAGES,
        r >= requested,
{
    if requested >= MIN_PER_QUEUE_PAGES {
        requested
    } else {
        MIN_PER_QUEUE_PAGES
    }
}

/// Physical address of the submission queue ring: the first page of the
/// pair's DMA allocation, whose page frame numbers are given.
pub fn sq_addr(pfns: &Vec<u64>) -> (r: u64)
    requires
        pfns@.len() >= 2,
        pfns@[0] * PAGE_SIZE64 <= u64::MAX,
    ensures
        r == pfns@[0] * PAGE_SIZE64,
{
    pfns[0] * PAGE_SIZE64
}

/// Physical address of the completion queue ring: the second page of the
/// pair's DMA allocation.
pub fn cq_addr(pfns: &Vec<u64>) -> (r: u64)
    requires
        pfns@.len() >= 2,
        pfns@[1] * PAGE_SIZE64 <= u64::MAX,
    ensures
        r == pfns@[1] * PAGE_SIZE64,
{
    pfns[1] * PAGE_SIZE64
}

} // verus!
