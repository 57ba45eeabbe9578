//! Queue-pair sizing, ring addressing, opcode direction bits, and the
//! external-request argument check.

use nvme_queue_pair::issuer::external_args_ok;
use nvme_queue_pair::issuer::gpn_to_gpa;
use nvme_queue_pair::issuer::PagedRange;
use nvme_queue_pair::nvme::transfers_controller_to_host;
use nvme_queue_pair::nvme::transfers_host_to_controller;
use nvme_queue_pair::pair::bounce_pool_size_pages;
use nvme_queue_pair::pair::cq_addr;
use nvme_queue_pair::pair::queue_sizes_ok;
use nvme_queue_pair::pair::sq_addr;
use nvme_queue_pair::pair::MAX_CQSIZE;
use nvme_queue_pair::pair::MAX_SQSIZE;
use nvme_queue_pair::pair::MIN_PER_QUEUE_PAGES;

#[test]
fn ring_maxima_fit_one_page() {
    assert_eq!(MAX_SQSIZE, 64);
    assert_eq!(MAX_CQSIZE, 256);
    assert!(queue_sizes_ok(64, 256));
    assert!(!queue_sizes_ok(65, 256));
    assert!(!queue_sizes_ok(64, 257));
}

#[test]
fn bounce_pool_never_shrinks_below_floor() {
    assert_eq!(MIN_PER_QUEUE_PAGES, 129);
    assert_eq!(bounce_pool_size_pages(0), 129);
    assert_eq!(bounce_pool_size_pages(64), 129);
    assert_eq!(bounce_pool_size_pages(129), 129);
    assert_eq!(bounce_pool_size_pages(512), 512);
}

#[test]
fn ring_addresses_come_from_the_pair_pages() {
    let pfns = vec![0x123, 0x124];
    assert_eq!(sq_addr(&pfns), 0x123 * 4096);
    assert_eq!(cq_addr(&pfns), 0x124 * 4096);
}

#[test]
fn opcode_direction_bits() {
    assert!(transfers_host_to_controller(0x01));
    assert!(!transfers_controller_to_host(0x01));
    assert!(transfers_controller_to_host(0x02));
    assert!(!transfers_host_to_controller(0x02));
    // Identify (0x06) returns data to the host.
    assert!(transfers_controller_to_host(0x06));
}

#[test]
fn external_request_needs_direction_or_no_memory() {
    assert!(external_args_ok(0x06, false));
    assert!(external_args_ok(0x00, true));
    assert!(!external_args_ok(0x00, false));
}

#[test]
fn paged_range_reports_its_shape() {
    let range = PagedRange::new(512, 6000, vec![0x10, 0x11]);
    assert_eq!(range.offset(), 512);
    assert_eq!(range.len(), 6000);
    assert!(!range.is_empty());
    assert_eq!(range.gpn_count(), 2);
    assert_eq!(range.gpn_at(0), 0x10);
    assert_eq!(gpn_to_gpa(range.gpn_at(1)), 0x11 * 4096);
}
