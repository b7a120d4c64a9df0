use bump_allocator::AllocError;
use bump_allocator::EarlyAllocator;

const PAGE: usize = 4096;

#[test]
fn new_manages_empty_range() {
    let mut a = EarlyAllocator::<PAGE>::new();
    assert_eq!(a.total_bytes(), 0);
    assert_eq!(a.used_bytes(), 0);
    assert_eq!(a.available_bytes(), 0);
    assert_eq!(a.total_pages(), 0);
    assert_eq!(a.alloc_bytes(1, 1), Err(AllocError::NoMemory));
    assert_eq!(a.alloc_pages(1, 1), Err(AllocError::NoMemory));
}

#[test]
fn init_accounting() {
    let mut a = EarlyAllocator::<PAGE>::new();
    a.init(0x1000, 3 * PAGE);
    assert_eq!(a.total_bytes(), 3 * PAGE);
    assert_eq!(a.used_bytes(), 0);
    assert_eq!(a.available_bytes(), 3 * PAGE);
    assert_eq!(a.total_pages(), 3);
    assert_eq!(a.used_pages(), 0);
    assert_eq!(a.available_pages(), 3);
    assert_eq!(a.allocation_count(), 0);
}

#[test]
fn reinit_discards_prior_state() {
    let mut a = EarlyAllocator::<PAGE>::new();
    a.init(0, PAGE);
    let addr = a.alloc_bytes(100, 1).unwrap();
    assert_eq!(addr, 0);
    a.init(PAGE, PAGE);
    assert_eq!(a.used_bytes(), 0);
    assert_eq!(a.allocation_count(), 0);
    assert_eq!(a.total_bytes(), PAGE);
}

#[test]
fn byte_allocs_are_adjacent_and_disjoint() {
    let mut a = EarlyAllocator::<PAGE>::new();
    a.init(0, PAGE);
    let p1 = a.alloc_bytes(16, 1).unwrap();
    let p2 = a.alloc_bytes(32, 1).unwrap();
    let p3 = a.alloc_bytes(8, 1).unwrap();
    assert_eq!(p1, 0);
    assert_eq!(p2, 16);
    assert_eq!(p3, 48);
    assert_eq!(a.used_bytes(), 56);
    assert_eq!(a.allocation_count(), 3);
}

#[test]
fn byte_alloc_from_nonzero_start() {
    let mut a = EarlyAllocator::<PAGE>::new();
    a.init(PAGE, PAGE);
    assert_eq!(a.alloc_bytes(64, 1), Ok(PAGE));
    assert_eq!(a.used_bytes(), 64);
}

#[test]
fn byte_alloc_does_not_round_up_for_alignment() {
    let mut a = EarlyAllocator::<PAGE>::new();
    a.init(0, PAGE);
    assert_eq!(a.alloc_bytes(3, 1), Ok(0));
    // The cursor stands at 3; an 8-byte-aligned request is still served there.
    assert_eq!(a.alloc_bytes(8, 8), Ok(3));
    assert_eq!(a.used_bytes(), 11);
}

#[test]
fn byte_alloc_no_memory_exactly_at_the_boundary() {
    let mut a = EarlyAllocator::<16>::new();
    a.init(0, 128);
    assert_eq!(a.alloc_bytes(129, 1), Err(AllocError::NoMemory));
    assert_eq!(a.alloc_bytes(128, 1), Ok(0));
    assert_eq!(a.alloc_bytes(1, 1), Err(AllocError::NoMemory));
    // A zero-size request still fits when the cursors touch.
    assert_eq!(a.alloc_bytes(0, 1), Ok(128));
    assert_eq!(a.available_bytes(), 0);
}

#[test]
fn byte_alloc_fails_once_pages_took_the_middle() {
    let mut a = EarlyAllocator::<PAGE>::new();
    a.init(0, 2 * PAGE);
    assert_eq!(a.alloc_pages(1, PAGE), Ok(PAGE));
    assert_eq!(a.alloc_bytes(PAGE, 1), Ok(0));
    assert_eq!(a.alloc_bytes(1, 1), Err(AllocError::NoMemory));
}

#[test]
fn round_trip_resets_used_bytes() {
    let mut a = EarlyAllocator::<PAGE>::new();
    a.init(0, PAGE);
    let addr = a.alloc_bytes(100, 1).unwrap();
    assert_eq!(a.used_bytes(), 100);
    a.dealloc(addr, 100);
    assert_eq!(a.allocation_count(), 0);
    assert_eq!(a.used_bytes(), 0);
}

#[test]
fn intermediate_dealloc_only_decrements() {
    let mut a = EarlyAllocator::<PAGE>::new();
    a.init(0, PAGE);
    let p1 = a.alloc_bytes(16, 1).unwrap();
    let p2 = a.alloc_bytes(16, 1).unwrap();
    a.dealloc(p2, 16);
    // One allocation is still outstanding: nothing is reclaimed yet.
    assert_eq!(a.allocation_count(), 1);
    assert_eq!(a.used_bytes(), 32);
    a.dealloc(p1, 16);
    assert_eq!(a.allocation_count(), 0);
    assert_eq!(a.used_bytes(), 0);
}

#[test]
fn last_dealloc_resets_to_its_own_address() {
    let mut a = EarlyAllocator::<PAGE>::new();
    a.init(0, PAGE);
    let p1 = a.alloc_bytes(16, 1).unwrap();
    let p2 = a.alloc_bytes(16, 1).unwrap();
    a.dealloc(p1, 16);
    a.dealloc(p2, 16);
    // The cursor is reset to the address of the deallocation that brought the
    // count to zero, not to `start`: the gap below it stays consumed.
    assert_eq!(a.used_bytes(), p2);
    assert_eq!(a.used_bytes(), 16);
}

#[test]
fn page_alloc_no_memory_exactly_when_crossing_start() {
    let mut a = EarlyAllocator::<PAGE>::new();
    a.init(0, PAGE);
    assert_eq!(a.alloc_pages(2, PAGE), Err(AllocError::NoMemory));
    assert_eq!(a.alloc_pages(1, PAGE), Ok(0));
    assert_eq!(a.alloc_pages(1, PAGE), Err(AllocError::NoMemory));
}

#[test]
fn page_accounting_counts_from_the_top() {
    let mut a = EarlyAllocator::<PAGE>::new();
    a.init(0, 2 * PAGE);
    assert_eq!(a.alloc_pages(1, PAGE), Ok(PAGE));
    assert_eq!(a.used_pages(), 1);
    assert_eq!(a.available_pages(), 1);
    assert_eq!(a.total_pages(), 2);
    assert_eq!(a.alloc_pages(1, PAGE), Ok(0));
    assert_eq!(a.used_pages(), 2);
    assert_eq!(a.available_pages(), 0);
}

#[test]
fn page_align_down_absorbs_the_gap() {
    let mut a = EarlyAllocator::<PAGE>::new();
    a.init(0, PAGE + 2048);
    // The unaligned boundary is 2048; aligning down to 4096 absorbs it all.
    assert_eq!(a.alloc_pages(1, PAGE), Ok(0));
    assert_eq!(a.used_pages(), 1);
    assert_eq!(a.available_pages(), 0);
}

#[test]
fn dealloc_pages_reclaims_nothing() {
    let mut a = EarlyAllocator::<PAGE>::new();
    a.init(0, 2 * PAGE);
    let addr = a.alloc_pages(1, PAGE).unwrap();
    assert_eq!(addr, PAGE);
    a.dealloc_pages(addr, 1);
    assert_eq!(a.used_pages(), 1);
    assert_eq!(a.available_pages(), 1);
    assert_eq!(a.available_bytes(), 2 * PAGE);
    // The freed page is not handed out again: the next request moves down.
    assert_eq!(a.alloc_pages(1, PAGE), Ok(0));
}

#[test]
fn add_memory_is_unsupported() {
    let mut a = EarlyAllocator::<PAGE>::new();
    a.init(0, PAGE);
    assert_eq!(a.add_memory(PAGE, PAGE), Err(AllocError::Unsupported));
    assert_eq!(a.total_bytes(), PAGE);
    assert_eq!(a.total_pages(), 1);
}

#[test]
fn contains_checks_the_managed_range() {
    let mut a = EarlyAllocator::<PAGE>::new();
    a.init(PAGE, PAGE);
    assert!(a.contains(PAGE));
    assert!(a.contains(2 * PAGE - 1));
    assert!(!a.contains(PAGE - 1));
    assert!(!a.contains(2 * PAGE));
}

#[test]
fn boot_scenario_one_page_region() {
    let mut a = EarlyAllocator::<PAGE>::new();
    a.init(0, PAGE);
    assert_eq!(a.alloc_bytes(64, 1), Ok(0));
    assert_eq!(a.used_bytes(), 64);
    assert_eq!(a.alloc_pages(1, PAGE), Ok(0));
    assert_eq!(a.alloc_pages(1, PAGE), Err(AllocError::NoMemory));
}
