use bib_os::allocator::{align_up, AllocError, BumpAllocator};

fn arena(start: usize, size: usize) -> BumpAllocator {
    let mut a = BumpAllocator::new();
    a.init(start, size);
    a
}

#[test]
fn align_up_rounds_to_the_next_multiple() {
    assert_eq!(align_up(0, 8), Some(0));
    assert_eq!(align_up(1, 8), Some(8));
    assert_eq!(align_up(8, 8), Some(8));
    assert_eq!(align_up(9, 8), Some(16));
    assert_eq!(align_up(1234, 1), Some(1234));
    assert_eq!(align_up(usize::MAX, 2), None);
    assert_eq!(align_up(usize::MAX - 1, 2), Some(usize::MAX - 1));
}

#[test]
fn fresh_allocator_is_unset() {
    let a = BumpAllocator::new();
    assert_eq!(a.heap_start, 0);
    assert_eq!(a.heap_end, 0);
    assert_eq!(a.next, 0);
    assert_eq!(a.outstanding_count(), 0);
}

#[test]
fn init_adopts_the_range() {
    let a = arena(0x1000, 0x800);
    assert_eq!(a.heap_start, 0x1000);
    assert_eq!(a.heap_end, 0x1800);
    assert_eq!(a.next, 0x1000);
    assert_eq!(a.outstanding_count(), 0);
}

#[test]
fn allocate_advances_the_cursor() {
    let mut a = arena(0x1000, 0x100);
    assert_eq!(a.allocate(7, 1), Ok(0x1000));
    assert_eq!(a.next, 0x1007);
    assert_eq!(a.outstanding_count(), 1);
    assert_eq!(a.allocate(8, 8), Ok(0x1008));
    assert_eq!(a.next, 0x1010);
    assert_eq!(a.outstanding_count(), 2);
}

#[test]
fn returned_addresses_satisfy_every_power_of_two_alignment() {
    let mut a = arena(0x1000, 0x1000);
    // Leave the cursor unaligned before each request.
    let mut align: usize = 1;
    while align <= 128 {
        a.allocate(1, 1).unwrap();
        let addr = a.allocate(3, align).unwrap();
        assert_eq!(addr % align, 0);
        align *= 2;
    }
}

#[test]
fn exhausted_arena_reports_out_of_memory() {
    let mut a = arena(0x1000, 16);
    assert_eq!(a.allocate(17, 1), Err(AllocError::OutOfMemory));
    // A failed request leaves the arena untouched.
    assert_eq!(a.next, 0x1000);
    assert_eq!(a.outstanding_count(), 0);
    assert_eq!(a.allocate(16, 1), Ok(0x1000));
    assert_eq!(a.allocate(1, 1), Err(AllocError::OutOfMemory));
}

#[test]
fn alignment_padding_counts_against_capacity() {
    let mut a = arena(0x1000, 16);
    assert_eq!(a.allocate(1, 1), Ok(0x1000));
    // The aligned start is 0x1008, so nine bytes reach past 0x1010.
    assert_eq!(a.allocate(9, 8), Err(AllocError::OutOfMemory));
    assert_eq!(a.allocate(8, 8), Ok(0x1008));
}

#[test]
fn address_overflow_reports_out_of_memory() {
    let mut a = arena(usize::MAX - 15, 15);
    assert_eq!(a.allocate(usize::MAX, 1), Err(AllocError::OutOfMemory));
    assert_eq!(a.allocate(usize::MAX, 4), Err(AllocError::OutOfMemory));
    assert_eq!(a.next, usize::MAX - 15);
}

#[test]
fn full_release_resets_to_arena_start() {
    let mut a = arena(0x2000, 0x100);
    let first = a.allocate(8, 1).unwrap();
    let second = a.allocate(8, 1).unwrap();
    assert_eq!(first, 0x2000);
    assert_eq!(second, 0x2008);
    a.release(second, 8);
    assert_eq!(a.outstanding_count(), 1);
    assert_eq!(a.next, 0x2010);
    a.release(first, 8);
    assert_eq!(a.outstanding_count(), 0);
    assert_eq!(a.next, 0x2000);
    assert_eq!(a.allocate(4, 1), Ok(0x2000));
}

#[test]
fn growth_on_demand_container_batch() {
    // A growth-on-demand container of 500 increasing integers backed by
    // the arena: it doubles its capacity by allocating a fresh block and
    // releasing the old one, then is dropped as a whole.
    let start: usize = 0x10000;
    let mut a = arena(start, 0x10000);
    let mut capacity: usize = 4;
    let mut block = a.allocate(capacity * 8, 8).unwrap();
    let mut len: usize = 0;
    let mut value: u64 = 0;
    while value < 500 {
        if len == capacity {
            let grown = a.allocate(capacity * 2 * 8, 8).unwrap();
            a.release(block, capacity * 8);
            block = grown;
            capacity *= 2;
        }
        len += 1;
        value += 1;
    }
    assert_eq!(len, 500);
    assert_eq!(a.outstanding_count(), 1);
    // Dropping the container releases its block: the arena empties and
    // the cursor snaps back to the start.
    a.release(block, capacity * 8);
    assert_eq!(a.outstanding_count(), 0);
    assert_eq!(a.next, start);
    // A fresh allocation of the same size is served from the very start.
    assert_eq!(a.allocate(capacity * 8, 8), Ok(start));
}
