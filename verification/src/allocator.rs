//! Bump-style arena allocator.
//!
//! The allocator owns a fixed address range and serves requests by rounding
//! a cursor up to the requested alignment and advancing it. Individual
//! releases never reuse memory; the whole arena is reclaimed at once when
//! the count of outstanding allocations returns to zero.
use vstd::arithmetic::div_mod::{lemma_fundamental_div_mod, lemma_mod_multiples_basic};
use vstd::arithmetic::mul::lemma_mul_is_distributive_add;
use vstd::prelude::*;

verus! {

/// Why an allocation request was refused.
#[derive(Clone, Copy, Debug, PartialEq, Eq, Structural)]
pub enum AllocError {
    /// The aligned request does not fit in the remaining arena capacity
    /// (or its end would not even fit in address arithmetic).
    OutOfMemory,
}

/// The smallest multiple of `align` that is at least `addr`.
pub open spec fn spec_align_up(addr: int, align: int) -> int
    recommends
        align >= 1,
        addr >= 0,
{
    if addr % align == 0 {
        addr
    } else {
        addr + (align - addr % align)
    }
}

/// A bump arena. Addresses are plain numbers here: the caller that owns the
/// real memory range hands its bounds in and interprets the results.
pub struct BumpAllocator {
    pub heap_start: usize,
    pub heap_end: usize,
    pub next: usize,
    pub allocations: usize,
}

impl BumpAllocator {
    /// Arena invariant: the cursor stays inside the range, and whenever no
    /// allocation is outstanding the cursor rests at the arena start.
    pub open spec fn wf(self) -> bool {
        &&& self.heap_start <= self.next <= self.heap_end
        &&& self.allocations == 0 ==> self.next == self.heap_start
    }

    /// An allocator that has not been given an arena yet.
    pub open spec fn is_unset(self) -> bool {
        &&& self.heap_start == 0
        &&& self.heap_end == 0
        &&& self.next == 0
        &&& self.allocations == 0
    }

    /// The request fits: the cursor, rounded up to `align`, leaves room for
    /// `size` bytes before the arena end.
    pub open spec fn can_allocate(self, size: usize, align: usize) -> bool {
        spec_align_up(self.next as int, align as int) + size <= self.heap_end
    }

    pub fn new() -> (r: Self)
        ensures
            r.is_unset(),
            r.wf(),
    {
        BumpAllocator { heap_start: 0, heap_end: 0, next: 0, allocations: 0 }
    }

    /// Adopts the arena `[heap_start, heap_start + heap_size)`. One-time:
    /// the range must be exclusively owned by the caller, and an allocator
    /// that already holds an arena is never re-initialized.
    pub fn init(&mut self, heap_start: usize, heap_size: usize)
        requires
            old(self).is_unset(),
            heap_start + heap_size <= usize::MAX,
        ensures
            final(self).heap_start == heap_start,
            final(self).heap_end == heap_start + heap_size,
            final(self).next == heap_start,
            final(self).allocations == 0,
            final(self).wf(),
    {
        self.heap_start = heap_start;
        self.heap_end = heap_start + heap_size;
        self.next = heap_start;
    }

    /// Serves one request: rounds the cursor up to `align`, and if the end
    /// of the rounded request still lies inside the arena, advances the
    /// cursor past it. Fails with `OutOfMemory` exactly when the aligned
    /// request does not fit; a failed request leaves the arena untouched.
    pub fn allocate(&mut self, size: usize, align: usize) -> (r: Result<usize, AllocError>)
        requires
            old(self).wf(),
            align >= 1,
            old(self).allocations < usize::MAX,
        ensures
            final(self).wf(),
            final(self).heap_start == old(self).heap_start,
            final(self).heap_end == old(self).heap_end,
            r is Ok <==> old(self).can_allocate(size, align),
            r matches Ok(addr) ==> {
                &&& addr == spec_align_up(old(self).next as int, align as int)
                &&& addr as int % align as int == 0
                &&& old(self).next <= addr
                &&& addr + size <= old(self).heap_end
                &&& final(self).next == addr + size
                &&& final(self).allocations == old(self).allocations + 1
            },
            r is Err ==> *final(self) == *old(self) && r == Err::<usize, AllocError>(
                AllocError::OutOfMemory,
            ),
    {
        let alloc_start: usize = match align_up(self.next, align) {
            Some(s) => s,
            None => {
                // The rounded cursor itself overflows the address space,
                // so it certainly lies past the arena end.
                return Err(AllocError::OutOfMemory);
            },
        };
        proof {
            lemma_align_up_properties(self.next as int, align as int);
        }
        match alloc_start.checked_add(size) {
            Some(alloc_end) => {
                if alloc_end <= self.heap_end {
                    self.next = alloc_end;
                    self.allocations = self.allocations + 1;
                    Ok(alloc_start)
                } else {
                    Err(AllocError::OutOfMemory)
                }
            },
            None => Err(AllocError::OutOfMemory),
        }
    }

    /// Returns one allocation: the outstanding count drops by one, and the
    /// moment it reaches zero the cursor snaps back to the arena start,
    /// reclaiming the whole arena at once. Releasing more than was
    /// allocated would be an integrity failure, so it is ruled out here.
    pub fn release(&mut self, _ptr: usize, _size: usize)
        requires
            old(self).wf(),
            old(self).allocations >= 1,
        ensures
            final(self).wf(),
            final(self).heap_start == old(self).heap_start,
            final(self).heap_end == old(self).heap_end,
            final(self).allocations == old(self).allocations - 1,
            final(self).next == if old(self).allocations == 1 {
                old(self).heap_start
            } else {
                old(self).next
            },
    {
        self.allocations = self.allocations - 1;
        if self.allocations == 0 {
            self.next = self.heap_start;
        }
    }

    /// How many allocations are outstanding.
    pub fn outstanding_count(&self) -> (r: usize)
        ensures
            r == self.allocations,
    {
        self.allocations
    }
}

/// Rounds an address up to the next multiple of `align`, or reports that
/// the rounded address does not fit in address arithmetic.
pub fn align_up(addr: usize, align: usize) -> (r: Option<usize>)
    requires
        align >= 1,
    ensures
        r matches Some(a) ==> a == spec_align_up(addr as int, align as int),
        r is None ==> spec_align_up(addr as int, align as int) > usize::MAX,
{
    proof {
        lemma_align_up_properties(addr as int, align as int);
    }
    let rem = addr % align;
    if rem == 0 {
        Some(addr)
    } else {
        addr.checked_add(align - rem)
    }
}

/// Rounding up to an alignment lands on a multiple of the alignment and
/// moves the address forward by less than one alignment step.
pub proof fn lemma_align_up_properties(addr: int, align: int)
    requires
        align >= 1,
        addr >= 0,
    ensures
        spec_align_up(addr, align) % align == 0,
        addr <= spec_align_up(addr, align) < addr + align,
{
    let rem = addr % align;
    lemma_fundamental_div_mod(addr, align);
    if rem != 0 {
        let q = addr / align;
        assert(spec_align_up(addr, align) == align * (q + 1)) by {
            lemma_mul_is_distributive_add(align, q, 1);
        };
        lemma_mod_multiples_basic(q + 1, align);
        assert((q + 1) * align == align * (q + 1)) by (nonlinear_arith);
    }
}

/// Law: once every outstanding allocation has been released, the arena is
/// whole again — the next allocation is served from the very start of the
/// arena (stated for alignments that the arena start itself satisfies).
pub proof fn lemma_full_release_resets_arena(a: BumpAllocator, size: usize, align: usize)
    requires
        a.wf(),
        a.allocations == 0,
        align >= 1,
        a.heap_start as int % align as int == 0,
    ensures
        spec_align_up(a.next as int, align as int) == a.heap_start,
        a.can_allocate(size, align) <==> a.heap_start + size <= a.heap_end,
{
    assert(a.next == a.heap_start);
}

} // verus!
