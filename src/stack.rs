use vstd::prelude::*;

verus! {

/// Number of bytes reserved for each core's stack.
pub const STACK_SIZE: usize = 65536;

/// Largest number of cores the stack pool has room for.
pub const MAX_CORES: usize = 3;

/// Alignment that the calling convention asks of a stack pointer.
pub const STACK_ALIGN: usize = 16;

/// Start of the pool slice owned by core `hart_id`: slices are indexed by
/// `hart_id + 1`, so slice zero of the pool is left unused.
pub open spec fn slice_start(base: int, hart_id: int) -> int {
    base + (hart_id + 1) * STACK_SIZE
}

/// One past the last byte of the pool slice owned by core `hart_id`.
pub open spec fn slice_end(base: int, hart_id: int) -> int {
    base + (hart_id + 2) * STACK_SIZE
}

/// A pool at `base` whose every slice, guard slot included, has an address
/// that fits in a machine word.
pub open spec fn pool_fits(base: int) -> bool {
    base + (MAX_CORES + 2) * STACK_SIZE <= usize::MAX
}

/// Identity of one core together with the bounds of its stack slice.
#[derive(Clone, Copy, Debug, PartialEq, Eq)]
pub struct HartRecord {
    pub hart_id: usize,
    /// Initial stack pointer of the core: the stack grows downward from here.
    pub stack_top: usize,
    /// One past the last byte of the core's slice.
    pub slice_end: usize,
}

impl HartRecord {
    pub open spec fn describes(self, base: int, hart_id: int) -> bool {
        &&& self.hart_id == hart_id
        &&& self.stack_top == slice_start(base, hart_id)
        &&& self.slice_end == slice_end(base, hart_id)
    }

    /// Derives the stack bounds of core `hart_id` in the pool at `base`.
    pub fn new(base: usize, hart_id: usize) -> (r: HartRecord)
        requires
            hart_id < MAX_CORES,
            pool_fits(base as int),
        ensures
            r.describes(base as int, hart_id as int),
    {
        let top = stack_top(base, hart_id);
        HartRecord { hart_id, stack_top: top, slice_end: top + STACK_SIZE }
    }
}

/// Computes the initial stack pointer of core `hart_id` in the pool at `base`:
/// `base + (hart_id + 1) * STACK_SIZE`.
pub fn stack_top(base: usize, hart_id: usize) -> (r: usize)
    requires
        hart_id < MAX_CORES,
        pool_fits(base as int),
    ensures
        r == slice_start(base as int, hart_id as int),
{
    base + (hart_id + 1) * STACK_SIZE
}

/// For a 16-byte aligned pool, the slices of two distinct cores below the
/// core limit do not overlap, and each starts at a 16-byte aligned address.
pub proof fn lemma_stack_slices_disjoint_aligned(base: int, h1: int, h2: int)
    requires
        base % (STACK_ALIGN as int) == 0,
        0 <= h1 < MAX_CORES,
        0 <= h2 < MAX_CORES,
        h1 != h2,
    ensures
        slice_end(base, h1) <= slice_start(base, h2) || slice_end(base, h2) <= slice_start(base, h1),
        slice_start(base, h1) % (STACK_ALIGN as int) == 0,
        slice_start(base, h2) % (STACK_ALIGN as int) == 0,
        slice_start(base, h1) < slice_end(base, h1),
{
    assert((h1 + 1) * 65536 == 16 * ((h1 + 1) * 4096)) by (nonlinear_arith);
    assert((h2 + 1) * 65536 == 16 * ((h2 + 1) * 4096)) by (nonlinear_arith);
    assert(base + 16 * ((h1 + 1) * 4096) == 16 * (base / 16 + (h1 + 1) * 4096)) by (nonlinear_arith)
        requires base % 16 == 0;
    assert(base + 16 * ((h2 + 1) * 4096) == 16 * (base / 16 + (h2 + 1) * 4096)) by (nonlinear_arith)
        requires base % 16 == 0;
    if h1 < h2 {
        assert((h1 + 2) * 65536 <= (h2 + 1) * 65536) by (nonlinear_arith) requires h1 < h2;
    } else {
        assert((h2 + 2) * 65536 <= (h1 + 1) * 65536) by (nonlinear_arith) requires h2 < h1;
    }
}

} // verus!
