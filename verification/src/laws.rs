//! Proved laws of the allocator, stated over the ghost model in [`crate`].

use vstd::prelude::*;

use crate::RegionState;
use crate::align_down;
use crate::byte_alloc_ok;
use crate::byte_dealloc_ok;
use crate::is_power_of_two;
use crate::lemma_pow2_positive;

verus! {

/// A freshly initialized allocator accounts for the whole range as free:
/// `total_bytes` is the initialized size, nothing is used on either side, and
/// every page is still available.
pub proof fn lemma_init_accounting(s: RegionState, start: usize, size: usize, page_size: int)
    requires
        0 < page_size,
        s == (RegionState {
            start: start as int,
            end: start + size,
            b_pos: start as int,
            p_pos: start + size,
            count: 0,
        }),
    ensures
        s.wf(),
        s.total_bytes() == size,
        s.used_bytes() == 0,
        s.available_bytes() == size,
        s.used_pages(page_size) == 0,
        s.available_pages(page_size) == s.total_pages(page_size),
{
}

/// A run of `sizes.len()` successful byte allocations: for each `i`,
/// `states[i]` steps to `states[i + 1]`, serving `sizes[i]` bytes at
/// `addrs[i]`.
pub open spec fn byte_alloc_run(
    states: Seq<RegionState>,
    sizes: Seq<usize>,
    addrs: Seq<usize>,
) -> bool {
    &&& states.len() == sizes.len() + 1
    &&& addrs.len() == sizes.len()
    &&& forall|i: int|
        0 <= i < sizes.len() ==> #[trigger] byte_alloc_ok(
            states[i],
            sizes[i],
            states[i + 1],
            addrs[i],
        )
}

/// Along a run of byte allocations the bounds and the page cursor never move,
/// and the byte cursor never moves down.
pub proof fn lemma_byte_alloc_run_cursor(
    states: Seq<RegionState>,
    sizes: Seq<usize>,
    addrs: Seq<usize>,
    i: int,
)
    requires
        byte_alloc_run(states, sizes, addrs),
        0 <= i < states.len(),
    ensures
        states[i].start == states[0].start,
        states[i].p_pos == states[0].p_pos,
        states[0].b_pos <= states[i].b_pos,
        i > 0 ==> states[i].b_pos <= states[0].p_pos,
    decreases i,
{
    if i > 0 {
        let k = i - 1;
        lemma_byte_alloc_run_cursor(states, sizes, addrs, k);
        assert(byte_alloc_ok(states[k], sizes[k], states[k + 1], addrs[k]));
        assert(states[i] == states[k + 1]);
    }
}

/// The byte cursor is monotone along a run of byte allocations.
pub proof fn lemma_byte_alloc_run_monotone(
    states: Seq<RegionState>,
    sizes: Seq<usize>,
    addrs: Seq<usize>,
    i: int,
    j: int,
)
    requires
        byte_alloc_run(states, sizes, addrs),
        0 <= i <= j < states.len(),
    ensures
        states[i].b_pos <= states[j].b_pos,
    decreases j - i,
{
    if i < j {
        let k = j - 1;
        lemma_byte_alloc_run_monotone(states, sizes, addrs, i, k);
        assert(byte_alloc_ok(states[k], sizes[k], states[k + 1], addrs[k]));
        assert(states[j] == states[k + 1]);
    }
}

/// Every address served by a run of byte allocations lies in the free middle
/// of the initial state: at or above `start`, and `sizes[i]` bytes below the
/// page cursor.
pub proof fn lemma_byte_alloc_run_in_region(
    states: Seq<RegionState>,
    sizes: Seq<usize>,
    addrs: Seq<usize>,
    i: int,
)
    requires
        byte_alloc_run(states, sizes, addrs),
        states[0].start <= states[0].b_pos,
        0 <= i < sizes.len(),
    ensures
        states[0].start <= addrs[i],
        addrs[i] + sizes[i] <= states[0].p_pos,
{
    lemma_byte_alloc_run_cursor(states, sizes, addrs, i);
    lemma_byte_alloc_run_cursor(states, sizes, addrs, i + 1);
    assert(byte_alloc_ok(states[i], sizes[i], states[i + 1], addrs[i]));
}

/// Distinct allocations of one run never overlap: an earlier allocation ends
/// at or before a later one begins.
pub proof fn lemma_byte_alloc_run_disjoint(
    states: Seq<RegionState>,
    sizes: Seq<usize>,
    addrs: Seq<usize>,
    i: int,
    j: int,
)
    requires
        byte_alloc_run(states, sizes, addrs),
        0 <= i < j < sizes.len(),
    ensures
        addrs[i] + sizes[i] <= addrs[j],
{
    assert(byte_alloc_ok(states[i], sizes[i], states[i + 1], addrs[i]));
    assert(byte_alloc_ok(states[j], sizes[j], states[j + 1], addrs[j]));
    lemma_byte_alloc_run_monotone(states, sizes, addrs, i + 1, j);
}

/// Allocating and then immediately freeing the sole outstanding allocation is
/// a round trip: the deallocation resets the byte cursor to the served
/// address, so the state — `used_bytes` included — returns to what it was.
pub proof fn lemma_alloc_dealloc_round_trip(
    s0: RegionState,
    size: usize,
    s1: RegionState,
    addr: usize,
    s2: RegionState,
)
    requires
        s0.count == 0,
        byte_alloc_ok(s0, size, s1, addr),
        byte_dealloc_ok(s1, addr, s2),
    ensures
        s2 == s0,
        s2.count == 0,
        s2.used_bytes() == s0.used_bytes(),
{
}

/// Rounding down to a multiple of a positive `align` never moves a value
/// upward.
pub proof fn lemma_align_down_le(pos: int, align: int)
    requires
        0 < align,
    ensures
        align_down(pos, align) <= pos,
{
    vstd::arithmetic::div_mod::lemma_mod_bound(pos, align);
}

/// If `start` is itself a multiple of `align`, rounding a boundary at or
/// above `start` down to `align` keeps it at or above `start`.
pub proof fn lemma_align_down_from_aligned_start(start: int, pos: int, align: int)
    requires
        0 < align,
        start % align == 0,
        start <= pos,
    ensures
        start <= align_down(pos, align),
{
    let q = pos / align;
    let r = pos % align;
    let t = start / align;
    vstd::arithmetic::div_mod::lemma_fundamental_div_mod(pos, align);
    vstd::arithmetic::div_mod::lemma_fundamental_div_mod(start, align);
    vstd::arithmetic::div_mod::lemma_mod_bound(pos, align);
    assert(start <= align * q) by (nonlinear_arith)
        requires
            align * q + r >= start,
            start == align * t,
            0 <= r < align,
            0 < align,
    ;
}

/// Page allocation reports `NoMemory` exactly when the unaligned candidate
/// boundary `p_pos - num_pages * page_size` falls below `start`.
///
/// The one family of inputs on which this does not hold is excluded by the
/// last premise: an in-range candidate whose rounding down to `align_pow2`
/// crosses `start`.  There the allocator still refuses the request, since
/// granting it would place the page cursor outside the managed range.  By
/// [`lemma_align_down_from_aligned_start`], the premise holds whenever
/// `start` is itself a multiple of `align_pow2`.
pub proof fn lemma_page_alloc_failure_iff(
    pre: RegionState,
    page_size: int,
    num_pages: usize,
    align_pow2: usize,
)
    requires
        0 < page_size,
        is_power_of_two(align_pow2 as int),
        pre.p_pos - num_pages * page_size >= pre.start ==> align_down(
            pre.p_pos - num_pages * page_size,
            align_pow2 as int,
        ) >= pre.start,
    ensures
        align_down(pre.p_pos - num_pages * page_size, align_pow2 as int) < pre.start
            <==> pre.p_pos - num_pages * page_size < pre.start,
{
    lemma_pow2_positive(align_pow2 as int);
    lemma_align_down_le(pre.p_pos - num_pages * page_size, align_pow2 as int);
}

} // verus!
