//! A dual-direction bump allocator for the early boot phase of a kernel.
//!
//! The allocator owns one contiguous address range `[start, end)` and serves
//! two allocation disciplines from opposite ends of it: variable-size byte
//! allocations bump a cursor forward from the low end, and fixed-size page
//! allocations bump a cursor backward from the high end.
//!
//! ```text
//! [ bytes-used | free middle | pages-used ]
//! |            | -->     <-- |            |
//! start       b_pos         p_pos        end
//! ```
//!
//! The byte zone is reclaimed all at once, by reference counting: each byte
//! allocation increments a live count, each deallocation decrements it, and
//! when the count returns to zero the byte cursor is reset to the address of
//! that last deallocation.  The page zone is permanent: pages are never
//! returned for the lifetime of the allocator.

use vstd::prelude::*;

pub mod laws;

verus! {

/// The recoverable failures of the allocator.
///
/// An out-of-range deallocation address is deliberately *not* represented
/// here: it is a caller bug, and the verified operations exclude it by
/// precondition instead of reporting it.
#[derive(Clone, Copy, Debug, PartialEq, Eq, Structural)]
pub enum AllocError {
    /// The requested bytes or pages do not fit between the two cursors.
    NoMemory,
    /// The requested operation is not provided by this allocator.
    Unsupported,
}

/// The mathematical model of the allocator: its five scalar fields, as
/// unbounded integers.
pub ghost struct RegionState {
    /// Lowest address of the managed range; fixed after initialization.
    pub start: int,
    /// Exclusive upper bound of the managed range; fixed after initialization.
    pub end: int,
    /// Next free address for a byte allocation.
    pub b_pos: int,
    /// Next free (downward) boundary for a page allocation.
    pub p_pos: int,
    /// Number of currently outstanding byte allocations.
    pub count: int,
}

/// `pos` rounded down to the nearest multiple of `align`.
pub open spec fn align_down(pos: int, align: int) -> int {
    pos - pos % align
}

/// Whether `n` is a power of two.
pub open spec fn is_power_of_two(n: int) -> bool
    decreases n,
{
    if n <= 0 {
        false
    } else if n == 1 {
        true
    } else {
        n % 2 == 0 && is_power_of_two(n / 2)
    }
}

/// The successful byte-allocation step: from `pre`, a request of `size` bytes
/// fits below the page cursor, is served at `addr == pre.b_pos`, and moves the
/// byte cursor past it while raising the live count.
pub open spec fn byte_alloc_ok(pre: RegionState, size: usize, post: RegionState, addr: usize)
    -> bool {
    &&& pre.b_pos + size <= pre.p_pos
    &&& addr == pre.b_pos
    &&& post == (RegionState { b_pos: pre.b_pos + size, count: pre.count + 1, ..pre })
}

/// The byte-deallocation step: `pos` lies in the managed range, the live count
/// drops by one, and when it reaches zero the byte cursor is reset to `pos`.
pub open spec fn byte_dealloc_ok(pre: RegionState, pos: usize, post: RegionState) -> bool {
    &&& pre.count > 0
    &&& pre.start <= pos < pre.end
    &&& post == (RegionState {
        b_pos: if pre.count == 1 { pos as int } else { pre.b_pos },
        count: pre.count - 1,
        ..pre
    })
}

/// The successful page-allocation step: the page cursor moves down by
/// `num_pages` pages and is then aligned down to `align_pow2`; the aligned
/// boundary must not fall below `pre.start`.
pub open spec fn page_alloc_ok(
    pre: RegionState,
    page_size: int,
    num_pages: usize,
    align_pow2: usize,
    post: RegionState,
    addr: usize,
) -> bool {
    let target = align_down(pre.p_pos - num_pages * page_size, align_pow2 as int);
    &&& pre.start <= target
    &&& addr == target
    &&& post == (RegionState { p_pos: target, ..pre })
}

impl RegionState {
    /// Both cursors lie within the managed range.
    ///
    /// The byte cursor does not always stay below the page cursor: aligning a
    /// page allocation down may place `p_pos` inside the byte zone, and the
    /// reset of `b_pos` on the last deallocation may land above `p_pos`.  The
    /// operations' contracts say exactly when the cursors move; this predicate
    /// only keeps every field inside `[start, end]`.
    pub open spec fn wf(self) -> bool {
        &&& self.start <= self.b_pos <= self.end
        &&& self.start <= self.p_pos <= self.end
        &&& 0 <= self.count
    }

    /// Size of the whole managed range.
    pub open spec fn total_bytes(self) -> int {
        self.end - self.start
    }

    /// Size of the byte zone.
    pub open spec fn used_bytes(self) -> int {
        self.b_pos - self.start
    }

    /// Bytes between the byte cursor and the end of the range.
    pub open spec fn available_bytes(self) -> int {
        self.end - self.b_pos
    }

    /// Pages the whole range could hold.
    pub open spec fn total_pages(self, page_size: int) -> int {
        (self.end - self.start) / page_size
    }

    /// Pages consumed from the top of the range.
    pub open spec fn used_pages(self, page_size: int) -> int {
        (self.end - self.p_pos) / page_size
    }

    /// Pages still free below the page cursor.
    pub open spec fn available_pages(self, page_size: int) -> int {
        (self.p_pos - self.start) / page_size
    }
}

/// Early memory allocator, to be used before the permanent byte and page
/// allocators can work.
///
/// `PAGE_SIZE` is the fixed size of one page, in bytes; it must be positive.
pub struct EarlyAllocator<const PAGE_SIZE: usize> {
    /// Start address of the memory range.
    start: usize,
    /// End address of the memory range.
    end: usize,
    /// Current position of the bytes area.
    b_pos: usize,
    /// Current position of the pages area.
    p_pos: usize,
    /// Number of outstanding byte allocations.
    count: usize,
}

impl<const PAGE_SIZE: usize> View for EarlyAllocator<PAGE_SIZE> {
    type V = RegionState;

    closed spec fn view(&self) -> RegionState {
        RegionState {
            start: self.start as int,
            end: self.end as int,
            b_pos: self.b_pos as int,
            p_pos: self.p_pos as int,
            count: self.count as int,
        }
    }
}

impl<const PAGE_SIZE: usize> EarlyAllocator<PAGE_SIZE> {
    /// Well-formedness of the allocator: see [`RegionState::wf`].
    pub open spec fn wf(self) -> bool {
        self@.wf()
    }

    /// Creates an allocator that manages the empty range `[0, 0)`.
    pub fn new() -> (r: Self)
        ensures
            r@ == (RegionState { start: 0, end: 0, b_pos: 0, p_pos: 0, count: 0 }),
            r.wf(),
    {
        Self { start: 0, end: 0, b_pos: 0, p_pos: 0, count: 0 }
    }

    /// Initializes the allocator with the range `[start, start + size)`.
    ///
    /// Both cursors start at the zone boundaries and no allocation is
    /// outstanding.  Re-initialization silently discards prior state; callers
    /// are responsible for not doing so while allocations are outstanding.
    pub fn init(&mut self, start: usize, size: usize)
        requires
            start + size <= usize::MAX,
        ensures
            final(self)@ == (RegionState {
                start: start as int,
                end: start + size,
                b_pos: start as int,
                p_pos: start + size,
                count: 0,
            }),
            final(self).wf(),
    {
        self.start = start;
        self.end = start + size;
        self.b_pos = start;
        self.p_pos = start + size;
        self.count = 0;
    }

    /// Growing the managed region at runtime is not supported: the call
    /// always reports [`AllocError::Unsupported`] and leaves the allocator
    /// unchanged.  Callers that need a larger region must switch to a
    /// different allocator.
    pub fn add_memory(&mut self, start: usize, size: usize) -> (r: Result<(), AllocError>)
        ensures
            *final(self) == *old(self),
            r == Err::<(), AllocError>(AllocError::Unsupported),
    {
        let _ = start;
        let _ = size;
        Err(AllocError::Unsupported)
    }

    /// Allocates `size` bytes at the byte cursor.
    ///
    /// On success the returned address is exactly the old byte cursor: the
    /// cursor is *not* rounded up to `align` first, so the caller gets
    /// whatever alignment the cursor happens to have.  The request fails with
    /// [`AllocError::NoMemory`] exactly when `size` bytes starting at the
    /// byte cursor would cross the page cursor.
    pub fn alloc_bytes(&mut self, size: usize, align: usize) -> (r: Result<usize, AllocError>)
        requires
            old(self).wf(),
            old(self)@.count < usize::MAX,
        ensures
            final(self).wf(),
            match r {
                Ok(addr) => byte_alloc_ok(old(self)@, size, final(self)@, addr),
                Err(e) => e == AllocError::NoMemory && *final(self) == *old(self),
            },
            r is Err <==> old(self)@.b_pos + size > old(self)@.p_pos,
    {
        let _ = align;
        if self.p_pos >= self.b_pos && size <= self.p_pos - self.b_pos {
            let addr = self.b_pos;
            self.b_pos = self.b_pos + size;
            self.count = self.count + 1;
            Ok(addr)
        } else {
            Err(AllocError::NoMemory)
        }
    }

    /// Releases the byte allocation at `pos`.
    ///
    /// Only the live count is maintained while other allocations remain
    /// outstanding; when the count reaches zero the whole byte zone is
    /// reclaimed at once, by resetting the byte cursor to `pos`.  An address
    /// outside `[start, end)` is a caller bug and is excluded by
    /// precondition: an unverified caller must check the range first and
    /// treat a violation as fatal.
    pub fn dealloc(&mut self, pos: usize, size: usize)
        requires
            old(self).wf(),
            old(self)@.count > 0,
            old(self)@.start <= pos < old(self)@.end,
        ensures
            final(self).wf(),
            byte_dealloc_ok(old(self)@, pos, final(self)@),
    {
        let _ = size;
        self.count = self.count - 1;
        if self.count == 0 {
            self.b_pos = pos;
        }
    }

    /// Size of the whole managed range, in bytes.
    pub fn total_bytes(&self) -> (r: usize)
        requires
            self.wf(),
        ensures
            r == self@.total_bytes(),
    {
        self.end - self.start
    }

    /// Bytes consumed by the byte zone, from `start` up to the byte cursor.
    pub fn used_bytes(&self) -> (r: usize)
        requires
            self.wf(),
        ensures
            r == self@.used_bytes(),
    {
        self.b_pos - self.start
    }

    /// Bytes between the byte cursor and the end of the range.
    pub fn available_bytes(&self) -> (r: usize)
        requires
            self.wf(),
        ensures
            r == self@.available_bytes(),
    {
        self.end - self.b_pos
    }

    /// Whether `pos` lies inside the managed range `[start, end)`.
    ///
    /// Unverified callers use this to validate a deallocation address before
    /// the call, and to abort on a violation as the surrounding kernel
    /// demands.
    pub fn contains(&self, pos: usize) -> (r: bool)
        ensures
            r == (self@.start <= pos < self@.end),
    {
        self.start <= pos && pos < self.end
    }

    /// Number of currently outstanding byte allocations.
    pub fn allocation_count(&self) -> (r: usize)
        ensures
            r == self@.count,
    {
        self.count
    }

    /// Allocates `num_pages` pages of `PAGE_SIZE` bytes at the page cursor,
    /// aligned down to `align_pow2`.
    ///
    /// The candidate boundary is the page cursor moved down by the requested
    /// pages and then rounded down to the nearest multiple of `align_pow2`.
    /// Rounding down can silently absorb more than the requested pages into
    /// the page zone; callers must not assume exact sizing.  The request
    /// fails with [`AllocError::NoMemory`] exactly when the aligned boundary
    /// would fall below `start` (in particular, whenever the unaligned
    /// boundary would).
    pub fn alloc_pages(&mut self, num_pages: usize, align_pow2: usize) -> (r: Result<
        usize,
        AllocError,
    >)
        requires
            old(self).wf(),
            0 < PAGE_SIZE,
            is_power_of_two(align_pow2 as int),
        ensures
            final(self).wf(),
            match r {
                Ok(addr) => page_alloc_ok(
                    old(self)@,
                    PAGE_SIZE as int,
                    num_pages,
                    align_pow2,
                    final(self)@,
                    addr,
                ),
                Err(e) => e == AllocError::NoMemory && *final(self) == *old(self),
            },
            r is Err <==> align_down(
                old(self)@.p_pos - num_pages * PAGE_SIZE,
                align_pow2 as int,
            ) < old(self)@.start,
    {
        proof {
            lemma_pow2_positive(align_pow2 as int);
        }
        let avail = self.p_pos - self.start;
        let ghost q = avail as int / PAGE_SIZE as int;
        let ghost rem = avail as int % PAGE_SIZE as int;
        proof {
            vstd::arithmetic::div_mod::lemma_fundamental_div_mod(avail as int, PAGE_SIZE as int);
            vstd::arithmetic::div_mod::lemma_mod_bound(avail as int, PAGE_SIZE as int);
        }
        if num_pages > avail / PAGE_SIZE {
            proof {
                let cand = self@.p_pos - num_pages * (PAGE_SIZE as int);
                assert(avail < num_pages * PAGE_SIZE) by (nonlinear_arith)
                    requires
                        avail == PAGE_SIZE * q + rem,
                        0 <= rem < PAGE_SIZE,
                        q + 1 <= num_pages,
                        0 < PAGE_SIZE,
                ;
                assert(cand < self@.start);
                vstd::arithmetic::div_mod::lemma_mod_bound(cand, align_pow2 as int);
                assert(align_down(cand, align_pow2 as int) <= cand);
            }
            return Err(AllocError::NoMemory);
        }
        proof {
            assert(num_pages * PAGE_SIZE <= avail) by (nonlinear_arith)
                requires
                    avail == PAGE_SIZE * q + rem,
                    0 <= rem,
                    0 <= num_pages <= q,
                    0 < PAGE_SIZE,
            ;
        }
        let bytes = num_pages * PAGE_SIZE;
        let candidate = self.p_pos - bytes;
        proof {
            vstd::arithmetic::div_mod::lemma_mod_bound(candidate as int, align_pow2 as int);
            vstd::arithmetic::div_mod::lemma_mod_decreases(candidate as nat, align_pow2 as nat);
        }
        let aligned = candidate - candidate % align_pow2;
        if aligned < self.start {
            return Err(AllocError::NoMemory);
        }
        self.p_pos = aligned;
        Ok(aligned)
    }

    /// Accepts a page deallocation without reclaiming anything: page memory
    /// is never returned to the free pool for the lifetime of this
    /// allocator, so the call leaves the state untouched.  An address
    /// outside `[start, end)` is a caller bug and is excluded by
    /// precondition: an unverified caller must check the range first and
    /// treat a violation as fatal.
    pub fn dealloc_pages(&mut self, pos: usize, num_pages: usize)
        requires
            old(self).wf(),
            old(self)@.start <= pos < old(self)@.end,
        ensures
            *final(self) == *old(self),
    {
        let _ = pos;
        let _ = num_pages;
    }

    /// Pages the whole managed range could hold.
    pub fn total_pages(&self) -> (r: usize)
        requires
            self.wf(),
            0 < PAGE_SIZE,
        ensures
            r == self@.total_pages(PAGE_SIZE as int),
    {
        (self.end - self.start) / PAGE_SIZE
    }

    /// Pages consumed from the top of the managed range.
    pub fn used_pages(&self) -> (r: usize)
        requires
            self.wf(),
            0 < PAGE_SIZE,
        ensures
            r == self@.used_pages(PAGE_SIZE as int),
    {
        (self.end - self.p_pos) / PAGE_SIZE
    }

    /// Pages still free below the page cursor.
    pub fn available_pages(&self) -> (r: usize)
        requires
            self.wf(),
            0 < PAGE_SIZE,
        ensures
            r == self@.available_pages(PAGE_SIZE as int),
    {
        (self.p_pos - self.start) / PAGE_SIZE
    }
}

/// A power of two is positive.
pub proof fn lemma_pow2_positive(n: int)
    requires
        is_power_of_two(n),
    ensures
        0 < n,
{
}

} // verus!

