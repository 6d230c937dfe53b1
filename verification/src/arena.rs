//! Fixed-size bump arena.
//!
//! A single pre-sized byte region serves every dynamic allocation request
//! through a monotonically advancing cursor.  Releasing an allocation only
//! decrements the count of live allocations; the bytes themselves are not
//! reclaimed until the count returns to zero, at which point the cursor
//! resets to the region base and the whole region is reusable.  This is a
//! deliberate design limit of the allocator, not an oversight: the device it
//! serves has no general-purpose reclamation and its callers depend on the
//! exact reset-at-zero behaviour.

use vstd::arithmetic::div_mod::lemma_fundamental_div_mod;
use vstd::arithmetic::div_mod::lemma_mod_division_less_than_divisor;
use vstd::arithmetic::div_mod::lemma_mod_multiples_basic;
use vstd::arithmetic::div_mod::lemma_div_pos_is_pos;
use vstd::prelude::*;

verus! {

/// Size in bytes of the arena region.
pub const HEAP_SIZE: usize = 64 * 1024;

/// Mathematical state of an arena: the region size, the cursor, the number
/// of live allocations, and every range granted since the last reset.
pub struct ArenaView {
    /// Length in bytes of the backing region.
    pub region: nat,
    /// Offset at which the next grant is attempted.
    pub cursor: nat,
    /// Number of allocations granted and not yet released.
    pub live: nat,
    /// Each `(offset, size)` granted since the cursor was last reset.
    pub granted: Seq<(nat, nat)>,
}

/// Two half-open ranges `[a.0, a.0 + a.1)` and `[b.0, b.0 + b.1)` do not
/// overlap.
pub open spec fn ranges_disjoint(a: (nat, nat), b: (nat, nat)) -> bool {
    a.0 + a.1 <= b.0 || b.0 + b.1 <= a.0
}

/// The smallest multiple of `align` that is at least `addr`.
pub open spec fn spec_align_up(addr: nat, align: nat) -> nat
    recommends
        align >= 1,
{
    if addr % align == 0 {
        addr
    } else {
        ((addr - addr % align) + align) as nat
    }
}

/// Offset granted for a request of `size` bytes aligned to `align` when the
/// cursor stands at `cursor`, or `None` when the region cannot hold it.
pub open spec fn spec_grant(cursor: nat, size: nat, align: nat) -> Option<nat>
    recommends
        align >= 1,
{
    if align > HEAP_SIZE {
        None
    } else {
        let start = spec_align_up(cursor, align);
        if start + size > HEAP_SIZE {
            None
        } else {
            Some(start)
        }
    }
}

/// State transition of a grant request: the state after the request and the
/// granted offset, if any.  A failed request leaves the state unchanged.
pub open spec fn spec_allocate(v: ArenaView, size: nat, align: nat) -> (ArenaView, Option<nat>)
    recommends
        align >= 1,
{
    match spec_grant(v.cursor, size, align) {
        Some(start) => (
            (ArenaView {
                cursor: start + size,
                live: v.live + 1,
                granted: v.granted.push((start, size)),
                ..v
            }),
            Some(start),
        ),
        None => (v, None),
    }
}

/// State transition of a release: the live count drops by one, and when it
/// reaches zero the cursor resets to the region base.
pub open spec fn spec_release(v: ArenaView) -> ArenaView
    recommends
        v.live >= 1,
{
    if v.live == 1 {
        ArenaView { cursor: 0, live: 0, granted: Seq::empty(), ..v }
    } else {
        ArenaView { live: (v.live - 1) as nat, ..v }
    }
}

/// Invariant of a well-formed arena: the region has the fixed size, the
/// cursor stays inside it, and every granted range lies below the cursor.
pub open spec fn arena_inv(v: ArenaView) -> bool {
    &&& v.region == HEAP_SIZE
    &&& v.cursor <= HEAP_SIZE
    &&& forall|i: int|
        0 <= i < v.granted.len() ==> (#[trigger] v.granted[i]).0 + v.granted[i].1 <= v.cursor
}

/// Fixed-size bump allocator: a byte region, a cursor, and a count of live
/// allocations.
pub struct BumpAllocator {
    next: usize,
    allocations: usize,
    heap: Vec<u8>,
    granted: Ghost<Seq<(nat, nat)>>,
}

impl View for BumpAllocator {
    type V = ArenaView;

    closed spec fn view(&self) -> ArenaView {
        ArenaView {
            region: self.heap@.len(),
            cursor: self.next as nat,
            live: self.allocations as nat,
            granted: self.granted@,
        }
    }
}

impl BumpAllocator {
    /// Whether this arena satisfies [`arena_inv`].
    pub open spec fn wf(&self) -> bool {
        arena_inv(self@)
    }

    /// A fresh arena: full region, cursor at the base, nothing live.
    pub fn new() -> (a: BumpAllocator)
        ensures
            a.wf(),
            a@ == (ArenaView {
                region: HEAP_SIZE as nat,
                cursor: 0,
                live: 0,
                granted: Seq::<(nat, nat)>::empty(),
            }),
    {
        BumpAllocator {
            next: 0,
            allocations: 0,
            heap: vec![0u8; HEAP_SIZE],
            granted: Ghost(Seq::empty()),
        }
    }

    /// Grants `size` bytes aligned to `align`, returning the offset of the
    /// granted range into the region, or `None` when the region cannot hold
    /// the request; a failed request leaves the arena unchanged.  A granted
    /// range never overlaps any range granted since the last reset, and in
    /// particular no range that is still live.
    pub fn allocate(&mut self, size: usize, align: usize) -> (r: Option<usize>)
        requires
            old(self).wf(),
            align >= 1,
            old(self)@.live < usize::MAX,
        ensures
            final(self).wf(),
            final(self)@ == spec_allocate(old(self)@, size as nat, align as nat).0,
            (r is Some) == (spec_allocate(old(self)@, size as nat, align as nat).1 is Some),
            r matches Some(off) ==> {
                &&& Some(off as nat) == spec_allocate(old(self)@, size as nat, align as nat).1
                &&& off as nat == spec_align_up(old(self)@.cursor, align as nat)
                &&& off + size <= HEAP_SIZE
                &&& off >= old(self)@.cursor
                &&& forall|i: int|
                    0 <= i < old(self)@.granted.len() ==> ranges_disjoint(
                        (off as nat, size as nat),
                        #[trigger] old(self)@.granted[i],
                    )
            },
    {
        proof {
            lemma_align_up(self.next as nat, align as nat);
        }
        if align > HEAP_SIZE {
            return None;
        }
        let start = align_up(self.next, align);
        match start.checked_add(size) {
            Some(end) => {
                if end <= HEAP_SIZE {
                    self.next = end;
                    self.allocations = self.allocations + 1;
                    self.granted = Ghost(self.granted@.push((start as nat, size as nat)));
                    Some(start)
                } else {
                    None
                }
            },
            None => None,
        }
    }

    /// Releases one live allocation.  The bytes of the released range are
    /// not reclaimed — the address only documents which allocation the
    /// caller gives up — but when the last live allocation is released the
    /// cursor resets to the region base.
    pub fn release(&mut self, _addr: usize)
        requires
            old(self).wf(),
            old(self)@.live >= 1,
        ensures
            final(self).wf(),
            final(self)@ == spec_release(old(self)@),
    {
        self.allocations = self.allocations - 1;
        if self.allocations == 0 {
            self.next = 0;
            self.granted = Ghost(Seq::empty());
        }
        proof {
            assert forall|i: int| 0 <= i < self@.granted.len() implies (#[trigger] self@.granted[
                i
            ]).0 + self@.granted[i].1 <= self@.cursor by {
                assert(self@.granted[i] == old(self)@.granted[i]);
            }
        }
    }

    /// Number of allocations granted and not yet released.
    pub fn live_count(&self) -> (n: usize)
        ensures
            n == self@.live,
    {
        self.allocations
    }

    /// Offset at which the next grant will be attempted.
    pub fn cursor(&self) -> (c: usize)
        ensures
            c == self@.cursor,
    {
        self.next
    }
}

/// Rounds `addr` up to the next multiple of `align`.
pub fn align_up(addr: usize, align: usize) -> (r: usize)
    requires
        align >= 1,
        addr + align <= usize::MAX,
    ensures
        r == spec_align_up(addr as nat, align as nat),
        addr <= r < addr + align,
        r as nat % align as nat == 0,
{
    proof {
        lemma_align_up(addr as nat, align as nat);
    }
    let remainder = addr % align;
    if remainder == 0 {
        addr
    } else {
        addr - remainder + align
    }
}

/// The rounded-up offset lands on a multiple of `align`, moves forward, and
/// overshoots by less than one alignment step.
pub proof fn lemma_align_up(addr: nat, align: nat)
    requires
        align >= 1,
    ensures
        addr % align <= addr,
        addr <= spec_align_up(addr, align) < addr + align,
        spec_align_up(addr, align) % align == 0,
{
    let q = addr as int / align as int;
    let r = addr as int % align as int;
    lemma_fundamental_div_mod(addr as int, align as int);
    lemma_mod_division_less_than_divisor(addr as int, align as int);
    lemma_div_pos_is_pos(addr as int, align as int);
    assert(align as int * q >= 0) by (nonlinear_arith)
        requires
            align >= 1,
            q >= 0,
    ;
    if r != 0 {
        assert(spec_align_up(addr, align) == align as int * (q + 1)) by {
            assert(addr - r == align as int * q);
            assert(align as int * q + align == align as int * (q + 1)) by (nonlinear_arith);
        }
        lemma_mod_multiples_basic(q + 1, align as int);
        assert((align as int * (q + 1)) % align as int == 0) by {
            assert(align as int * (q + 1) == (q + 1) * align as int) by (nonlinear_arith);
        }
    }
}

/// After the live count returns to zero, the next grant that fits lands at
/// the region base, whatever the cursor stood at before.
pub proof fn lemma_reset_grants_base(v: ArenaView, size: nat, align: nat)
    requires
        v.live == 1,
        1 <= align <= HEAP_SIZE,
        size <= HEAP_SIZE,
    ensures
        spec_allocate(spec_release(v), size, align).1 == Some(0nat),
{
    lemma_align_up(0, align);
}

/// In any sequence of grants and releases that keeps the arena invariant,
/// a granted range is disjoint from every range granted since the last
/// reset — and so from every range still live when it was granted.
pub proof fn lemma_grant_disjoint_from_live(v: ArenaView, size: nat, align: nat, off: nat)
    requires
        arena_inv(v),
        align >= 1,
        spec_allocate(v, size, align).1 == Some(off),
    ensures
        forall|i: int|
            0 <= i < v.granted.len() ==> ranges_disjoint((off, size), #[trigger] v.granted[i]),
{
    lemma_align_up(v.cursor, align);
}

/// A request the region cannot hold — the cursor plus the requested size
/// overruns the region — is refused and leaves the arena exactly as it was.
pub proof fn lemma_exhausted_request_unchanged(v: ArenaView, size: nat, align: nat)
    requires
        align >= 1,
        v.cursor + size > HEAP_SIZE,
    ensures
        spec_allocate(v, size, align) == (v, Option::<nat>::None),
{
    lemma_align_up(v.cursor, align);
}

} // verus!
