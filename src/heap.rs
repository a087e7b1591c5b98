use vstd::arithmetic::power2::is_pow2;
use vstd::prelude::*;

verus! {

/// A region handed out by the allocator: `[base, base + size)`, requested with
/// alignment `align`.
#[derive(Clone, Copy, Debug, PartialEq, Eq, Structural)]
pub struct Region {
    pub base: usize,
    pub size: usize,
    pub align: usize,
}

impl Region {
    /// One past the last byte of the region.
    pub open spec fn end(self) -> int {
        self.base + self.size
    }
}

/// `addr` rounded up to the next multiple of `align`.
pub open spec fn align_up(addr: int, align: int) -> int {
    if addr % align == 0 {
        addr
    } else {
        addr + (align - addr % align)
    }
}

/// Rounding up gives a multiple of `align`, less than `align` above `addr`.
proof fn lemma_align_up(addr: int, align: int)
    requires
        addr >= 0,
        align > 0,
    ensures
        align_up(addr, align) % align == 0,
        addr <= align_up(addr, align) < addr + align,
{
    let q = addr / align;
    let r = addr % align;
    vstd::arithmetic::div_mod::lemma_fundamental_div_mod(addr, align);
    vstd::arithmetic::div_mod::lemma_mod_bound(addr, align);
    if r != 0 {
        assert(addr + (align - r) == (q + 1) * align) by (nonlinear_arith)
            requires
                addr == align * q + r,
        ;
        vstd::arithmetic::div_mod::lemma_mod_multiples_basic(q + 1, align);
    }
}

/// Whether a request of `size` bytes aligned to `align` fits below `limit` when the
/// first free address is `next`.
pub open spec fn fits(next: int, limit: int, size: int, align: int) -> bool {
    align_up(next, align) + size <= limit
}

/// What a request of `size` bytes aligned to `align` does to the arena `pre`,
/// giving `post` and the result `r`: a fitting request is carved at the next
/// aligned address; one that does not fit is refused and changes nothing.
pub open spec fn carved(pre: HostMemory, post: HostMemory, size: usize, align: usize, r: Option<usize>) -> bool {
    &&& post.wf()
    &&& post.limit() == pre.limit()
    &&& r matches Some(b) ==> {
        &&& 0 < b
        &&& b % align == 0
        &&& b + size <= post.limit() <= usize::MAX
        &&& forall|i: int| 0 <= i < pre.issued().len() ==> (#[trigger] pre.issued()[i]).end() <= b
    }
    &&& fits(pre.next(), pre.limit(), size as int, align as int) ==> {
        &&& r == Some(align_up(pre.next(), align as int) as usize)
        &&& post.next() == align_up(pre.next(), align as int) + size
        &&& post.issued() == pre.issued().push(Region { base: r.unwrap(), size, align })
    }
    &&& !fits(pre.next(), pre.limit(), size as int, align as int) ==> {
        &&& r is None
        &&& post == pre
    }
}

/// Two regions share no byte.
pub open spec fn disjoint(a: Region, b: Region) -> bool {
    a.end() <= b.base || b.end() <= a.base
}

/// The host's memory arena: memory from `next` up to `limit`, carved off upward
/// and never given back.
pub struct HostMemory {
    next: usize,
    limit: usize,
    issued: Ghost<Seq<Region>>,
}

impl HostMemory {
    /// The first address not yet handed out.
    pub closed spec fn next(&self) -> int {
        self.next as int
    }

    /// The end of the arena.
    pub closed spec fn limit(&self) -> int {
        self.limit as int
    }

    /// Every region handed out so far, in the order of the requests.
    pub closed spec fn issued(&self) -> Seq<Region> {
        self.issued@
    }

    /// The arena's invariant: the free address is never null; regions were
    /// carved in increasing order, each aligned as requested, all of them below
    /// the free address.
    pub closed spec fn wf(&self) -> bool {
        &&& 0 < self.next <= self.limit
        &&& forall|i: int|
            0 <= i < self.issued@.len() ==> {
                &&& (#[trigger] self.issued@[i]).align > 0
                &&& self.issued@[i].base % self.issued@[i].align == 0
                &&& self.issued@[i].end() <= self.next
            }
        &&& forall|i: int, j: int|
            0 <= i < j < self.issued@.len() ==> (#[trigger] self.issued@[i]).end()
                <= (#[trigger] self.issued@[j]).base
    }

    /// An arena over `[base, limit)` from which nothing was taken yet. Address 0
    /// is never part of an arena: it stands for no memory.
    pub fn new(base: usize, limit: usize) -> (r: HostMemory)
        requires
            0 < base <= limit,
        ensures
            r.wf(),
            r.next() == base,
            r.limit() == limit,
            r.issued() == Seq::<Region>::empty(),
    {
        HostMemory { next: base, limit, issued: Ghost(Seq::empty()) }
    }

    /// Carves a region of `size` bytes aligned to `align` off the arena, or
    /// returns `None` when the arena is exhausted.
    pub fn sys_alloc_aligned(&mut self, size: usize, align: usize) -> (r: Option<usize>)
        requires
            old(self).wf(),
            is_pow2(align as int),
        ensures
            carved(*old(self), *final(self), size, align, r),
    {
        proof {
            reveal(is_pow2);
        }
        let rem: usize = self.next % align;
        let pad: usize = if rem == 0 { 0 } else { align - rem };
        if pad > self.limit - self.next {
            return None;
        }
        let base: usize = self.next + pad;
        if size > self.limit - base {
            return None;
        }
        proof {
            let n = self.next as int;
            let a = align as int;
            assert(base as int == align_up(n, a));
            lemma_align_up(n, a);
            assert(forall|i: int| 0 <= i < self.issued@.len() ==> (#[trigger] self.issued@[i]).end() <= base);
        }
        let ghost region = Region { base, size, align };
        self.issued = Ghost(self.issued@.push(region));
        self.next = base + size;
        proof {
            assert(self.issued@.last() == region);
        }
        Some(base)
    }
}

/// The global allocator. Every request goes to the host arena as it is; the
/// allocator itself records nothing and gives nothing back. It checks nothing
/// against the stack budget: the arena's end is the only bound, so boot code
/// must place that end below the stack.
pub struct Heap {
    host: HostMemory,
}

impl Heap {
    /// The arena behind the allocator.
    pub closed spec fn host(&self) -> HostMemory {
        self.host
    }

    pub open spec fn wf(&self) -> bool {
        self.host().wf()
    }

    /// An allocator over a fresh arena `[base, limit)`, which must not hold
    /// address 0.
    pub fn new(base: usize, limit: usize) -> (r: Heap)
        requires
            0 < base <= limit,
        ensures
            r.wf(),
            r.host().next() == base,
            r.host().limit() == limit,
            r.host().issued() == Seq::<Region>::empty(),
    {
        Heap { host: HostMemory::new(base, limit) }
    }

    /// Allocates `size` bytes aligned to `align`. `None` means that the arena is
    /// exhausted, which the caller treats as a fatal fault.
    pub fn allocate(&mut self, size: usize, align: usize) -> (r: Option<usize>)
        requires
            old(self).wf(),
            is_pow2(align as int),
        ensures
            final(self).wf(),
            carved(old(self).host(), final(self).host(), size, align, r),
    {
        self.host.sys_alloc_aligned(size, align)
    }

    /// Releases a region. Every address is accepted and nothing changes: memory
    /// lives until the process ends.
    pub fn release(&self, _ptr: usize, _size: usize, _align: usize) {
    }
}

/// What the arena's invariant says of its layout: the free address lies between
/// 1 and the end, and every region handed out is aligned as requested and ends
/// at or below the free address.
pub proof fn lemma_arena_layout(h: HostMemory)
    requires
        h.wf(),
    ensures
        0 < h.next() <= h.limit() <= usize::MAX,
        forall|i: int|
            0 <= i < h.issued().len() ==> {
                &&& (#[trigger] h.issued()[i]).align > 0
                &&& h.issued()[i].base % h.issued()[i].align == 0
                &&& h.issued()[i].end() <= h.next()
            },
{
}

/// Every region the arena has handed out is aligned as requested, and no two of
/// them overlap, whatever the sequence of requests was.
pub proof fn lemma_issued_aligned_and_disjoint(h: HostMemory, i: int, j: int)
    requires
        h.wf(),
        0 <= i < h.issued().len(),
        0 <= j < h.issued().len(),
        i != j,
    ensures
        h.issued()[i].base % h.issued()[i].align == 0,
        disjoint(h.issued()[i], h.issued()[j]),
{
    assert(h.issued()[i].align > 0);
    if i < j {
        assert(h.issued()[i].end() <= h.issued()[j].base);
    } else {
        assert(h.issued()[j].end() <= h.issued()[i].base);
    }
}

/// A request that succeeds gets a region aligned as asked and apart from every
/// region handed out before, released or not: releasing leaves nothing to be
/// handed out again.
pub proof fn lemma_new_region_apart(pre: HostMemory, post: HostMemory, size: usize, align: usize, r: Option<usize>, i: int)
    requires
        pre.wf(),
        is_pow2(align as int),
        carved(pre, post, size, align, r),
        r is Some,
        0 <= i < pre.issued().len(),
    ensures
        r.unwrap() % align == 0,
        disjoint(pre.issued()[i], Region { base: r.unwrap(), size, align }),
{
    reveal(is_pow2);
    lemma_align_up(pre.next(), align as int);
    let n = post.issued().len() - 1;
    assert(post.issued()[n] == Region { base: r.unwrap(), size, align });
    assert(post.issued()[i] == pre.issued()[i]);
    lemma_issued_aligned_and_disjoint(post, i, n);
}

/// What a request returns depends on the arena's free address and end alone,
/// not on anything released before: since `release` leaves the heap as it is,
/// the same request gives the same region with or without releases before it.
pub proof fn lemma_outcome_determined(
    pre1: HostMemory,
    pre2: HostMemory,
    post1: HostMemory,
    post2: HostMemory,
    size: usize,
    align: usize,
    r1: Option<usize>,
    r2: Option<usize>,
)
    requires
        pre1.next() == pre2.next(),
        pre1.limit() == pre2.limit(),
        carved(pre1, post1, size, align, r1),
        carved(pre2, post2, size, align, r2),
    ensures
        r1 == r2,
        post1.next() == post2.next(),
{
}

} // verus!
