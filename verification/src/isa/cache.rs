//! Caches of results that are looked up by address.
use vstd::prelude::*;

verus! {

/// A result that can be cached by the address of what it was computed from.
pub trait Cacheable: Copy {
    /// Log2 of the least size in bytes of what is cached, e.g. 1 for instructions of 2 bytes.
    const ADDR_SHIFT_BITS: usize;

    /// The index of an address: the address without its low [`Self::ADDR_SHIFT_BITS`] bits.
    fn index_of(addr: u64) -> (r: usize)
        requires
            Self::ADDR_SHIFT_BITS < 32,
        ensures
            r == (addr as usize) >> Self::ADDR_SHIFT_BITS,
    {
        (addr as usize) >> Self::ADDR_SHIFT_BITS
    }
}

/// Where a cache puts things and how it finds them again.
pub trait CachePolicy: Sized {
    type T: Cacheable;

    /// The contents of the cache, as plain values.
    type Model;

    /// The invariant of the cache.
    spec fn wf(&self) -> bool;

    /// The contents of the cache.
    spec fn model(&self) -> Self::Model;

    /// What the parameters of the cache have to be.
    spec fn parameters_ok() -> bool;

    /// Whether contents have the shape that the parameters ask for.
    spec fn shape_ok(m: Self::Model) -> bool;

    /// The contents of an empty cache.
    spec fn empty() -> Self::Model;

    /// What a cache answers for an address.
    spec fn lookup(m: Self::Model, addr: u64) -> Option<Self::T>;

    /// Whether some slot pairs `addr` with `data`.
    spec fn holds(m: Self::Model, addr: u64, data: Self::T) -> bool;

    /// The contents after something is put at an address.
    spec fn after_put(m: Self::Model, addr: u64, data: Self::T) -> Self::Model;

    /// The contents after an address is invalidated.
    spec fn after_invalidate(m: Self::Model, addr: u64) -> Self::Model;

    /// A cache may forget, but it never makes anything up: it answers only with what was put at
    /// the address that is asked for.
    proof fn law_never_invents(m: Self::Model, addr: u64, data: Self::T, a: u64, v: Self::T)
        requires
            Self::parameters_ok(),
            Self::shape_ok(m),
        ensures
            Self::lookup(m, a) == Some(v) ==> Self::holds(m, a, v),
            Self::holds(Self::after_put(m, addr, data), a, v) ==> Self::holds(m, a, v) || (a
                == addr && v == data),
            Self::holds(Self::after_invalidate(m, addr), a, v) ==> Self::holds(m, a, v),
            !Self::holds(Self::empty(), a, v),
            Self::lookup(Self::empty(), a) is None,
    ;

    fn new() -> (r: Self)
        requires
            Self::parameters_ok(),
        ensures
            r.wf(),
            r.model() == Self::empty(),
    ;

    fn get(&mut self, addr: u64) -> (r: Option<Self::T>)
        requires
            old(self).wf(),
        ensures
            final(self).wf(),
            r == Self::lookup(old(self).model(), addr),
            final(self).model() == old(self).model(),
    ;

    fn put(&mut self, addr: u64, data: Self::T)
        requires
            old(self).wf(),
        ensures
            final(self).wf(),
            final(self).model() == Self::after_put(old(self).model(), addr, data),
    ;

    fn invalidate(&mut self, addr: u64)
        requires
            old(self).wf(),
        ensures
            final(self).wf(),
            final(self).model() == Self::after_invalidate(old(self).model(), addr),
    ;

    fn clear(&mut self)
        requires
            old(self).wf(),
        ensures
            final(self).wf(),
            final(self).model() == Self::empty(),
    ;
}

/// A cache that counts accesses and hits.
pub struct Cache<P: CachePolicy> {
    pub policy: P,
    pub hit_count: u64,
    pub access_count: u64,
}

/// Something that is done to a cache.
pub enum CacheOp<T> {
    Get(u64),
    Put(u64, T),
    Invalidate(u64),
    Clear,
}

/// A cache and its counts as plain values.
pub struct CountedState<M> {
    pub contents: M,
    pub hits: u64,
    pub accesses: u64,
}

impl<P: CachePolicy> Cache<P> {
    /// The cache and its counts.
    pub open spec fn state(&self) -> CountedState<P::Model> {
        CountedState {
            contents: self.policy.model(),
            hits: self.hit_count,
            accesses: self.access_count,
        }
    }

    /// A cache in which nothing was put or looked for.
    pub open spec fn fresh() -> CountedState<P::Model> {
        CountedState { contents: P::empty(), hits: 0, accesses: 0 }
    }

    /// The contents after something is done.
    pub open spec fn contents_after(m: P::Model, op: CacheOp<P::T>) -> P::Model {
        match op {
            CacheOp::Get(_) => m,
            CacheOp::Put(addr, data) => P::after_put(m, addr, data),
            CacheOp::Invalidate(addr) => P::after_invalidate(m, addr),
            CacheOp::Clear => P::empty(),
        }
    }

    /// Whether something that is done is an access that is answered.
    pub open spec fn answered(m: P::Model, op: CacheOp<P::T>) -> bool {
        match op {
            CacheOp::Get(addr) => P::lookup(m, addr) is Some,
            _ => false,
        }
    }

    /// The cache after something is done.
    pub open spec fn after(s: CountedState<P::Model>, op: CacheOp<P::T>) -> CountedState<P::Model> {
        CountedState {
            contents: Self::contents_after(s.contents, op),
            hits: if Self::answered(s.contents, op) {
                s.hits.wrapping_add(1)
            } else {
                s.hits
            },
            accesses: if op is Get {
                s.accesses.wrapping_add(1)
            } else {
                s.accesses
            },
        }
    }

    /// A cache after one thing after the other is done to a new one.
    pub open spec fn after_all(ops: Seq<CacheOp<P::T>>) -> CountedState<P::Model>
        decreases ops.len(),
    {
        if ops.len() == 0 {
            Self::fresh()
        } else {
            Self::after(Self::after_all(ops.drop_last()), ops.last())
        }
    }

    /// How many of the things that are done are accesses.
    pub open spec fn gets(ops: Seq<CacheOp<P::T>>) -> nat
        decreases ops.len(),
    {
        if ops.len() == 0 {
            0
        } else {
            Self::gets(ops.drop_last()) + if ops.last() is Get {
                1nat
            } else {
                0
            }
        }
    }

    /// How many of the accesses are answered.
    pub open spec fn answers(ops: Seq<CacheOp<P::T>>) -> nat
        decreases ops.len(),
    {
        if ops.len() == 0 {
            0
        } else {
            Self::answers(ops.drop_last()) + if Self::answered(
                Self::after_all(ops.drop_last()).contents,
                ops.last(),
            ) {
                1nat
            } else {
                0
            }
        }
    }

    /// Whatever is done to a new cache, it has counted every access and every answer, modulo 2^64,
    /// and nothing else; there are no more answers than accesses.
    pub proof fn law_counts(ops: Seq<CacheOp<P::T>>)
        ensures
            Self::after_all(ops).accesses == Self::gets(ops) % 0x1_0000_0000_0000_0000,
            Self::after_all(ops).hits == Self::answers(ops) % 0x1_0000_0000_0000_0000,
            Self::answers(ops) <= Self::gets(ops),
            Self::gets(ops) <= u64::MAX ==> Self::after_all(ops).hits <= Self::after_all(
                ops,
            ).accesses,
        decreases ops.len(),
    {
        if ops.len() > 0 {
            Self::law_counts(ops.drop_last());
        }
    }

    pub fn hit_count(&self) -> (r: u64)
        ensures
            r == self.hit_count,
    {
        self.hit_count
    }

    pub fn access_count(&self) -> (r: u64)
        ensures
            r == self.access_count,
    {
        self.access_count
    }
}

impl<P: CachePolicy> CachePolicy for Cache<P> {
    type T = P::T;

    type Model = P::Model;

    open spec fn wf(&self) -> bool {
        self.policy.wf()
    }

    open spec fn model(&self) -> P::Model {
        self.policy.model()
    }

    open spec fn parameters_ok() -> bool {
        P::parameters_ok()
    }

    open spec fn shape_ok(m: P::Model) -> bool {
        P::shape_ok(m)
    }

    open spec fn empty() -> P::Model {
        P::empty()
    }

    open spec fn lookup(m: P::Model, addr: u64) -> Option<P::T> {
        P::lookup(m, addr)
    }

    open spec fn holds(m: P::Model, addr: u64, data: P::T) -> bool {
        P::holds(m, addr, data)
    }

    open spec fn after_put(m: P::Model, addr: u64, data: P::T) -> P::Model {
        P::after_put(m, addr, data)
    }

    open spec fn after_invalidate(m: P::Model, addr: u64) -> P::Model {
        P::after_invalidate(m, addr)
    }

    proof fn law_never_invents(m: P::Model, addr: u64, data: P::T, a: u64, v: P::T) {
        P::law_never_invents(m, addr, data, a, v);
    }

    fn new() -> (r: Self)
        ensures
            r.state() == Self::fresh(),
    {
        Cache { policy: P::new(), hit_count: 0, access_count: 0 }
    }

    fn get(&mut self, addr: u64) -> (r: Option<P::T>)
        ensures
            final(self).state() == Self::after(old(self).state(), CacheOp::Get(addr)),
            final(self).access_count == old(self).access_count.wrapping_add(1),
            final(self).hit_count == if r is Some {
                old(self).hit_count.wrapping_add(1)
            } else {
                old(self).hit_count
            },
    {
        self.access_count = self.access_count.wrapping_add(1);
        let r = self.policy.get(addr);
        if r.is_some() {
            self.hit_count = self.hit_count.wrapping_add(1);
        }
        r
    }

    fn put(&mut self, addr: u64, data: P::T)
        ensures
            final(self).state() == Self::after(old(self).state(), CacheOp::Put(addr, data)),
            final(self).hit_count == old(self).hit_count,
            final(self).access_count == old(self).access_count,
    {
        self.policy.put(addr, data);
    }

    fn invalidate(&mut self, addr: u64)
        ensures
            final(self).state() == Self::after(old(self).state(), CacheOp::Invalidate(addr)),
            final(self).hit_count == old(self).hit_count,
            final(self).access_count == old(self).access_count,
    {
        self.policy.invalidate(addr);
    }

    fn clear(&mut self)
        ensures
            final(self).state() == Self::after(old(self).state(), CacheOp::Clear),
            final(self).hit_count == old(self).hit_count,
            final(self).access_count == old(self).access_count,
    {
        self.policy.clear();
    }
}

/// `i & (n - 1)` is below `n`.
proof fn lemma_masked_below(i: usize, m: usize)
    ensures
        i & m <= m,
{
    assert(i & m <= m) by (bit_vector);
}

/// A slot: the address that it belongs to, and what was put there. A slot without contents has
/// the address 0.
pub type Slot<T> = (u64, Option<T>);

/// A direct-mapped cache of `N` slots; `N` is a power of two.
pub struct DirectCache<T, const N: usize> {
    pub cache: Vec<Slot<T>>,
}

impl<T: Cacheable, const N: usize> DirectCache<T, N> {
    /// The slot of an address.
    pub open spec fn slot(addr: u64) -> int {
        (((addr as usize) >> T::ADDR_SHIFT_BITS) & ((N - 1) as usize)) as int
    }

    fn get_id(addr: u64) -> (r: usize)
        requires
            0 < N,
            T::ADDR_SHIFT_BITS < 32,
        ensures
            r == Self::slot(addr),
            r < N,
    {
        let m: usize = N - 1;
        let i: usize = T::index_of(addr);
        proof {
            lemma_masked_below(i, m);
        }
        i & m
    }

    /// The slot of an address is one of the cache.
    pub proof fn lemma_slot(addr: u64)
        requires
            0 < N,
        ensures
            0 <= Self::slot(addr) < N,
    {
        lemma_masked_below((addr as usize) >> T::ADDR_SHIFT_BITS, (N - 1) as usize);
    }
}

impl<T: Cacheable, const N: usize> CachePolicy for DirectCache<T, N> {
    type T = T;

    type Model = Seq<Slot<T>>;

    open spec fn wf(&self) -> bool {
        self.cache@.len() == N && Self::parameters_ok()
    }

    open spec fn model(&self) -> Seq<Slot<T>> {
        self.cache@
    }

    open spec fn parameters_ok() -> bool {
        &&& N > 0
        &&& N & ((N - 1) as usize) == 0
        &&& T::ADDR_SHIFT_BITS < 32
    }

    open spec fn shape_ok(m: Seq<Slot<T>>) -> bool {
        m.len() == N
    }

    open spec fn empty() -> Seq<Slot<T>> {
        Seq::new(N as nat, |i: int| (0u64, None::<T>))
    }

    open spec fn lookup(m: Seq<Slot<T>>, addr: u64) -> Option<T> {
        let entry = m[Self::slot(addr)];
        if entry.0 == addr {
            entry.1
        } else {
            None
        }
    }

    open spec fn holds(m: Seq<Slot<T>>, addr: u64, data: T) -> bool {
        m.contains((addr, Some(data)))
    }

    open spec fn after_put(m: Seq<Slot<T>>, addr: u64, data: T) -> Seq<Slot<T>> {
        m.update(Self::slot(addr), (addr, Some(data)))
    }

    open spec fn after_invalidate(m: Seq<Slot<T>>, addr: u64) -> Seq<Slot<T>> {
        m.update(Self::slot(addr), (0, None))
    }

    proof fn law_never_invents(m: Seq<Slot<T>>, addr: u64, data: T, a: u64, v: T) {
        lemma_masked_below((addr as usize) >> T::ADDR_SHIFT_BITS, (N - 1) as usize);
        lemma_masked_below((a as usize) >> T::ADDR_SHIFT_BITS, (N - 1) as usize);
        let x = Self::slot(addr);
        let put = Self::after_put(m, addr, data);
        let inv = Self::after_invalidate(m, addr);
        if put.contains((a, Some(v))) {
            let i = choose|i: int| 0 <= i < put.len() && put[i] == (a, Some(v));
            if i != x {
                assert(m[i] == (a, Some(v)));
            }
        }
        if inv.contains((a, Some(v))) {
            let i = choose|i: int| 0 <= i < inv.len() && inv[i] == (a, Some(v));
            assert(m[i] == (a, Some(v)));
        }
        if Self::lookup(m, a) == Some(v) {
            assert(m[Self::slot(a)] == (a, Some(v)));
        }
    }

    fn new() -> (r: Self) {
        let mut cache: Vec<Slot<T>> = Vec::new();
        let mut i: usize = 0;
        while i < N
            invariant
                i <= N,
                cache@ =~= Seq::new(i as nat, |i: int| (0u64, None::<T>)),
            decreases N - i,
        {
            cache.push((0, None));
            i = i + 1;
        }
        DirectCache { cache }
    }

    fn get(&mut self, addr: u64) -> (r: Option<T>) {
        let id: usize = Self::get_id(addr);
        let (tag, data) = self.cache[id];
        if tag == addr {
            data
        } else {
            None
        }
    }

    fn put(&mut self, addr: u64, data: T) {
        let id: usize = Self::get_id(addr);
        self.cache.set(id, (addr, Some(data)));
    }

    fn invalidate(&mut self, addr: u64) {
        let id: usize = Self::get_id(addr);
        self.cache.set(id, (0, None));
    }

    fn clear(&mut self) {
        let mut i: usize = 0;
        while i < N
            invariant
                i <= N,
                self.wf(),
                forall|j: int| 0 <= j < i ==> #[trigger] self.cache@[j] == (0u64, None::<T>),
            decreases N - i,
        {
            self.cache.set(i, (0, None));
            i = i + 1;
        }
        assert(self.cache@ =~= Self::empty());
    }
}

/// What a direct-mapped cache answers after something is put at `addr`: that for `addr`, nothing
/// for the other addresses of the slot, and what it answered before for the rest.
pub proof fn law_direct_cache_put<T: Cacheable, const N: usize>(
    m: Seq<Slot<T>>,
    addr: u64,
    data: T,
    a: u64,
)
    requires
        DirectCache::<T, N>::parameters_ok(),
        DirectCache::<T, N>::shape_ok(m),
    ensures
        DirectCache::<T, N>::lookup(DirectCache::<T, N>::after_put(m, addr, data), a) == if a
            == addr {
            Some(data)
        } else if DirectCache::<T, N>::slot(a) == DirectCache::<T, N>::slot(addr) {
            None
        } else {
            DirectCache::<T, N>::lookup(m, a)
        },
        DirectCache::<T, N>::lookup(DirectCache::<T, N>::after_invalidate(m, addr), addr) is None,
{
    lemma_masked_below((addr as usize) >> T::ADDR_SHIFT_BITS, (N - 1) as usize);
    lemma_masked_below((a as usize) >> T::ADDR_SHIFT_BITS, (N - 1) as usize);
}

/// The first slot of an address, from index `i` on.
pub open spec fn slot_of<T>(slots: Seq<Slot<T>>, addr: u64, i: int) -> Option<int>
    decreases slots.len() - i,
{
    if i < 0 || i >= slots.len() {
        None
    } else if slots[i].0 == addr {
        Some(i)
    } else {
        slot_of(slots, addr, i + 1)
    }
}

/// The first slot of an address is a slot of it.
proof fn lemma_slot_of<T>(slots: Seq<Slot<T>>, addr: u64, i: int)
    requires
        0 <= i,
    ensures
        match slot_of(slots, addr, i) {
            Some(k) => i <= k < slots.len() && slots[k].0 == addr && forall|j: int|
                i <= j < k ==> (#[trigger] slots[j]).0 != addr,
            None => forall|j: int| i <= j < slots.len() ==> (#[trigger] slots[j]).0 != addr,
        },
    decreases slots.len() - i,
{
    if i < slots.len() && slots[i].0 != addr {
        lemma_slot_of(slots, addr, i + 1);
    }
}

/// One set of a set-associative cache, with `W` ways that are replaced in turn.
pub struct CacheSet<T, const W: usize> {
    pub idx: usize,
    pub slots: Vec<Slot<T>>,
}

/// A set as plain values.
#[verifier::ext_equal]
pub struct SetModel<T> {
    pub idx: int,
    pub slots: Seq<Slot<T>>,
}

impl<T: Cacheable, const W: usize> View for CacheSet<T, W> {
    type V = SetModel<T>;

    open spec fn view(&self) -> SetModel<T> {
        SetModel { idx: self.idx as int, slots: self.slots@ }
    }
}

impl<T> SetModel<T> {
    /// The set after something is put into its next way.
    pub open spec fn inserted(self, addr: u64, data: T) -> SetModel<T> {
        SetModel {
            idx: if self.idx + 1 == self.slots.len() {
                0
            } else {
                self.idx + 1
            },
            slots: self.slots.update(self.idx, (addr, Some(data))),
        }
    }

    /// The set after the first slot of an address is emptied.
    pub open spec fn invalidated(self, addr: u64) -> SetModel<T> {
        match slot_of(self.slots, addr, 0) {
            Some(i) => SetModel { slots: self.slots.update(i, (0, None)), ..self },
            None => self,
        }
    }

    /// What the set answers: what the first slot of the address holds.
    pub open spec fn found(self, addr: u64) -> Option<T> {
        match slot_of(self.slots, addr, 0) {
            Some(i) => self.slots[i].1,
            None => None,
        }
    }
}

impl<T: Cacheable, const W: usize> CacheSet<T, W> {
    pub open spec fn wf(&self) -> bool {
        self.slots@.len() == W && self.idx < W
    }

    fn new() -> (r: CacheSet<T, W>)
        requires
            W > 0,
        ensures
            r.wf(),
            r@ == (SetModel { idx: 0, slots: Seq::new(W as nat, |i: int| (0u64, None::<T>)) }),
    {
        let mut slots: Vec<Slot<T>> = Vec::new();
        let mut i: usize = 0;
        while i < W
            invariant
                i <= W,
                slots@ =~= Seq::new(i as nat, |i: int| (0u64, None::<T>)),
            decreases W - i,
        {
            slots.push((0, None));
            i = i + 1;
        }
        CacheSet { idx: 0, slots }
    }

    fn insert(&mut self, addr: u64, data: T)
        requires
            old(self).wf(),
        ensures
            final(self).wf(),
            final(self)@ == old(self)@.inserted(addr, data),
    {
        self.slots.set(self.idx, (addr, Some(data)));
        if self.idx + 1 == W {
            self.idx = 0;
        } else {
            self.idx = self.idx + 1;
        }
    }

    /// The first slot of an address.
    fn position(&self, addr: u64) -> (r: Option<usize>)
        requires
            self.wf(),
        ensures
            match r {
                Some(i) => i < W && slot_of(self.slots@, addr, 0) == Some(i as int),
                None => slot_of(self.slots@, addr, 0) is None,
            },
    {
        let mut i: usize = 0;
        while i < W
            invariant
                i <= W,
                self.wf(),
                slot_of(self.slots@, addr, 0) == slot_of(self.slots@, addr, i as int),
            decreases W - i,
        {
            if self.slots[i].0 == addr {
                return Some(i);
            }
            i = i + 1;
        }
        None
    }

    fn invalidate(&mut self, addr: u64)
        requires
            old(self).wf(),
        ensures
            final(self).wf(),
            final(self)@ == old(self)@.invalidated(addr),
    {
        match self.position(addr) {
            Some(i) => {
                self.slots.set(i, (0, None));
            },
            None => {},
        }
    }
}

/// A set-associative cache with `S` sets of `W` ways; both are powers of two. The ways of a set
/// are replaced in turn.
pub struct SetCache<T: Cacheable, const S: usize, const W: usize> {
    pub cache: Vec<CacheSet<T, W>>,
}

impl<T: Cacheable, const S: usize, const W: usize> SetCache<T, S, W> {
    /// The set of an address.
    pub open spec fn set_of(addr: u64) -> int {
        (((addr as usize) >> T::ADDR_SHIFT_BITS) & ((S - 1) as usize)) as int
    }

    fn set_index_of(addr: u64) -> (r: usize)
        requires
            0 < S,
            T::ADDR_SHIFT_BITS < 32,
        ensures
            r == Self::set_of(addr),
            r < S,
    {
        let m: usize = S - 1;
        let i: usize = T::index_of(addr);
        proof {
            lemma_masked_below(i, m);
        }
        i & m
    }
}

impl<T: Cacheable, const S: usize, const W: usize> CachePolicy for SetCache<T, S, W> {
    type T = T;

    type Model = Seq<SetModel<T>>;

    open spec fn wf(&self) -> bool {
        &&& Self::parameters_ok()
        &&& self.cache@.len() == S
        &&& forall|i: int| 0 <= i < S ==> (#[trigger] self.cache@[i]).wf()
    }

    open spec fn model(&self) -> Seq<SetModel<T>> {
        Seq::new(self.cache@.len(), |i: int| self.cache@[i]@)
    }

    open spec fn parameters_ok() -> bool {
        &&& S > 0
        &&& S & ((S - 1) as usize) == 0
        &&& W > 0
        &&& W & ((W - 1) as usize) == 0
        &&& T::ADDR_SHIFT_BITS < 32
    }

    open spec fn shape_ok(m: Seq<SetModel<T>>) -> bool {
        &&& m.len() == S
        &&& forall|i: int| 0 <= i < S ==> (#[trigger] m[i]).slots.len() == W && 0 <= m[i].idx < W
    }

    open spec fn empty() -> Seq<SetModel<T>> {
        Seq::new(
            S as nat,
            |i: int| SetModel { idx: 0, slots: Seq::new(W as nat, |j: int| (0u64, None::<T>)) },
        )
    }

    open spec fn lookup(m: Seq<SetModel<T>>, addr: u64) -> Option<T> {
        m[Self::set_of(addr)].found(addr)
    }

    open spec fn holds(m: Seq<SetModel<T>>, addr: u64, data: T) -> bool {
        exists|i: int| 0 <= i < m.len() && (#[trigger] m[i]).slots.contains((addr, Some(data)))
    }

    open spec fn after_put(m: Seq<SetModel<T>>, addr: u64, data: T) -> Seq<SetModel<T>> {
        m.update(Self::set_of(addr), m[Self::set_of(addr)].inserted(addr, data))
    }

    open spec fn after_invalidate(m: Seq<SetModel<T>>, addr: u64) -> Seq<SetModel<T>> {
        m.update(Self::set_of(addr), m[Self::set_of(addr)].invalidated(addr))
    }

    proof fn law_never_invents(m: Seq<SetModel<T>>, addr: u64, data: T, a: u64, v: T) {
        lemma_masked_below((addr as usize) >> T::ADDR_SHIFT_BITS, (S - 1) as usize);
        lemma_masked_below((a as usize) >> T::ADDR_SHIFT_BITS, (S - 1) as usize);
        let entry = (a, Some(v));
        let x = Self::set_of(addr);
        let put = Self::after_put(m, addr, data);
        let inv = Self::after_invalidate(m, addr);
        assert(m[x].slots.len() == W);
        lemma_slot_of(m[x].slots, addr, 0);
        if Self::holds(put, a, v) && !(a == addr && v == data) {
            let i = choose|i: int|
                0 <= i < put.len() && (#[trigger] put[i]).slots.contains(entry);
            if i == x {
                let k = choose|k: int| 0 <= k < put[i].slots.len() && put[i].slots[k] == entry;
                assert(m[i].slots[k] == entry);
            }
            assert(m[i].slots.contains(entry));
        }
        if Self::holds(inv, a, v) {
            let i = choose|i: int|
                0 <= i < inv.len() && (#[trigger] inv[i]).slots.contains(entry);
            if i == x {
                let k = choose|k: int| 0 <= k < inv[i].slots.len() && inv[i].slots[k] == entry;
                assert(m[i].slots[k] == entry);
            }
            assert(m[i].slots.contains(entry));
        }
        let y = Self::set_of(a);
        lemma_slot_of(m[y].slots, a, 0);
        if Self::lookup(m, a) == Some(v) {
            let k = slot_of(m[y].slots, a, 0)->0;
            assert(m[y].slots[k] == entry);
            assert(m[y].slots.contains(entry));
        }
        let e = Self::empty();
        assert(!Self::holds(e, a, v)) by {
            if Self::holds(e, a, v) {
                let i = choose|i: int|
                    0 <= i < e.len() && (#[trigger] e[i]).slots.contains(entry);
                let k = choose|k: int| 0 <= k < e[i].slots.len() && e[i].slots[k] == entry;
                assert(e[i].slots[k] == (0u64, None::<T>));
            }
        }
        lemma_slot_of(e[y].slots, a, 0);
    }

    fn new() -> (r: Self) {
        let mut cache: Vec<CacheSet<T, W>> = Vec::new();
        let mut i: usize = 0;
        while i < S
            invariant
                i <= S,
                Self::parameters_ok(),
                cache@.len() == i,
                forall|j: int|
                    0 <= j < i ==> (#[trigger] cache@[j]).wf() && cache@[j]@ == (SetModel {
                        idx: 0,
                        slots: Seq::new(W as nat, |j: int| (0u64, None::<T>)),
                    }),
            decreases S - i,
        {
            cache.push(CacheSet::new());
            i = i + 1;
        }
        let r = SetCache { cache };
        assert(r.model() =~= Self::empty());
        r
    }

    fn get(&mut self, addr: u64) -> (r: Option<T>) {
        let i: usize = Self::set_index_of(addr);
        assert(self.cache@[i as int].wf());
        match self.cache[i].position(addr) {
            Some(k) => self.cache[i].slots[k].1,
            None => None,
        }
    }

    fn put(&mut self, addr: u64, data: T) {
        let i: usize = Self::set_index_of(addr);
        assert(self.cache@[i as int].wf());
        let set = &mut self.cache[i];
        set.insert(addr, data);
        assert(self.model() =~= Self::after_put(old(self).model(), addr, data));
    }

    fn invalidate(&mut self, addr: u64) {
        let i: usize = Self::set_index_of(addr);
        assert(self.cache@[i as int].wf());
        let set = &mut self.cache[i];
        set.invalidate(addr);
        assert(self.model() =~= Self::after_invalidate(old(self).model(), addr));
    }

    fn clear(&mut self) {
        *self = Self::new();
    }
}

/// A set answers with what was put last, where the address had no slot before, and keeps
/// everything but the way that is replaced.
pub proof fn law_set_insert_on_miss<T>(m: SetModel<T>, addr: u64, data: T, a: u64)
    requires
        0 <= m.idx < m.slots.len(),
        slot_of(m.slots, addr, 0) is None,
    ensures
        m.inserted(addr, data).found(addr) == Some(data),
        a != addr && slot_of(m.slots, a, 0) is Some && slot_of(m.slots, a, 0)->0 != m.idx
            ==> m.inserted(addr, data).found(a) == m.found(a),
{
    let n = m.inserted(addr, data);
    lemma_slot_of(m.slots, addr, 0);
    lemma_slot_of(n.slots, addr, 0);
    lemma_slot_of(m.slots, a, 0);
    lemma_slot_of(n.slots, a, 0);
    if slot_of(n.slots, addr, 0) is Some {
        let k = slot_of(n.slots, addr, 0)->0;
        if k != m.idx {
            assert(m.slots[k].0 == addr);
        }
    } else {
        assert(n.slots[m.idx].0 == addr);
    }
    if a != addr && slot_of(m.slots, a, 0) is Some && slot_of(m.slots, a, 0)->0 != m.idx {
        let k = slot_of(m.slots, a, 0)->0;
        assert(n.slots[k].0 == a);
        let j = slot_of(n.slots, a, 0)->0;
        assert(n.slots[j].0 == a);
        assert(j != m.idx);
        assert(m.slots[j].0 == a);
        assert(j == k);
    }
}

/// A cache that holds nothing, to measure the others against.
pub struct NullCache<T: Cacheable> {
    pub phantom: std::marker::PhantomData<T>,
}

impl<T: Cacheable> CachePolicy for NullCache<T> {
    type T = T;

    type Model = ();

    open spec fn wf(&self) -> bool {
        true
    }

    open spec fn model(&self) -> () {
        ()
    }

    open spec fn parameters_ok() -> bool {
        true
    }

    open spec fn shape_ok(m: ()) -> bool {
        true
    }

    open spec fn empty() -> () {
        ()
    }

    open spec fn lookup(m: (), addr: u64) -> Option<T> {
        None
    }

    open spec fn holds(m: (), addr: u64, data: T) -> bool {
        false
    }

    open spec fn after_put(m: (), addr: u64, data: T) -> () {
        ()
    }

    open spec fn after_invalidate(m: (), addr: u64) -> () {
        ()
    }

    proof fn law_never_invents(m: (), addr: u64, data: T, a: u64, v: T) {
    }

    fn new() -> (r: Self) {
        NullCache { phantom: std::marker::PhantomData }
    }

    fn get(&mut self, _addr: u64) -> (r: Option<T>) {
        None
    }

    fn put(&mut self, _addr: u64, _data: T) {
    }

    fn invalidate(&mut self, _addr: u64) {
    }

    fn clear(&mut self) {
    }
}

} // verus!
