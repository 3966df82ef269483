//! Where generated code is placed.
use vstd::prelude::*;

verus! {

/// The size of a chunk of code memory.
pub const JIT_BUFFER_SIZE: usize = 0x20_0000;

/// A place in code memory.
#[derive(Debug, Clone, Copy, PartialEq, Eq, Structural)]
pub struct CodeLocation {
    pub chunk: usize,
    pub offset: usize,
}

/// Code memory as plain values: how much of each chunk holds code, the chunk that is filled, and
/// how much code there is and ever was at once.
#[verifier::ext_equal]
pub struct BufferModel {
    pub cursors: Seq<usize>,
    pub current: int,
    pub used: int,
    pub peak: int,
}

/// How much code the first `n` chunks hold.
pub open spec fn code_in(cursors: Seq<usize>, n: int) -> int
    decreases n,
{
    if n <= 0 {
        0
    } else {
        code_in(cursors, n - 1) + cursors[n - 1]
    }
}

impl BufferModel {
    /// The chunk for code of a length: the current one if it fits there, and the next one if not.
    pub open spec fn chunk_for(self, len: int) -> int {
        if JIT_BUFFER_SIZE - self.cursors[self.current] >= len {
            self.current
        } else {
            self.current + 1
        }
    }

    /// The chunks, with a new one if the chunk for code of a length is not there yet.
    pub open spec fn chunks_for(self, len: int) -> Seq<usize> {
        if self.chunk_for(len) == self.cursors.len() {
            self.cursors.push(0)
        } else {
            self.cursors
        }
    }

    /// Where code of a length goes.
    pub open spec fn location(self, len: int) -> CodeLocation {
        let chunk = self.chunk_for(len);
        CodeLocation { chunk: chunk as usize, offset: self.chunks_for(len)[chunk] }
    }

    /// Code memory after code of a length is placed.
    pub open spec fn placed(self, len: int) -> BufferModel {
        let chunk = self.chunk_for(len);
        let cursors = self.chunks_for(len);
        BufferModel {
            cursors: cursors.update(chunk, (cursors[chunk] + len) as usize),
            current: chunk,
            used: self.used + len,
            peak: if self.used + len > self.peak {
                self.used + len
            } else {
                self.peak
            },
        }
    }

    /// Code memory after all code is given up. The chunks stay.
    pub open spec fn emptied(self) -> BufferModel {
        BufferModel {
            cursors: Seq::new(self.cursors.len(), |i: int| 0usize),
            current: 0,
            used: 0,
            peak: self.peak,
        }
    }

    /// Whether every chunk is within its size, those behind the current one are empty, and the
    /// counts are right.
    pub open spec fn valid(self) -> bool {
        &&& 0 <= self.current < self.cursors.len()
        &&& forall|i: int|
            0 <= i < self.cursors.len() ==> #[trigger] self.cursors[i] <= JIT_BUFFER_SIZE
        &&& forall|i: int| self.current < i < self.cursors.len() ==> #[trigger] self.cursors[i] == 0
        &&& self.used == code_in(self.cursors, self.cursors.len() as int)
        &&& self.used <= self.peak
    }
}

proof fn lemma_code_in_update(cursors: Seq<usize>, n: int, at: int, v: usize)
    requires
        0 <= at < cursors.len(),
        0 <= n <= cursors.len(),
    ensures
        code_in(cursors.update(at, v), n) == code_in(cursors, n) + if at < n {
            v - cursors[at]
        } else {
            0
        },
    decreases n,
{
    if n > 0 {
        lemma_code_in_update(cursors, n - 1, at, v);
    }
}

proof fn lemma_code_in_push(cursors: Seq<usize>, n: int, v: usize)
    requires
        0 <= n <= cursors.len(),
    ensures
        code_in(cursors.push(v), n) == code_in(cursors, n),
    decreases n,
{
    if n > 0 {
        lemma_code_in_push(cursors, n - 1, v);
    }
}

proof fn lemma_code_in_zeros(cursors: Seq<usize>, n: int)
    requires
        0 <= n <= cursors.len(),
        forall|i: int| 0 <= i < cursors.len() ==> #[trigger] cursors[i] == 0,
    ensures
        code_in(cursors, n) == 0,
    decreases n,
{
    if n > 0 {
        lemma_code_in_zeros(cursors, n - 1);
    }
}

/// Placing code keeps code memory within its chunks and the counts right.
pub proof fn law_placed_valid(m: BufferModel, len: int)
    requires
        m.valid(),
        0 < len <= JIT_BUFFER_SIZE,
    ensures
        m.placed(len).valid(),
        m.location(len).offset + len <= JIT_BUFFER_SIZE || m.chunk_for(len) > usize::MAX,
{
    let chunk = m.chunk_for(len);
    let cursors = m.chunks_for(len);
    let n = cursors.len() as int;
    lemma_code_in_push(m.cursors, m.cursors.len() as int, 0);
    assert(code_in(cursors, n) == m.used);
    lemma_code_in_update(cursors, n, chunk, (cursors[chunk] + len) as usize);
}

/// Giving up all code keeps the counts right, and the next code goes where the first code went.
pub proof fn law_reset_reuses_memory(m: BufferModel, len: int)
    requires
        m.valid(),
        0 < len <= JIT_BUFFER_SIZE,
    ensures
        m.emptied().valid(),
        m.emptied().location(len) == (CodeLocation { chunk: 0, offset: 0 }),
        m.emptied().cursors.len() == m.cursors.len(),
{
    lemma_code_in_zeros(m.emptied().cursors, m.cursors.len() as int);
    lemma_code_in_nonnegative(m.cursors, m.cursors.len() as int);
}

proof fn lemma_code_in_nonnegative(cursors: Seq<usize>, n: int)
    requires
        0 <= n <= cursors.len(),
    ensures
        code_in(cursors, n) >= 0,
    decreases n,
{
    if n > 0 {
        lemma_code_in_nonnegative(cursors, n - 1);
    }
}

/// Code that is placed later never overlaps code that was placed before.
pub proof fn law_code_does_not_overlap(m: BufferModel, first: int, second: int)
    requires
        m.valid(),
        0 < first <= JIT_BUFFER_SIZE,
        0 < second <= JIT_BUFFER_SIZE,
        m.cursors.len() + 2 <= usize::MAX,
    ensures
        ({
            let a = m.location(first);
            let b = m.placed(first).location(second);
            b.chunk > a.chunk || (b.chunk == a.chunk && b.offset >= a.offset + first)
        }),
{
    law_placed_valid(m, first);
}

/// Storage for generated code.
pub struct JitBuffer {
    pub cursors: Vec<usize>,
    pub current_chunk: usize,
    pub used_bytes: usize,
    pub peak_used_bytes: usize,
}

impl View for JitBuffer {
    type V = BufferModel;

    open spec fn view(&self) -> BufferModel {
        BufferModel {
            cursors: self.cursors@,
            current: self.current_chunk as int,
            used: self.used_bytes as int,
            peak: self.peak_used_bytes as int,
        }
    }
}

impl JitBuffer {
    /// Storage with one chunk and no code.
    pub fn new() -> (r: JitBuffer)
        ensures
            r@ == (BufferModel { cursors: seq![0usize], current: 0, used: 0, peak: 0 }),
            r@.valid(),
    {
        let mut cursors: Vec<usize> = Vec::new();
        cursors.push(0);
        proof {
            lemma_code_in_zeros(cursors@, 1);
        }
        JitBuffer { cursors, current_chunk: 0, used_bytes: 0, peak_used_bytes: 0 }
    }

    /// Places code and says where it goes. Code that does not fit in the current chunk goes to the
    /// next one.
    pub fn emit_code(&mut self, code: &[u8]) -> (r: CodeLocation)
        requires
            old(self)@.valid(),
            0 < code@.len() <= JIT_BUFFER_SIZE,
            old(self)@.used + code@.len() <= usize::MAX,
            old(self)@.cursors.len() < usize::MAX,
        ensures
            r == old(self)@.location(code@.len() as int),
            final(self)@ == old(self)@.placed(code@.len() as int),
            final(self)@.valid(),
    {
        let len: usize = code.len();
        proof {
            law_placed_valid(self@, len as int);
        }
        if JIT_BUFFER_SIZE - self.cursors[self.current_chunk] < len {
            self.current_chunk = self.current_chunk + 1;
            if self.current_chunk == self.cursors.len() {
                self.cursors.push(0);
            }
        }
        let chunk: usize = self.current_chunk;
        let offset: usize = self.cursors[chunk];
        self.cursors.set(chunk, offset + len);
        self.used_bytes = self.used_bytes + len;
        if self.used_bytes > self.peak_used_bytes {
            self.peak_used_bytes = self.used_bytes;
        }
        assert(self@ =~= old(self)@.placed(len as int));
        CodeLocation { chunk, offset }
    }

    /// Gives up all code. The chunks stay.
    pub fn reset(&mut self)
        requires
            old(self)@.valid(),
        ensures
            final(self)@ == old(self)@.emptied(),
            final(self)@.valid(),
    {
        proof {
            law_reset_reuses_memory(self@, 1);
        }
        self.current_chunk = 0;
        self.used_bytes = 0;
        let mut i: usize = 0;
        while i < self.cursors.len()
            invariant
                i <= self.cursors@.len(),
                self.cursors@.len() == old(self).cursors@.len(),
                forall|k: int| 0 <= k < i ==> #[trigger] self.cursors@[k] == 0,
                self.current_chunk == 0,
                self.used_bytes == 0,
                self.peak_used_bytes == old(self).peak_used_bytes,
            decreases self.cursors@.len() - i,
        {
            self.cursors.set(i, 0);
            i = i + 1;
        }
        assert(self@ =~= old(self)@.emptied());
    }

    /// How much memory the chunks take.
    pub fn allocated_bytes(&self) -> (r: usize)
        requires
            self@.cursors.len() * JIT_BUFFER_SIZE <= usize::MAX,
        ensures
            r == self@.cursors.len() * JIT_BUFFER_SIZE,
    {
        self.cursors.len() * JIT_BUFFER_SIZE
    }

    /// How much code there is.
    pub fn used_bytes(&self) -> (r: usize)
        ensures
            r == self@.used,
    {
        self.used_bytes
    }

    /// How much code there ever was at once.
    pub fn peak_used_bytes(&self) -> (r: usize)
        ensures
            r == self@.peak,
    {
        self.peak_used_bytes
    }

    /// How many chunks there are.
    pub fn chunk_count(&self) -> (r: usize)
        ensures
            r == self@.cursors.len(),
    {
        self.cursors.len()
    }
}

} // verus!
