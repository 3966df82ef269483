//! Patterns of instruction words.
use vstd::prelude::*;
use vstd::string::*;

verus! {

/// A pattern of a word: the bits that are fixed, and their values.
#[derive(Clone, Copy, Debug, PartialEq, Eq, Structural)]
pub struct DecodeMask {
    pub key: u32,
    pub mask: u32,
}

impl DecodeMask {
    /// Whether a word has the fixed bits of the pattern.
    pub open spec fn spec_matches(self, instr: u32) -> bool {
        instr & self.mask == self.key
    }

    /// Whether a word has the fixed bits of the pattern.
    pub fn matches(&self, instr: u32) -> (r: bool)
        ensures
            r == self.spec_matches(instr),
    {
        (instr & self.mask) == self.key
    }
}

/// Whether a character stands for a bit of a pattern: `0` and `1` for a fixed one, `?` and `-` for
/// any.
pub open spec fn is_pattern_char(c: char) -> bool {
    c == '0' || c == '1' || c == '?' || c == '-'
}

/// Whether a text is a pattern: whole bytes, at most four.
pub open spec fn is_pattern(s: Seq<char>) -> bool {
    &&& s.len() <= 32
    &&& s.len() % 8 == 0
    &&& forall|i: int| 0 <= i < s.len() ==> is_pattern_char(#[trigger] s[i])
}

/// The values of the fixed bits of the first `n` characters.
pub open spec fn pattern_key(s: Seq<char>, n: int) -> int
    decreases n,
{
    if n <= 0 {
        0
    } else {
        pattern_key(s, n - 1) * 2 + if s[n - 1] == '1' {
            1int
        } else {
            0
        }
    }
}

/// Which of the bits of the first `n` characters are fixed.
pub open spec fn pattern_mask(s: Seq<char>, n: int) -> int
    decreases n,
{
    if n <= 0 {
        0
    } else {
        pattern_mask(s, n - 1) * 2 + if s[n - 1] == '0' || s[n - 1] == '1' {
            1int
        } else {
            0
        }
    }
}

/// Whether the low `n` bits of a word are such as the first `n` characters say.
pub open spec fn pattern_fits(s: Seq<char>, v: u32, n: int) -> bool
    decreases n,
{
    n <= 0 || (pattern_fits(s, v / 2, n - 1) && match s[n - 1] {
        '0' => v % 2 == 0,
        '1' => v % 2 == 1,
        _ => true,
    })
}

proof fn lemma_pattern_bounds(s: Seq<char>, n: int)
    requires
        0 <= n <= 32,
    ensures
        0 <= pattern_key(s, n) < vstd::arithmetic::power2::pow2(n as nat),
        0 <= pattern_mask(s, n) < vstd::arithmetic::power2::pow2(n as nat),
        vstd::arithmetic::power2::pow2(n as nat) <= 0x1_0000_0000,
    decreases n,
{
    vstd::arithmetic::power2::lemma2_to64();
    if n > 0 {
        lemma_pattern_bounds(s, n - 1);
        vstd::arithmetic::power2::lemma_pow2_unfold(n as nat);
        if n < 32 {
            vstd::arithmetic::power2::lemma_pow2_strictly_increases(n as nat, 32);
        }
    }
}

/// A word matches the mask of a pattern if its bits are such as the pattern says.
pub proof fn law_mask_matches_pattern(s: Seq<char>, v: u32, n: int)
    requires
        0 <= n <= 32,
    ensures
        pattern_fits(s, v, n) == (DecodeMask {
            key: pattern_key(s, n) as u32,
            mask: pattern_mask(s, n) as u32,
        }).spec_matches(v),
    decreases n,
{
    lemma_pattern_bounds(s, n);
    if n > 0 {
        lemma_pattern_bounds(s, n - 1);
        vstd::arithmetic::power2::lemma_pow2_unfold(n as nat);
        law_mask_matches_pattern(s, v / 2, n - 1);
        let m = pattern_mask(s, n - 1) as u32;
        let b: u32 = if s[n - 1] == '0' || s[n - 1] == '1' {
            1
        } else {
            0
        };
        let m2 = pattern_mask(s, n) as u32;
        assert(v & m2 == ((v / 2) & m) * 2 + ((v % 2) & b)) by (bit_vector)
            requires
                m2 == m * 2 + b,
                b <= 1,
        ;
        assert((v % 2) & 1 == v % 2) by (bit_vector);
        assert((v % 2) & 0 == 0) by (bit_vector);
    } else {
        assert(v & 0 == 0) by (bit_vector);
    }
}

/// The mask of a pattern.
pub fn create_decode_mask(pattern: &str) -> (r: DecodeMask)
    requires
        is_pattern(pattern@),
    ensures
        r.key == pattern_key(pattern@, pattern@.len() as int),
        r.mask == pattern_mask(pattern@, pattern@.len() as int),
{
    let n: usize = pattern.unicode_len();
    let mut key: u32 = 0;
    let mut mask: u32 = 0;
    let mut i: usize = 0;
    while i < n
        invariant
            i <= n,
            n == pattern@.len(),
            n <= 32,
            key == pattern_key(pattern@, i as int),
            mask == pattern_mask(pattern@, i as int),
        decreases n - i,
    {
        proof {
            lemma_pattern_bounds(pattern@, i as int + 1);
        }
        let c: char = pattern.get_char(i);
        key = key * 2 + if c == '1' {
            1
        } else {
            0
        };
        mask = mask * 2 + if c == '0' || c == '1' {
            1
        } else {
            0
        };
        i = i + 1;
    }
    DecodeMask { key, mask }
}

} // verus!
