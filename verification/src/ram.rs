//! Byte-addressed memory with little-endian accesses and an LR/SC reservation.
use vstd::prelude::*;

use crate::config::RAM_SIZE;
use crate::utils::Width;

verus! {

/// The little-endian halfword at `at`.
pub open spec fn le16(bytes: Seq<u8>, at: int) -> int {
    bytes[at] + 0x100 * bytes[at + 1]
}

/// The little-endian word at `at`.
pub open spec fn le32(bytes: Seq<u8>, at: int) -> int {
    le16(bytes, at) + 0x1_0000 * le16(bytes, at + 2)
}

/// The little-endian doubleword at `at`.
pub open spec fn le64(bytes: Seq<u8>, at: int) -> int {
    le32(bytes, at) + 0x1_0000_0000 * le32(bytes, at + 4)
}

/// The little-endian value of width `w` at `at`.
pub open spec fn load_le(bytes: Seq<u8>, at: int, w: Width) -> u64 {
    match w {
        Width::W8 => bytes[at] as u64,
        Width::W16 => le16(bytes, at) as u64,
        Width::W32 => le32(bytes, at) as u64,
        Width::W64 => le64(bytes, at) as u64,
    }
}

/// `v` without its low `n` bytes.
pub open spec fn drop_bytes(v: u64, n: nat) -> u64
    decreases n,
{
    if n == 0 {
        v
    } else {
        drop_bytes(v, (n - 1) as nat) / 0x100
    }
}

/// Byte `i` of `v`, counted from the low end.
pub open spec fn byte_of(v: u64, i: nat) -> u8 {
    (drop_bytes(v, i) % 0x100) as u8
}

/// `bytes` after the low bytes of `v`, as many as `w` has, are stored at `at`.
pub open spec fn store_le(bytes: Seq<u8>, at: int, w: Width, v: u64) -> Seq<u8> {
    Seq::new(
        bytes.len(),
        |k: int|
            if at <= k < at + w.spec_bytes() {
                byte_of(v, (k - at) as nat)
            } else {
                bytes[k]
            },
    )
}

/// Dropping one more byte is dividing by 256.
proof fn lemma_drop_one(v: u64, n: nat)
    ensures
        drop_bytes(v, n) == byte_of(v, n) + 0x100 * drop_bytes(v, n + 1),
{
    assert(drop_bytes(v, n + 1) == drop_bytes(v, n) / 0x100);
}

/// The low bytes of a number are its remainder.
proof fn lemma_low_part(v: u64, low: int, rest: int, modulus: int)
    requires
        v == low + modulus * rest,
        0 <= low < modulus,
    ensures
        v as int % modulus == low,
{
    vstd::arithmetic::mul::lemma_mul_is_commutative(modulus, rest);
    vstd::arithmetic::div_mod::lemma_fundamental_div_mod_converse(v as int, modulus, rest, low);
}

/// A load gives back what a store of the same width at the same place stored, cut to the width.
pub proof fn law_load_after_store(bytes: Seq<u8>, at: int, w: Width, v: u64)
    requires
        0 <= at,
        at + w.spec_bytes() <= bytes.len(),
    ensures
        load_le(store_le(bytes, at, w, v), at, w) == w.wrap(v as int),
{
    let s = store_le(bytes, at, w, v);
    lemma_drop_one(v, 0);
    match w {
        Width::W8 => {
            assert(s[at] == byte_of(v, 0));
            lemma_low_part(v, s[at] as int, drop_bytes(v, 1) as int, 0x100);
        },
        Width::W16 => {
            lemma_drop_one(v, 1);
            assert(s[at] == byte_of(v, 0) && s[at + 1] == byte_of(v, 1));
            lemma_low_part(v, le16(s, at), drop_bytes(v, 2) as int, 0x1_0000);
        },
        Width::W32 => {
            lemma_drop_one(v, 1);
            lemma_drop_one(v, 2);
            lemma_drop_one(v, 3);
            assert(s[at] == byte_of(v, 0) && s[at + 1] == byte_of(v, 1));
            assert(s[at + 2] == byte_of(v, 2) && s[at + 3] == byte_of(v, 3));
            lemma_low_part(v, le32(s, at), drop_bytes(v, 4) as int, 0x1_0000_0000);
        },
        Width::W64 => {
            lemma_drop_one(v, 1);
            lemma_drop_one(v, 2);
            lemma_drop_one(v, 3);
            lemma_drop_one(v, 4);
            lemma_drop_one(v, 5);
            lemma_drop_one(v, 6);
            lemma_drop_one(v, 7);
            assert(s[at] == byte_of(v, 0) && s[at + 1] == byte_of(v, 1));
            assert(s[at + 2] == byte_of(v, 2) && s[at + 3] == byte_of(v, 3));
            assert(s[at + 4] == byte_of(v, 4) && s[at + 5] == byte_of(v, 5));
            assert(s[at + 6] == byte_of(v, 6) && s[at + 7] == byte_of(v, 7));
            lemma_low_part(v, le64(s, at), drop_bytes(v, 8) as int, 0x1_0000_0000_0000_0000);
        },
    }
}

/// A store leaves every byte outside its range alone, and with it every load that does not meet
/// the range.
pub proof fn law_store_frame(
    bytes: Seq<u8>,
    at: int,
    w: Width,
    v: u64,
    other: int,
    other_width: Width,
)
    requires
        0 <= at,
        at + w.spec_bytes() <= bytes.len(),
        0 <= other,
        other + other_width.spec_bytes() <= bytes.len(),
        at + w.spec_bytes() <= other || other + other_width.spec_bytes() <= at,
    ensures
        load_le(store_le(bytes, at, w, v), other, other_width) == load_le(
            bytes,
            other,
            other_width,
        ),
        store_le(bytes, at, w, v).len() == bytes.len(),
{
}

/// Reads a little-endian value.
pub fn read_le(data: &Vec<u8>, at: usize, w: Width) -> (r: u64)
    requires
        at + w.spec_bytes() <= data.len(),
    ensures
        r == load_le(data@, at as int, w),
        w.holds(r),
{
    match w {
        Width::W8 => data[at] as u64,
        Width::W16 => read_half(data, at),
        Width::W32 => read_half(data, at) + 0x1_0000 * read_half(data, at + 2),
        Width::W64 => {
            let low: u64 = read_half(data, at) + 0x1_0000 * read_half(data, at + 2);
            let high: u64 = read_half(data, at + 4) + 0x1_0000 * read_half(data, at + 6);
            low + 0x1_0000_0000 * high
        },
    }
}

fn read_half(data: &Vec<u8>, at: usize) -> (r: u64)
    requires
        at + 2 <= data.len(),
    ensures
        r == le16(data@, at as int),
        r < 0x1_0000,
{
    data[at] as u64 + 0x100 * (data[at + 1] as u64)
}

/// Writes a little-endian value.
pub fn write_le(data: &mut Vec<u8>, at: usize, w: Width, v: u64)
    requires
        at + w.spec_bytes() <= old(data).len(),
    ensures
        final(data)@ == store_le(old(data)@, at as int, w, v),
{
    let n: usize = w.bytes();
    let mut i: usize = 0;
    let mut rest: u64 = v;
    while i < n
        invariant
            i <= n,
            n == w.spec_bytes(),
            at + n <= old(data).len(),
            data@.len() == old(data)@.len(),
            rest == drop_bytes(v, i as nat),
            forall|k: int|
                0 <= k < data@.len() ==> #[trigger] data@[k] == if at <= k < at + i {
                    byte_of(v, (k - at) as nat)
                } else {
                    old(data)@[k]
                },
        decreases n - i,
    {
        data.set(at + i, (rest % 0x100) as u8);
        rest = rest / 0x100;
        i = i + 1;
    }
}

/// The RAM of the machine.
pub struct Ram {
    pub data: Vec<u8>,
    /// The offset that the last load-reserved named, while the reservation lasts.
    pub reservation: Option<u64>,
}

/// RAM as plain values.
#[verifier::ext_equal]
pub struct RamState {
    pub bytes: Seq<u8>,
    pub reservation: Option<u64>,
}

impl RamState {
    /// The reservation after a store at `offset`: it is lost if the store meets its doubleword.
    pub open spec fn after_store_reservation(self, offset: u64) -> Option<u64> {
        match self.reservation {
            Some(reserved) => if reserved / 8 == offset / 8 {
                None
            } else {
                self.reservation
            },
            None => None,
        }
    }

    /// RAM after a store.
    pub open spec fn stored(self, offset: u64, w: Width, v: u64) -> RamState {
        RamState {
            bytes: store_le(self.bytes, offset as int, w, v),
            reservation: self.after_store_reservation(offset),
        }
    }
}

impl View for Ram {
    type V = RamState;

    open spec fn view(&self) -> RamState {
        RamState { bytes: self.data@, reservation: self.reservation }
    }
}

impl Ram {
    pub open spec fn wf(&self) -> bool {
        self.data@.len() == RAM_SIZE
    }

    /// RAM that holds zeros.
    pub fn new() -> (r: Ram)
        ensures
            r.wf(),
            r@.bytes == Seq::new(RAM_SIZE as nat, |i: int| 0u8),
            r@.reservation is None,
    {
        let data: Vec<u8> = vec![0u8; RAM_SIZE as usize];
        Ram { data, reservation: None }
    }

    pub fn read(&self, offset: u64, w: Width) -> (r: u64)
        requires
            self.wf(),
            offset + w.spec_bytes() <= RAM_SIZE,
        ensures
            r == load_le(self@.bytes, offset as int, w),
            w.holds(r),
    {
        read_le(&self.data, offset as usize, w)
    }

    pub fn write(&mut self, offset: u64, w: Width, v: u64)
        requires
            old(self).wf(),
            offset + w.spec_bytes() <= RAM_SIZE,
        ensures
            final(self).wf(),
            final(self)@ == old(self)@.stored(offset, w, v),
    {
        write_le(&mut self.data, offset as usize, w, v);
        self.try_invalidate_reservation(offset);
    }

    /// Drops the reservation if it is of the doubleword at `offset`.
    pub fn try_invalidate_reservation(&mut self, offset: u64)
        ensures
            final(self).wf() == old(self).wf(),
            final(self)@ == (RamState {
                bytes: old(self)@.bytes,
                reservation: old(self)@.after_store_reservation(offset),
            }),
    {
        match self.reservation {
            Some(reserved) => if reserved / 8 == offset / 8 {
                self.reservation = None;
            },
            None => {},
        }
    }

    pub fn clear_reservation(&mut self)
        ensures
            final(self).wf() == old(self).wf(),
            final(self)@ == (RamState { bytes: old(self)@.bytes, reservation: None }),
    {
        self.reservation = None;
    }

    pub fn reserve(&mut self, offset: u64)
        ensures
            final(self).wf() == old(self).wf(),
            final(self)@ == (RamState { bytes: old(self)@.bytes, reservation: Some(offset) }),
    {
        self.reservation = Some(offset);
    }
}

} // verus!
