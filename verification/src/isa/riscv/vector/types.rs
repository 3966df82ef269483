//! The configuration of the vector unit.
use vstd::prelude::*;

use crate::utils::Width;

verus! {

/// A register group multiplier.
#[derive(Clone, Copy, Debug, PartialEq, Eq, Structural)]
pub enum Vlmul {
    M1,
    M2,
    M4,
    M8,
    MF8,
    MF4,
    MF2,
}

impl Vlmul {
    /// The multiplier in eighths.
    pub open spec fn spec_eighths(self) -> int {
        match self {
            Vlmul::M1 => 8,
            Vlmul::M2 => 16,
            Vlmul::M4 => 32,
            Vlmul::M8 => 64,
            Vlmul::MF8 => 1,
            Vlmul::MF4 => 2,
            Vlmul::MF2 => 4,
        }
    }

    /// The multiplier that the low three bits of `vtype` encode.
    pub open spec fn of_bits(bits: u64) -> Option<Vlmul> {
        if bits == 0 {
            Some(Vlmul::M1)
        } else if bits == 1 {
            Some(Vlmul::M2)
        } else if bits == 2 {
            Some(Vlmul::M4)
        } else if bits == 3 {
            Some(Vlmul::M8)
        } else if bits == 5 {
            Some(Vlmul::MF8)
        } else if bits == 6 {
            Some(Vlmul::MF4)
        } else if bits == 7 {
            Some(Vlmul::MF2)
        } else {
            None
        }
    }

    /// The multiplier in eighths.
    pub fn eighths(self) -> (r: u64)
        ensures
            r == self.spec_eighths(),
    {
        match self {
            Vlmul::M1 => 8,
            Vlmul::M2 => 16,
            Vlmul::M4 => 32,
            Vlmul::M8 => 64,
            Vlmul::MF8 => 1,
            Vlmul::MF4 => 2,
            Vlmul::MF2 => 4,
        }
    }

    /// The multiplier that the low three bits of `vtype` encode.
    pub fn from_bits(bits: u64) -> (r: Option<Vlmul>)
        ensures
            r == Vlmul::of_bits(bits),
    {
        match bits {
            0 => Some(Vlmul::M1),
            1 => Some(Vlmul::M2),
            2 => Some(Vlmul::M4),
            3 => Some(Vlmul::M8),
            5 => Some(Vlmul::MF8),
            6 => Some(Vlmul::MF4),
            7 => Some(Vlmul::MF2),
            _ => None,
        }
    }

    /// The number of registers of a group.
    pub fn get_lmul(self) -> (r: u8)
        ensures
            r == group_regs(self.spec_eighths()),
    {
        match self {
            Vlmul::M1 => 1,
            Vlmul::M2 => 2,
            Vlmul::M4 => 4,
            Vlmul::M8 => 8,
            Vlmul::MF8 => 1,
            Vlmul::MF4 => 1,
            Vlmul::MF2 => 1,
        }
    }
}

/// The number of registers that a group of `eighths` eighths of a register takes.
pub open spec fn group_regs(eighths: int) -> int {
    if eighths >= 8 {
        eighths / 8
    } else {
        1
    }
}

/// A selected element width.
#[derive(Clone, Copy, Debug, PartialEq, Eq, Structural)]
pub enum Vsew {
    E8,
    E16,
    E32,
    E64,
}

impl Vsew {
    pub open spec fn spec_width(self) -> Width {
        match self {
            Vsew::E8 => Width::W8,
            Vsew::E16 => Width::W16,
            Vsew::E32 => Width::W32,
            Vsew::E64 => Width::W64,
        }
    }

    pub open spec fn of_bits(bits: u64) -> Option<Vsew> {
        if bits == 0 {
            Some(Vsew::E8)
        } else if bits == 1 {
            Some(Vsew::E16)
        } else if bits == 2 {
            Some(Vsew::E32)
        } else if bits == 3 {
            Some(Vsew::E64)
        } else {
            None
        }
    }

    pub fn width(self) -> (r: Width)
        ensures
            r == self.spec_width(),
    {
        match self {
            Vsew::E8 => Width::W8,
            Vsew::E16 => Width::W16,
            Vsew::E32 => Width::W32,
            Vsew::E64 => Width::W64,
        }
    }

    pub fn from_bits(bits: u64) -> (r: Option<Vsew>)
        ensures
            r == Vsew::of_bits(bits),
    {
        match bits {
            0 => Some(Vsew::E8),
            1 => Some(Vsew::E16),
            2 => Some(Vsew::E32),
            3 => Some(Vsew::E64),
            _ => None,
        }
    }

    /// The element width in bytes.
    pub fn into_byte_width(self) -> (r: usize)
        ensures
            r == self.spec_width().spec_bytes(),
    {
        self.width().bytes()
    }
}

/// The greatest number of elements of width `w` that a group holds.
pub open spec fn vlmax_of(vlmul: Vlmul, w: Width) -> int {
    2 * vlmul.spec_eighths() / w.spec_bytes()
}

/// The greatest number of elements of width `w` that a group holds.
pub fn vlmax(vlmul: Vlmul, w: Width) -> (r: u64)
    ensures
        r == vlmax_of(vlmul, w),
        r <= 128,
{
    let bytes: u64 = 2 * vlmul.eighths();
    match w {
        Width::W8 => bytes,
        Width::W16 => bytes / 2,
        Width::W32 => bytes / 4,
        Width::W64 => bytes / 8,
    }
}

/// How the vector unit is set up.
#[derive(Clone, Copy, Debug, PartialEq, Eq, Structural)]
pub struct VectorConfig {
    pub vlmul: Vlmul,
    pub vsew: Vsew,
    pub vta: bool,
    pub vma: bool,
    /// The number of elements that an instruction works on.
    pub vl: u16,
}

impl VectorConfig {
    /// The elements fit in a group.
    pub open spec fn wf(self) -> bool {
        self.vl <= vlmax_of(self.vlmul, self.vsew.spec_width())
    }

    /// The group multiplier of operands of width `w`, in eighths. It is 0 where there is none.
    pub open spec fn emul(self, w: Width) -> int {
        w.spec_bytes() * self.vlmul.spec_eighths() / self.vsew.spec_width().spec_bytes()
    }

    /// Whether a group of operands of width `w` exists.
    pub open spec fn emul_ok(self, w: Width) -> bool {
        &&& w.spec_bytes() * self.vlmul.spec_eighths() % self.vsew.spec_width().spec_bytes() == 0
        &&& 1 <= self.emul(w) <= 64
    }

    /// Whether `reg` can name a group of operands of width `w`.
    pub open spec fn group_ok(self, reg: u8, w: Width) -> bool {
        &&& self.emul_ok(w)
        &&& reg < 32
        &&& reg as int % group_regs(self.emul(w)) == 0
    }

    /// The number of registers of a group of operands of width `w`, where the group exists.
    pub fn group_size(self, w: Width) -> (r: Option<u8>)
        ensures
            match r {
                Some(n) => self.emul_ok(w) && n == group_regs(self.emul(w)) && (n == 1 || n == 2
                    || n == 4 || n == 8),
                None => !self.emul_ok(w),
            },
    {
        let p: u64 = (w.bytes() as u64) * self.vlmul.eighths();
        let s: u64 = self.vsew.into_byte_width() as u64;
        if p % s != 0 {
            return None;
        }
        let e: u64 = p / s;
        if e < 1 || e > 64 {
            return None;
        }
        match e {
            64 => Some(8),
            32 => Some(4),
            16 => Some(2),
            _ => Some(1),
        }
    }

    /// Whether `reg` can name a group of operands of width `w`.
    pub fn check_group(self, reg: u8, w: Width) -> (r: bool)
        ensures
            r == self.group_ok(reg, w),
    {
        match self.group_size(w) {
            Some(n) => reg < 32 && reg % n == 0,
            None => false,
        }
    }
}

/// The bytes of the elements that an instruction works on fit in the registers of a group, for
/// `vl` elements of `wb` bytes under a selected width of `sb` bytes and `e` eighths of a register.
proof fn lemma_group_bytes(sb: int, wb: int, e: int, vl: int, reg: int)
    requires
        sb == 1 || sb == 2 || sb == 4 || sb == 8,
        wb == 1 || wb == 2 || wb == 4 || wb == 8,
        e == 1 || e == 2 || e == 4 || e == 8 || e == 16 || e == 32 || e == 64,
        0 <= vl <= 2 * e / sb,
        wb * e % sb == 0,
        1 <= wb * e / sb <= 64,
        0 <= reg < 32,
        reg % group_regs(wb * e / sb) == 0,
    ensures
        vl * wb <= 16 * group_regs(wb * e / sb),
        reg + group_regs(wb * e / sb) <= 32,
{
    let m = wb * e / sb;
    if sb == 1 {
        if wb == 1 {
            assert(1 * e == 1 * m);
        } else if wb == 2 {
            assert(2 * e == 1 * m);
        } else if wb == 4 {
            assert(4 * e == 1 * m);
        } else if wb == 8 {
            assert(8 * e == 1 * m);
        }
    } else if sb == 2 {
        if wb == 1 {
            assert(1 * e == 2 * m);
        } else if wb == 2 {
            assert(2 * e == 2 * m);
        } else if wb == 4 {
            assert(4 * e == 2 * m);
        } else if wb == 8 {
            assert(8 * e == 2 * m);
        }
    } else if sb == 4 {
        if wb == 1 {
            assert(1 * e == 4 * m);
        } else if wb == 2 {
            assert(2 * e == 4 * m);
        } else if wb == 4 {
            assert(4 * e == 4 * m);
        } else if wb == 8 {
            assert(8 * e == 4 * m);
        }
    } else if sb == 8 {
        if wb == 1 {
            assert(1 * e == 8 * m);
        } else if wb == 2 {
            assert(2 * e == 8 * m);
        } else if wb == 4 {
            assert(4 * e == 8 * m);
        } else if wb == 8 {
            assert(8 * e == 8 * m);
        }
    }
    assert(m == 1 || m == 2 || m == 4 || m == 8 || m == 16 || m == 32 || m == 64);
    let g = group_regs(m);
    assert(g == 1 || g == 2 || g == 4 || g == 8);
    assert(2 * m <= 16 * g);
    assert(reg + g <= 32) by {
        if g == 2 {
            assert(reg % 2 == 0);
        } else if g == 4 {
            assert(reg % 4 == 0);
        } else if g == 8 {
            assert(reg % 8 == 0);
        }
    }
    assert(vl * wb <= 2 * m) by {
        if wb == 1 {
        } else if wb == 2 {
        } else if wb == 4 {
        }
    }
}

/// Every element of a group that an instruction works on lies in the register file.
pub proof fn lemma_element_in_file(c: VectorConfig, reg: u8, w: Width, i: int)
    requires
        c.wf(),
        c.group_ok(reg, w),
        0 <= i < c.vl,
    ensures
        reg * 16 + i * w.spec_bytes() + w.spec_bytes() <= 512,
        0 <= i * w.spec_bytes(),
        reg + group_regs(c.emul(w)) <= 32,
        i * w.spec_bytes() + w.spec_bytes() <= 16 * group_regs(c.emul(w)),
{
    let wb = w.spec_bytes();
    lemma_group_bytes(
        c.vsew.spec_width().spec_bytes(),
        wb,
        c.vlmul.spec_eighths(),
        c.vl as int,
        reg as int,
    );
    assert(i * wb + wb <= c.vl * wb && 0 <= i * wb) by (nonlinear_arith)
        requires
            0 <= i < c.vl,
            wb >= 1,
    ;
}

} // verus!
