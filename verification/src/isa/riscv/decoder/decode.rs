//! Words, decoded instructions and the decoder.
use vstd::prelude::*;
use vstd::string::*;

use crate::isa::cache::Cacheable;
use crate::isa::riscv::instruction::exec_mapping;
use crate::isa::riscv::instruction::instr_table::RiscvInstr;
use crate::isa::riscv::instruction::RVInstrInfo;

use super::opcode;
use super::opcode::Extension;
use super::operands;

verus! {

/// The bytes of an instruction as a word. The upper half of a two-byte instruction is clear.
#[derive(Clone, Copy, Debug, PartialEq, Eq, Structural)]
pub struct RawInstr {
    pub val: u32,
}

impl RawInstr {
    /// The length in bytes that the low bits of an instruction give.
    pub open spec fn spec_len(self) -> u64 {
        if self.val % 4 == 3 {
            4
        } else {
            2
        }
    }

    pub fn new(val: u32) -> (r: RawInstr)
        ensures
            r.val == val,
    {
        RawInstr { val }
    }

    /// The length in bytes that the low bits of an instruction give.
    pub fn len(&self) -> (r: u64)
        ensures
            r == self.spec_len(),
    {
        if self.val % 4 == 3 {
            4
        } else {
            2
        }
    }
}

/// A decoded instruction.
#[derive(Clone, Copy, Debug, PartialEq, Eq, Structural)]
pub struct DecodeInstr {
    pub instr: RiscvInstr,
    pub info: RVInstrInfo,
    pub len: u64,
}

impl DecodeInstr {
    /// Whether the operands and the length are such as the instruction has.
    pub open spec fn wf(self) -> bool {
        &&& exec_mapping::exec_func_of(self.instr).takes(self.info)
        &&& self.info.imm_ok()
        &&& self.len == if self.instr.compressed() {
            2u64
        } else {
            4u64
        }
    }
}

impl Cacheable for DecodeInstr {
    const ADDR_SHIFT_BITS: usize = 1;
}

/// Instructions are at least two bytes apart.
pub proof fn lemma_instr_spacing()
    ensures
        DecodeInstr::ADDR_SHIFT_BITS == 1,
{
}

/// The bits of `misa` that a letter of an ISA string stands for.
pub open spec fn letter_bits(c: char) -> Option<u64> {
    if c == 'I' {
        Some(0x100)
    } else if c == 'M' {
        Some(0x1000)
    } else if c == 'A' {
        Some(0x1)
    } else if c == 'F' {
        Some(0x20)
    } else if c == 'D' {
        Some(0x8)
    } else if c == 'C' {
        Some(0x4)
    } else if c == 'V' {
        Some(0x20_0000)
    } else if c == 'S' {
        Some(0x4_0000)
    } else if c == 'U' {
        Some(0x10_0000)
    } else if c == 'G' {
        Some(0x1129)
    } else {
        None
    }
}

fn bits_of_letter(c: char) -> (r: Option<u64>)
    ensures
        r == letter_bits(c),
{
    match c {
        'I' => Some(0x100),
        'M' => Some(0x1000),
        'A' => Some(0x1),
        'F' => Some(0x20),
        'D' => Some(0x8),
        'C' => Some(0x4),
        'V' => Some(0x20_0000),
        'S' => Some(0x4_0000),
        'U' => Some(0x10_0000),
        'G' => Some(0x1129),
        _ => None,
    }
}

/// The bits of `misa` that the letters of an ISA string before `n` stand for.
pub open spec fn letters_bits(s: Seq<char>, n: int) -> Option<u64>
    decreases n,
{
    if n <= 4 {
        Some(0)
    } else {
        match (letters_bits(s, n - 1), letter_bits(s[n - 1])) {
            (Some(before), Some(bits)) => Some(before | bits),
            _ => None,
        }
    }
}

/// The extensions that an ISA string names: `RV64` and then a letter for each.
pub open spec fn isa_bits(s: Seq<char>) -> Option<u64> {
    if s.len() >= 5 && s[0] == 'R' && s[1] == 'V' && s[2] == '6' && s[3] == '4' {
        letters_bits(s, s.len() as int)
    } else {
        None
    }
}

/// Decodes the instructions of the extensions that it knows.
#[derive(Clone, Copy, Debug, PartialEq, Eq, Structural)]
pub struct Decoder {
    /// The extensions, as bits of `misa`.
    pub extension: u64,
}

impl Decoder {
    /// Whether the decoder knows an extension. The base instructions are always known.
    pub open spec fn knows(self, e: Extension) -> bool {
        match e {
            Extension::I => true,
            Extension::M => self.extension / 0x1000 % 2 == 1,
            Extension::A => self.extension % 2 == 1,
            Extension::F => self.extension / 0x20 % 2 == 1,
            Extension::D => self.extension / 0x8 % 2 == 1,
            Extension::C => self.extension / 0x4 % 2 == 1,
            Extension::V => self.extension / 0x20_0000 % 2 == 1,
        }
    }

    /// Whether the decoder knows an instruction. The two-byte loads and stores of double-precision
    /// numbers belong to two extensions.
    pub open spec fn knows_instr(self, instr: RiscvInstr) -> bool {
        self.knows(instr.spec_extension()) && match instr {
            RiscvInstr::C_FLD | RiscvInstr::C_FSD | RiscvInstr::C_FLDSP | RiscvInstr::C_FSDSP => {
                self.knows(Extension::D)
            },
            _ => true,
        }
    }

    /// What a word decodes to.
    #[verifier::opaque]
    pub open spec fn decoded(self, raw: RawInstr) -> Option<DecodeInstr> {
        match opcode::any_instr(raw.val) {
            Some(instr) => if self.knows_instr(instr) {
                Some(
                    DecodeInstr {
                        instr,
                        info: operands::info_of(instr, raw.val),
                        len: raw.spec_len(),
                    },
                )
            } else {
                None
            },
            None => None,
        }
    }

    /// A decoder for RV64GC.
    pub fn new() -> (r: Decoder)
        ensures
            r.extension == 0x112d,
    {
        Decoder { extension: 0x112d }
    }

    /// A decoder for the extensions that an ISA string names.
    pub fn from_isa_str(isa: &str) -> (r: Option<Decoder>)
        ensures
            match r {
                Some(decoder) => isa_bits(isa@) == Some(decoder.extension),
                None => isa_bits(isa@) is None,
            },
    {
        let n: usize = isa.unicode_len();
        if n < 5 || isa.get_char(0) != 'R' || isa.get_char(1) != 'V' || isa.get_char(2) != '6'
            || isa.get_char(3) != '4' {
            return None;
        }
        let mut extension: u64 = 0;
        let mut i: usize = 4;
        while i < n
            invariant
                4 <= i <= n,
                n == isa@.len(),
                letters_bits(isa@, i as int) == Some(extension),
            decreases n - i,
        {
            match bits_of_letter(isa.get_char(i)) {
                Some(bits) => {
                    extension = extension | bits;
                },
                None => {
                    proof {
                        lemma_bad_letter(isa@, i as int + 1, n as int);
                    }
                    return None;
                },
            }
            i = i + 1;
        }
        Some(Decoder { extension })
    }

    /// The extensions as `misa` reports them. The hart has supervisor and user mode.
    pub fn extension_bits(&self) -> (r: u64)
        ensures
            r == self.extension | 0x14_0000,
    {
        self.extension | 0x14_0000
    }

    fn has(&self, e: Extension) -> (r: bool)
        ensures
            r == self.knows(e),
    {
        match e {
            Extension::I => true,
            Extension::M => self.extension / 0x1000 % 2 == 1,
            Extension::A => self.extension % 2 == 1,
            Extension::F => self.extension / 0x20 % 2 == 1,
            Extension::D => self.extension / 0x8 % 2 == 1,
            Extension::C => self.extension / 0x4 % 2 == 1,
            Extension::V => self.extension / 0x20_0000 % 2 == 1,
        }
    }

    /// Decodes a word.
    pub fn decode(&self, raw: RawInstr) -> (r: Option<DecodeInstr>)
        ensures
            r == self.decoded(raw),
            r is Some ==> r->0.wf(),
    {
        proof {
            reveal(Decoder::decoded);
            lemma_decoded_wf(*self, raw);
        }
        match opcode::decode_any(raw.val) {
            Some(instr) => {
                let known = self.has(instr.extension()) && match instr {
                    RiscvInstr::C_FLD
                    | RiscvInstr::C_FSD
                    | RiscvInstr::C_FLDSP
                    | RiscvInstr::C_FSDSP => self.has(Extension::D),
                    _ => true,
                };
                if known {
                    let info = operands::decode_info(instr, raw.val);
                    Some(DecodeInstr { instr, info, len: raw.len() })
                } else {
                    None
                }
            },
            None => None,
        }
    }
}

/// What a word decodes to has operands and a length such as the instruction has.
pub proof fn lemma_decoded_wf(decoder: Decoder, raw: RawInstr)
    ensures
        decoder.decoded(raw) is Some ==> decoder.decoded(raw)->0.wf(),
{
    reveal(Decoder::decoded);
    if let Some(instr) = opcode::any_instr(raw.val) {
        operands::law_decoded_operands_fit(instr, raw.val);
        operands::law_decoded_immediates_are_words(instr, raw.val);
        opcode::law_length(raw.val);
    }
}

/// One letter that is not known spoils the string.
proof fn lemma_bad_letter(s: Seq<char>, i: int, n: int)
    requires
        4 < i <= n,
        letters_bits(s, i) is None,
    ensures
        letters_bits(s, n) is None,
    decreases n,
{
    if i < n {
        lemma_bad_letter(s, i, n - 1);
    }
}

} // verus!
