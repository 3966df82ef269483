//! The order of the instructions: the one in which they are listed.
use vstd::prelude::*;

use crate::isa::riscv::vector::types::Vsew;

use super::instr_table::RiscvInstr;

verus! {

/// Where a width stands among the widths.
pub open spec fn width_place(w: Vsew) -> u16 {
    match w {
        Vsew::E8 => 0,
        Vsew::E16 => 1,
        Vsew::E32 => 2,
        Vsew::E64 => 3,
    }
}

fn place_of_width(w: Vsew) -> (r: u16)
    ensures
        r == width_place(w),
        r < 4,
{
    match w {
        Vsew::E8 => 0,
        Vsew::E16 => 1,
        Vsew::E32 => 2,
        Vsew::E64 => 3,
    }
}

/// Where an instruction stands among all, if it is in the first part of the list.
#[verifier::opaque]
pub open spec fn part_1(instr: RiscvInstr) -> Option<u16> {
    match instr {
        RiscvInstr::ADD => Some(0),
        RiscvInstr::ADDI => Some(1),
        RiscvInstr::ADDW => Some(2),
        RiscvInstr::ADDIW => Some(3),
        RiscvInstr::SUB => Some(4),
        RiscvInstr::SUBW => Some(5),
        RiscvInstr::MUL => Some(6),
        RiscvInstr::MULH => Some(7),
        RiscvInstr::MULHU => Some(8),
        RiscvInstr::MULHSU => Some(9),
        RiscvInstr::DIV => Some(10),
        RiscvInstr::DIVU => Some(11),
        RiscvInstr::REM => Some(12),
        RiscvInstr::REMU => Some(13),
        RiscvInstr::MULW => Some(14),
        RiscvInstr::DIVW => Some(15),
        RiscvInstr::DIVUW => Some(16),
        RiscvInstr::REMW => Some(17),
        RiscvInstr::REMUW => Some(18),
        RiscvInstr::SLL => Some(19),
        RiscvInstr::SLLI => Some(20),
        RiscvInstr::SRL => Some(21),
        RiscvInstr::SRLI => Some(22),
        RiscvInstr::SRA => Some(23),
        RiscvInstr::SRAI => Some(24),
        RiscvInstr::SRAW => Some(25),
        RiscvInstr::SRAIW => Some(26),
        RiscvInstr::SLLW => Some(27),
        RiscvInstr::SLLIW => Some(28),
        RiscvInstr::SRLW => Some(29),
        RiscvInstr::SRLIW => Some(30),
        RiscvInstr::SLT => Some(31),
        RiscvInstr::SLTI => Some(32),
        RiscvInstr::SLTU => Some(33),
        RiscvInstr::SLTIU => Some(34),
        RiscvInstr::AND => Some(35),
        RiscvInstr::ANDI => Some(36),
        RiscvInstr::OR => Some(37),
        RiscvInstr::ORI => Some(38),
        RiscvInstr::XOR => Some(39),
        RiscvInstr::XORI => Some(40),
        RiscvInstr::BEQ => Some(41),
        RiscvInstr::BNE => Some(42),
        RiscvInstr::BLT => Some(43),
        RiscvInstr::BGE => Some(44),
        RiscvInstr::BLTU => Some(45),
        RiscvInstr::BGEU => Some(46),
        RiscvInstr::LB => Some(47),
        _ => None,
    }
}

fn find_part_1(instr: RiscvInstr) -> (r: Option<u16>)
    ensures
        r == part_1(instr),
{
    proof {
        reveal(part_1);
    }
    match instr {
        RiscvInstr::ADD => Some(0),
        RiscvInstr::ADDI => Some(1),
        RiscvInstr::ADDW => Some(2),
        RiscvInstr::ADDIW => Some(3),
        RiscvInstr::SUB => Some(4),
        RiscvInstr::SUBW => Some(5),
        RiscvInstr::MUL => Some(6),
        RiscvInstr::MULH => Some(7),
        RiscvInstr::MULHU => Some(8),
        RiscvInstr::MULHSU => Some(9),
        RiscvInstr::DIV => Some(10),
        RiscvInstr::DIVU => Some(11),
        RiscvInstr::REM => Some(12),
        RiscvInstr::REMU => Some(13),
        RiscvInstr::MULW => Some(14),
        RiscvInstr::DIVW => Some(15),
        RiscvInstr::DIVUW => Some(16),
        RiscvInstr::REMW => Some(17),
        RiscvInstr::REMUW => Some(18),
        RiscvInstr::SLL => Some(19),
        RiscvInstr::SLLI => Some(20),
        RiscvInstr::SRL => Some(21),
        RiscvInstr::SRLI => Some(22),
        RiscvInstr::SRA => Some(23),
        RiscvInstr::SRAI => Some(24),
        RiscvInstr::SRAW => Some(25),
        RiscvInstr::SRAIW => Some(26),
        RiscvInstr::SLLW => Some(27),
        RiscvInstr::SLLIW => Some(28),
        RiscvInstr::SRLW => Some(29),
        RiscvInstr::SRLIW => Some(30),
        RiscvInstr::SLT => Some(31),
        RiscvInstr::SLTI => Some(32),
        RiscvInstr::SLTU => Some(33),
        RiscvInstr::SLTIU => Some(34),
        RiscvInstr::AND => Some(35),
        RiscvInstr::ANDI => Some(36),
        RiscvInstr::OR => Some(37),
        RiscvInstr::ORI => Some(38),
        RiscvInstr::XOR => Some(39),
        RiscvInstr::XORI => Some(40),
        RiscvInstr::BEQ => Some(41),
        RiscvInstr::BNE => Some(42),
        RiscvInstr::BLT => Some(43),
        RiscvInstr::BGE => Some(44),
        RiscvInstr::BLTU => Some(45),
        RiscvInstr::BGEU => Some(46),
        RiscvInstr::LB => Some(47),
        _ => None,
    }
}

/// Where an instruction stands among all, if it is in the second part of the list.
#[verifier::opaque]
pub open spec fn part_2(instr: RiscvInstr) -> Option<u16> {
    match instr {
        RiscvInstr::LBU => Some(48),
        RiscvInstr::LH => Some(49),
        RiscvInstr::LHU => Some(50),
        RiscvInstr::LW => Some(51),
        RiscvInstr::LWU => Some(52),
        RiscvInstr::LD => Some(53),
        RiscvInstr::SB => Some(54),
        RiscvInstr::SH => Some(55),
        RiscvInstr::SW => Some(56),
        RiscvInstr::SD => Some(57),
        RiscvInstr::JAL => Some(58),
        RiscvInstr::JALR => Some(59),
        RiscvInstr::AUIPC => Some(60),
        RiscvInstr::LUI => Some(61),
        RiscvInstr::EBREAK => Some(62),
        RiscvInstr::ECALL => Some(63),
        RiscvInstr::FENCE => Some(64),
        RiscvInstr::FENCE_I => Some(65),
        RiscvInstr::CSRRW => Some(66),
        RiscvInstr::CSRRC => Some(67),
        RiscvInstr::CSRRS => Some(68),
        RiscvInstr::CSRRWI => Some(69),
        RiscvInstr::CSRRCI => Some(70),
        RiscvInstr::CSRRSI => Some(71),
        RiscvInstr::MRET => Some(72),
        RiscvInstr::WFI => Some(73),
        RiscvInstr::FADD_S => Some(74),
        RiscvInstr::FSUB_S => Some(75),
        RiscvInstr::FMUL_S => Some(76),
        RiscvInstr::FDIV_S => Some(77),
        RiscvInstr::FMADD_S => Some(78),
        RiscvInstr::FNMADD_S => Some(79),
        RiscvInstr::FMSUB_S => Some(80),
        RiscvInstr::FNMSUB_S => Some(81),
        RiscvInstr::FSQRT_S => Some(82),
        RiscvInstr::FMIN_S => Some(83),
        RiscvInstr::FMAX_S => Some(84),
        RiscvInstr::FADD_D => Some(85),
        RiscvInstr::FSUB_D => Some(86),
        RiscvInstr::FMUL_D => Some(87),
        RiscvInstr::FDIV_D => Some(88),
        RiscvInstr::FMADD_D => Some(89),
        RiscvInstr::FNMADD_D => Some(90),
        RiscvInstr::FMSUB_D => Some(91),
        RiscvInstr::FNMSUB_D => Some(92),
        RiscvInstr::FSQRT_D => Some(93),
        RiscvInstr::FMIN_D => Some(94),
        RiscvInstr::FMAX_D => Some(95),
        _ => None,
    }
}

fn find_part_2(instr: RiscvInstr) -> (r: Option<u16>)
    ensures
        r == part_2(instr),
{
    proof {
        reveal(part_2);
    }
    match instr {
        RiscvInstr::LBU => Some(48),
        RiscvInstr::LH => Some(49),
        RiscvInstr::LHU => Some(50),
        RiscvInstr::LW => Some(51),
        RiscvInstr::LWU => Some(52),
        RiscvInstr::LD => Some(53),
        RiscvInstr::SB => Some(54),
        RiscvInstr::SH => Some(55),
        RiscvInstr::SW => Some(56),
        RiscvInstr::SD => Some(57),
        RiscvInstr::JAL => Some(58),
        RiscvInstr::JALR => Some(59),
        RiscvInstr::AUIPC => Some(60),
        RiscvInstr::LUI => Some(61),
        RiscvInstr::EBREAK => Some(62),
        RiscvInstr::ECALL => Some(63),
        RiscvInstr::FENCE => Some(64),
        RiscvInstr::FENCE_I => Some(65),
        RiscvInstr::CSRRW => Some(66),
        RiscvInstr::CSRRC => Some(67),
        RiscvInstr::CSRRS => Some(68),
        RiscvInstr::CSRRWI => Some(69),
        RiscvInstr::CSRRCI => Some(70),
        RiscvInstr::CSRRSI => Some(71),
        RiscvInstr::MRET => Some(72),
        RiscvInstr::WFI => Some(73),
        RiscvInstr::FADD_S => Some(74),
        RiscvInstr::FSUB_S => Some(75),
        RiscvInstr::FMUL_S => Some(76),
        RiscvInstr::FDIV_S => Some(77),
        RiscvInstr::FMADD_S => Some(78),
        RiscvInstr::FNMADD_S => Some(79),
        RiscvInstr::FMSUB_S => Some(80),
        RiscvInstr::FNMSUB_S => Some(81),
        RiscvInstr::FSQRT_S => Some(82),
        RiscvInstr::FMIN_S => Some(83),
        RiscvInstr::FMAX_S => Some(84),
        RiscvInstr::FADD_D => Some(85),
        RiscvInstr::FSUB_D => Some(86),
        RiscvInstr::FMUL_D => Some(87),
        RiscvInstr::FDIV_D => Some(88),
        RiscvInstr::FMADD_D => Some(89),
        RiscvInstr::FNMADD_D => Some(90),
        RiscvInstr::FMSUB_D => Some(91),
        RiscvInstr::FNMSUB_D => Some(92),
        RiscvInstr::FSQRT_D => Some(93),
        RiscvInstr::FMIN_D => Some(94),
        RiscvInstr::FMAX_D => Some(95),
        _ => None,
    }
}

/// Where an instruction stands among all, if it is in the third part of the list.
#[verifier::opaque]
pub open spec fn part_3(instr: RiscvInstr) -> Option<u16> {
    match instr {
        RiscvInstr::FSGNJ_S => Some(96),
        RiscvInstr::FSGNJN_S => Some(97),
        RiscvInstr::FSGNJX_S => Some(98),
        RiscvInstr::FSGNJ_D => Some(99),
        RiscvInstr::FSGNJN_D => Some(100),
        RiscvInstr::FSGNJX_D => Some(101),
        RiscvInstr::FCVT_W_S => Some(102),
        RiscvInstr::FCVT_WU_S => Some(103),
        RiscvInstr::FCVT_S_W => Some(104),
        RiscvInstr::FCVT_S_WU => Some(105),
        RiscvInstr::FCVT_L_S => Some(106),
        RiscvInstr::FCVT_LU_S => Some(107),
        RiscvInstr::FCVT_S_L => Some(108),
        RiscvInstr::FCVT_S_LU => Some(109),
        RiscvInstr::FCVT_W_D => Some(110),
        RiscvInstr::FCVT_WU_D => Some(111),
        RiscvInstr::FCVT_D_W => Some(112),
        RiscvInstr::FCVT_D_WU => Some(113),
        RiscvInstr::FCVT_L_D => Some(114),
        RiscvInstr::FCVT_LU_D => Some(115),
        RiscvInstr::FCVT_D_L => Some(116),
        RiscvInstr::FCVT_D_LU => Some(117),
        RiscvInstr::FCVT_D_S => Some(118),
        RiscvInstr::FCVT_S_D => Some(119),
        RiscvInstr::FEQ_S => Some(120),
        RiscvInstr::FLT_S => Some(121),
        RiscvInstr::FLE_S => Some(122),
        RiscvInstr::FEQ_D => Some(123),
        RiscvInstr::FLT_D => Some(124),
        RiscvInstr::FLE_D => Some(125),
        RiscvInstr::FLW => Some(126),
        RiscvInstr::FSW => Some(127),
        RiscvInstr::FLD => Some(128),
        RiscvInstr::FSD => Some(129),
        RiscvInstr::FMV_X_W => Some(130),
        RiscvInstr::FMV_W_X => Some(131),
        RiscvInstr::FMV_X_D => Some(132),
        RiscvInstr::FMV_D_X => Some(133),
        RiscvInstr::FCLASS_S => Some(134),
        RiscvInstr::FCLASS_D => Some(135),
        RiscvInstr::AMOADD_W => Some(136),
        RiscvInstr::AMOAND_W => Some(137),
        RiscvInstr::AMOOR_W => Some(138),
        RiscvInstr::AMOXOR_W => Some(139),
        RiscvInstr::AMOADD_D => Some(140),
        RiscvInstr::AMOAND_D => Some(141),
        RiscvInstr::AMOOR_D => Some(142),
        RiscvInstr::AMOXOR_D => Some(143),
        _ => None,
    }
}

fn find_part_3(instr: RiscvInstr) -> (r: Option<u16>)
    ensures
        r == part_3(instr),
{
    proof {
        reveal(part_3);
    }
    match instr {
        RiscvInstr::FSGNJ_S => Some(96),
        RiscvInstr::FSGNJN_S => Some(97),
        RiscvInstr::FSGNJX_S => Some(98),
        RiscvInstr::FSGNJ_D => Some(99),
        RiscvInstr::FSGNJN_D => Some(100),
        RiscvInstr::FSGNJX_D => Some(101),
        RiscvInstr::FCVT_W_S => Some(102),
        RiscvInstr::FCVT_WU_S => Some(103),
        RiscvInstr::FCVT_S_W => Some(104),
        RiscvInstr::FCVT_S_WU => Some(105),
        RiscvInstr::FCVT_L_S => Some(106),
        RiscvInstr::FCVT_LU_S => Some(107),
        RiscvInstr::FCVT_S_L => Some(108),
        RiscvInstr::FCVT_S_LU => Some(109),
        RiscvInstr::FCVT_W_D => Some(110),
        RiscvInstr::FCVT_WU_D => Some(111),
        RiscvInstr::FCVT_D_W => Some(112),
        RiscvInstr::FCVT_D_WU => Some(113),
        RiscvInstr::FCVT_L_D => Some(114),
        RiscvInstr::FCVT_LU_D => Some(115),
        RiscvInstr::FCVT_D_L => Some(116),
        RiscvInstr::FCVT_D_LU => Some(117),
        RiscvInstr::FCVT_D_S => Some(118),
        RiscvInstr::FCVT_S_D => Some(119),
        RiscvInstr::FEQ_S => Some(120),
        RiscvInstr::FLT_S => Some(121),
        RiscvInstr::FLE_S => Some(122),
        RiscvInstr::FEQ_D => Some(123),
        RiscvInstr::FLT_D => Some(124),
        RiscvInstr::FLE_D => Some(125),
        RiscvInstr::FLW => Some(126),
        RiscvInstr::FSW => Some(127),
        RiscvInstr::FLD => Some(128),
        RiscvInstr::FSD => Some(129),
        RiscvInstr::FMV_X_W => Some(130),
        RiscvInstr::FMV_W_X => Some(131),
        RiscvInstr::FMV_X_D => Some(132),
        RiscvInstr::FMV_D_X => Some(133),
        RiscvInstr::FCLASS_S => Some(134),
        RiscvInstr::FCLASS_D => Some(135),
        RiscvInstr::AMOADD_W => Some(136),
        RiscvInstr::AMOAND_W => Some(137),
        RiscvInstr::AMOOR_W => Some(138),
        RiscvInstr::AMOXOR_W => Some(139),
        RiscvInstr::AMOADD_D => Some(140),
        RiscvInstr::AMOAND_D => Some(141),
        RiscvInstr::AMOOR_D => Some(142),
        RiscvInstr::AMOXOR_D => Some(143),
        _ => None,
    }
}

/// Where an instruction stands among all, if it is in the fourth part of the list.
#[verifier::opaque]
pub open spec fn part_4(instr: RiscvInstr) -> Option<u16> {
    match instr {
        RiscvInstr::AMOSWAP_W => Some(144),
        RiscvInstr::AMOSWAP_D => Some(145),
        RiscvInstr::AMOMAX_W => Some(146),
        RiscvInstr::AMOMIN_W => Some(147),
        RiscvInstr::AMOMAXU_W => Some(148),
        RiscvInstr::AMOMINU_W => Some(149),
        RiscvInstr::AMOMAX_D => Some(150),
        RiscvInstr::AMOMIN_D => Some(151),
        RiscvInstr::AMOMAXU_D => Some(152),
        RiscvInstr::AMOMINU_D => Some(153),
        RiscvInstr::LR_W => Some(154),
        RiscvInstr::SC_W => Some(155),
        RiscvInstr::LR_D => Some(156),
        RiscvInstr::SC_D => Some(157),
        RiscvInstr::SRET => Some(158),
        RiscvInstr::SFENCE_VMA => Some(159),
        RiscvInstr::C_ADD => Some(160),
        RiscvInstr::C_ADDI => Some(161),
        RiscvInstr::C_ADDI16SP => Some(162),
        RiscvInstr::C_ADDW => Some(163),
        RiscvInstr::C_ADDIW => Some(164),
        RiscvInstr::C_ADDI4SPN => Some(165),
        RiscvInstr::C_SLLI => Some(166),
        RiscvInstr::C_SRLI => Some(167),
        RiscvInstr::C_SRAI => Some(168),
        RiscvInstr::C_MV => Some(169),
        RiscvInstr::C_AND => Some(170),
        RiscvInstr::C_ANDI => Some(171),
        RiscvInstr::C_OR => Some(172),
        RiscvInstr::C_XOR => Some(173),
        RiscvInstr::C_SUB => Some(174),
        RiscvInstr::C_SUBW => Some(175),
        RiscvInstr::C_NOP => Some(176),
        RiscvInstr::C_EBREAK => Some(177),
        RiscvInstr::C_LI => Some(178),
        RiscvInstr::C_LUI => Some(179),
        RiscvInstr::C_LW => Some(180),
        RiscvInstr::C_LD => Some(181),
        RiscvInstr::C_LWSP => Some(182),
        RiscvInstr::C_LDSP => Some(183),
        RiscvInstr::C_SW => Some(184),
        RiscvInstr::C_SD => Some(185),
        RiscvInstr::C_SWSP => Some(186),
        RiscvInstr::C_SDSP => Some(187),
        RiscvInstr::C_FLW => Some(188),
        RiscvInstr::C_FLD => Some(189),
        RiscvInstr::C_FLWSP => Some(190),
        RiscvInstr::C_FLDSP => Some(191),
        _ => None,
    }
}

fn find_part_4(instr: RiscvInstr) -> (r: Option<u16>)
    ensures
        r == part_4(instr),
{
    proof {
        reveal(part_4);
    }
    match instr {
        RiscvInstr::AMOSWAP_W => Some(144),
        RiscvInstr::AMOSWAP_D => Some(145),
        RiscvInstr::AMOMAX_W => Some(146),
        RiscvInstr::AMOMIN_W => Some(147),
        RiscvInstr::AMOMAXU_W => Some(148),
        RiscvInstr::AMOMINU_W => Some(149),
        RiscvInstr::AMOMAX_D => Some(150),
        RiscvInstr::AMOMIN_D => Some(151),
        RiscvInstr::AMOMAXU_D => Some(152),
        RiscvInstr::AMOMINU_D => Some(153),
        RiscvInstr::LR_W => Some(154),
        RiscvInstr::SC_W => Some(155),
        RiscvInstr::LR_D => Some(156),
        RiscvInstr::SC_D => Some(157),
        RiscvInstr::SRET => Some(158),
        RiscvInstr::SFENCE_VMA => Some(159),
        RiscvInstr::C_ADD => Some(160),
        RiscvInstr::C_ADDI => Some(161),
        RiscvInstr::C_ADDI16SP => Some(162),
        RiscvInstr::C_ADDW => Some(163),
        RiscvInstr::C_ADDIW => Some(164),
        RiscvInstr::C_ADDI4SPN => Some(165),
        RiscvInstr::C_SLLI => Some(166),
        RiscvInstr::C_SRLI => Some(167),
        RiscvInstr::C_SRAI => Some(168),
        RiscvInstr::C_MV => Some(169),
        RiscvInstr::C_AND => Some(170),
        RiscvInstr::C_ANDI => Some(171),
        RiscvInstr::C_OR => Some(172),
        RiscvInstr::C_XOR => Some(173),
        RiscvInstr::C_SUB => Some(174),
        RiscvInstr::C_SUBW => Some(175),
        RiscvInstr::C_NOP => Some(176),
        RiscvInstr::C_EBREAK => Some(177),
        RiscvInstr::C_LI => Some(178),
        RiscvInstr::C_LUI => Some(179),
        RiscvInstr::C_LW => Some(180),
        RiscvInstr::C_LD => Some(181),
        RiscvInstr::C_LWSP => Some(182),
        RiscvInstr::C_LDSP => Some(183),
        RiscvInstr::C_SW => Some(184),
        RiscvInstr::C_SD => Some(185),
        RiscvInstr::C_SWSP => Some(186),
        RiscvInstr::C_SDSP => Some(187),
        RiscvInstr::C_FLW => Some(188),
        RiscvInstr::C_FLD => Some(189),
        RiscvInstr::C_FLWSP => Some(190),
        RiscvInstr::C_FLDSP => Some(191),
        _ => None,
    }
}

/// Where an instruction stands among all, if it is in the fifth part of the list.
#[verifier::opaque]
pub open spec fn part_5(instr: RiscvInstr) -> Option<u16> {
    match instr {
        RiscvInstr::C_FSW => Some(192),
        RiscvInstr::C_FSD => Some(193),
        RiscvInstr::C_FSWSP => Some(194),
        RiscvInstr::C_FSDSP => Some(195),
        RiscvInstr::C_BEQZ => Some(196),
        RiscvInstr::C_BNEZ => Some(197),
        RiscvInstr::C_J => Some(198),
        RiscvInstr::C_JAL => Some(199),
        RiscvInstr::C_JR => Some(200),
        RiscvInstr::C_JALR => Some(201),
        RiscvInstr::ILLEGAL => Some(202),
        RiscvInstr::VSETVL => Some(203),
        RiscvInstr::VSETVLI => Some(204),
        RiscvInstr::VSETIVLI => Some(205),
        RiscvInstr::VADD_VV => Some(206),
        RiscvInstr::VSUB_VV => Some(207),
        RiscvInstr::VMUL_VV => Some(208),
        RiscvInstr::VMULH_VV => Some(209),
        RiscvInstr::VMULHU_VV => Some(210),
        RiscvInstr::VMULHSU_VV => Some(211),
        RiscvInstr::VDIV_VV => Some(212),
        RiscvInstr::VDIVU_VV => Some(213),
        RiscvInstr::VREM_VV => Some(214),
        RiscvInstr::VREMU_VV => Some(215),
        RiscvInstr::VAND_VV => Some(216),
        RiscvInstr::VOR_VV => Some(217),
        RiscvInstr::VXOR_VV => Some(218),
        RiscvInstr::VSRA_VV => Some(219),
        RiscvInstr::VSRL_VV => Some(220),
        RiscvInstr::VSLL_VV => Some(221),
        RiscvInstr::VNSRL_WV => Some(222),
        RiscvInstr::VNSRA_WV => Some(223),
        RiscvInstr::VMSEQ_VV => Some(224),
        RiscvInstr::VMSNE_VV => Some(225),
        RiscvInstr::VMSLTU_VV => Some(226),
        RiscvInstr::VMSLT_VV => Some(227),
        RiscvInstr::VMSLEU_VV => Some(228),
        RiscvInstr::VMSLE_VV => Some(229),
        RiscvInstr::VADC_VVM => Some(230),
        RiscvInstr::VMADC_VV => Some(231),
        RiscvInstr::VMADC_VVM => Some(232),
        RiscvInstr::VSBC_VVM => Some(233),
        RiscvInstr::VMSBC_VV => Some(234),
        RiscvInstr::VMSBC_VVM => Some(235),
        RiscvInstr::VMAX_VV => Some(236),
        RiscvInstr::VMAXU_VV => Some(237),
        RiscvInstr::VMIN_VV => Some(238),
        RiscvInstr::VMINU_VV => Some(239),
        _ => None,
    }
}

fn find_part_5(instr: RiscvInstr) -> (r: Option<u16>)
    ensures
        r == part_5(instr),
{
    proof {
        reveal(part_5);
    }
    match instr {
        RiscvInstr::C_FSW => Some(192),
        RiscvInstr::C_FSD => Some(193),
        RiscvInstr::C_FSWSP => Some(194),
        RiscvInstr::C_FSDSP => Some(195),
        RiscvInstr::C_BEQZ => Some(196),
        RiscvInstr::C_BNEZ => Some(197),
        RiscvInstr::C_J => Some(198),
        RiscvInstr::C_JAL => Some(199),
        RiscvInstr::C_JR => Some(200),
        RiscvInstr::C_JALR => Some(201),
        RiscvInstr::ILLEGAL => Some(202),
        RiscvInstr::VSETVL => Some(203),
        RiscvInstr::VSETVLI => Some(204),
        RiscvInstr::VSETIVLI => Some(205),
        RiscvInstr::VADD_VV => Some(206),
        RiscvInstr::VSUB_VV => Some(207),
        RiscvInstr::VMUL_VV => Some(208),
        RiscvInstr::VMULH_VV => Some(209),
        RiscvInstr::VMULHU_VV => Some(210),
        RiscvInstr::VMULHSU_VV => Some(211),
        RiscvInstr::VDIV_VV => Some(212),
        RiscvInstr::VDIVU_VV => Some(213),
        RiscvInstr::VREM_VV => Some(214),
        RiscvInstr::VREMU_VV => Some(215),
        RiscvInstr::VAND_VV => Some(216),
        RiscvInstr::VOR_VV => Some(217),
        RiscvInstr::VXOR_VV => Some(218),
        RiscvInstr::VSRA_VV => Some(219),
        RiscvInstr::VSRL_VV => Some(220),
        RiscvInstr::VSLL_VV => Some(221),
        RiscvInstr::VNSRL_WV => Some(222),
        RiscvInstr::VNSRA_WV => Some(223),
        RiscvInstr::VMSEQ_VV => Some(224),
        RiscvInstr::VMSNE_VV => Some(225),
        RiscvInstr::VMSLTU_VV => Some(226),
        RiscvInstr::VMSLT_VV => Some(227),
        RiscvInstr::VMSLEU_VV => Some(228),
        RiscvInstr::VMSLE_VV => Some(229),
        RiscvInstr::VADC_VVM => Some(230),
        RiscvInstr::VMADC_VV => Some(231),
        RiscvInstr::VMADC_VVM => Some(232),
        RiscvInstr::VSBC_VVM => Some(233),
        RiscvInstr::VMSBC_VV => Some(234),
        RiscvInstr::VMSBC_VVM => Some(235),
        RiscvInstr::VMAX_VV => Some(236),
        RiscvInstr::VMAXU_VV => Some(237),
        RiscvInstr::VMIN_VV => Some(238),
        RiscvInstr::VMINU_VV => Some(239),
        _ => None,
    }
}

/// Where an instruction stands among all, if it is in the sixth part of the list.
#[verifier::opaque]
pub open spec fn part_6(instr: RiscvInstr) -> Option<u16> {
    match instr {
        RiscvInstr::VMACC_VV => Some(240),
        RiscvInstr::VNMSAC_VV => Some(241),
        RiscvInstr::VMADD_VV => Some(242),
        RiscvInstr::VNMSUB_VV => Some(243),
        RiscvInstr::VMERGE_VVM => Some(244),
        RiscvInstr::VMV_V_V => Some(245),
        RiscvInstr::VSADDU_VV => Some(246),
        RiscvInstr::VSADD_VV => Some(247),
        RiscvInstr::VSSUBU_VV => Some(248),
        RiscvInstr::VSSUB_VV => Some(249),
        RiscvInstr::VAADDU_VV => Some(250),
        RiscvInstr::VAADD_VV => Some(251),
        RiscvInstr::VASUBU_VV => Some(252),
        RiscvInstr::VASUB_VV => Some(253),
        RiscvInstr::VSMUL_VV => Some(254),
        RiscvInstr::VSSRL_VV => Some(255),
        RiscvInstr::VSSRA_VV => Some(256),
        RiscvInstr::VNCLIPU_WV => Some(257),
        RiscvInstr::VNCLIP_WV => Some(258),
        RiscvInstr::VRGATHER_VV => Some(259),
        RiscvInstr::VRGATHEREI16_VV => Some(260),
        RiscvInstr::VADD_VX => Some(261),
        RiscvInstr::VSUB_VX => Some(262),
        RiscvInstr::VRSUB_VX => Some(263),
        RiscvInstr::VMUL_VX => Some(264),
        RiscvInstr::VMULH_VX => Some(265),
        RiscvInstr::VMULHU_VX => Some(266),
        RiscvInstr::VMULHSU_VX => Some(267),
        RiscvInstr::VDIV_VX => Some(268),
        RiscvInstr::VDIVU_VX => Some(269),
        RiscvInstr::VREM_VX => Some(270),
        RiscvInstr::VREMU_VX => Some(271),
        RiscvInstr::VAND_VX => Some(272),
        RiscvInstr::VOR_VX => Some(273),
        RiscvInstr::VXOR_VX => Some(274),
        RiscvInstr::VSRA_VX => Some(275),
        RiscvInstr::VSRL_VX => Some(276),
        RiscvInstr::VSLL_VX => Some(277),
        RiscvInstr::VNSRL_WX => Some(278),
        RiscvInstr::VNSRA_WX => Some(279),
        RiscvInstr::VMSEQ_VX => Some(280),
        RiscvInstr::VMSNE_VX => Some(281),
        RiscvInstr::VMSLTU_VX => Some(282),
        RiscvInstr::VMSLT_VX => Some(283),
        RiscvInstr::VMSLEU_VX => Some(284),
        RiscvInstr::VMSLE_VX => Some(285),
        RiscvInstr::VMSGTU_VX => Some(286),
        RiscvInstr::VMSGT_VX => Some(287),
        _ => None,
    }
}

fn find_part_6(instr: RiscvInstr) -> (r: Option<u16>)
    ensures
        r == part_6(instr),
{
    proof {
        reveal(part_6);
    }
    match instr {
        RiscvInstr::VMACC_VV => Some(240),
        RiscvInstr::VNMSAC_VV => Some(241),
        RiscvInstr::VMADD_VV => Some(242),
        RiscvInstr::VNMSUB_VV => Some(243),
        RiscvInstr::VMERGE_VVM => Some(244),
        RiscvInstr::VMV_V_V => Some(245),
        RiscvInstr::VSADDU_VV => Some(246),
        RiscvInstr::VSADD_VV => Some(247),
        RiscvInstr::VSSUBU_VV => Some(248),
        RiscvInstr::VSSUB_VV => Some(249),
        RiscvInstr::VAADDU_VV => Some(250),
        RiscvInstr::VAADD_VV => Some(251),
        RiscvInstr::VASUBU_VV => Some(252),
        RiscvInstr::VASUB_VV => Some(253),
        RiscvInstr::VSMUL_VV => Some(254),
        RiscvInstr::VSSRL_VV => Some(255),
        RiscvInstr::VSSRA_VV => Some(256),
        RiscvInstr::VNCLIPU_WV => Some(257),
        RiscvInstr::VNCLIP_WV => Some(258),
        RiscvInstr::VRGATHER_VV => Some(259),
        RiscvInstr::VRGATHEREI16_VV => Some(260),
        RiscvInstr::VADD_VX => Some(261),
        RiscvInstr::VSUB_VX => Some(262),
        RiscvInstr::VRSUB_VX => Some(263),
        RiscvInstr::VMUL_VX => Some(264),
        RiscvInstr::VMULH_VX => Some(265),
        RiscvInstr::VMULHU_VX => Some(266),
        RiscvInstr::VMULHSU_VX => Some(267),
        RiscvInstr::VDIV_VX => Some(268),
        RiscvInstr::VDIVU_VX => Some(269),
        RiscvInstr::VREM_VX => Some(270),
        RiscvInstr::VREMU_VX => Some(271),
        RiscvInstr::VAND_VX => Some(272),
        RiscvInstr::VOR_VX => Some(273),
        RiscvInstr::VXOR_VX => Some(274),
        RiscvInstr::VSRA_VX => Some(275),
        RiscvInstr::VSRL_VX => Some(276),
        RiscvInstr::VSLL_VX => Some(277),
        RiscvInstr::VNSRL_WX => Some(278),
        RiscvInstr::VNSRA_WX => Some(279),
        RiscvInstr::VMSEQ_VX => Some(280),
        RiscvInstr::VMSNE_VX => Some(281),
        RiscvInstr::VMSLTU_VX => Some(282),
        RiscvInstr::VMSLT_VX => Some(283),
        RiscvInstr::VMSLEU_VX => Some(284),
        RiscvInstr::VMSLE_VX => Some(285),
        RiscvInstr::VMSGTU_VX => Some(286),
        RiscvInstr::VMSGT_VX => Some(287),
        _ => None,
    }
}

/// Where an instruction stands among all, if it is in the seventh part of the list.
#[verifier::opaque]
pub open spec fn part_7(instr: RiscvInstr) -> Option<u16> {
    match instr {
        RiscvInstr::VADC_VXM => Some(288),
        RiscvInstr::VMADC_VX => Some(289),
        RiscvInstr::VMADC_VXM => Some(290),
        RiscvInstr::VSBC_VXM => Some(291),
        RiscvInstr::VMSBC_VX => Some(292),
        RiscvInstr::VMSBC_VXM => Some(293),
        RiscvInstr::VMAX_VX => Some(294),
        RiscvInstr::VMAXU_VX => Some(295),
        RiscvInstr::VMIN_VX => Some(296),
        RiscvInstr::VMINU_VX => Some(297),
        RiscvInstr::VMACC_VX => Some(298),
        RiscvInstr::VNMSAC_VX => Some(299),
        RiscvInstr::VMADD_VX => Some(300),
        RiscvInstr::VNMSUB_VX => Some(301),
        RiscvInstr::VMERGE_VXM => Some(302),
        RiscvInstr::VMV_V_X => Some(303),
        RiscvInstr::VSADDU_VX => Some(304),
        RiscvInstr::VSADD_VX => Some(305),
        RiscvInstr::VSSUBU_VX => Some(306),
        RiscvInstr::VSSUB_VX => Some(307),
        RiscvInstr::VAADDU_VX => Some(308),
        RiscvInstr::VAADD_VX => Some(309),
        RiscvInstr::VASUBU_VX => Some(310),
        RiscvInstr::VASUB_VX => Some(311),
        RiscvInstr::VSMUL_VX => Some(312),
        RiscvInstr::VSSRL_VX => Some(313),
        RiscvInstr::VSSRA_VX => Some(314),
        RiscvInstr::VNCLIPU_WX => Some(315),
        RiscvInstr::VNCLIP_WX => Some(316),
        RiscvInstr::VSLIDEUP_VX => Some(317),
        RiscvInstr::VSLIDEDOWN_VX => Some(318),
        RiscvInstr::VRGATHER_VX => Some(319),
        RiscvInstr::VADD_VI => Some(320),
        RiscvInstr::VRSUB_VI => Some(321),
        RiscvInstr::VAND_VI => Some(322),
        RiscvInstr::VOR_VI => Some(323),
        RiscvInstr::VXOR_VI => Some(324),
        RiscvInstr::VSRA_VI => Some(325),
        RiscvInstr::VSRL_VI => Some(326),
        RiscvInstr::VSLL_VI => Some(327),
        RiscvInstr::VNSRL_WI => Some(328),
        RiscvInstr::VNSRA_WI => Some(329),
        RiscvInstr::VMSEQ_VI => Some(330),
        RiscvInstr::VMSNE_VI => Some(331),
        RiscvInstr::VMSLEU_VI => Some(332),
        RiscvInstr::VMSLE_VI => Some(333),
        RiscvInstr::VMSGTU_VI => Some(334),
        RiscvInstr::VMSGT_VI => Some(335),
        _ => None,
    }
}

fn find_part_7(instr: RiscvInstr) -> (r: Option<u16>)
    ensures
        r == part_7(instr),
{
    proof {
        reveal(part_7);
    }
    match instr {
        RiscvInstr::VADC_VXM => Some(288),
        RiscvInstr::VMADC_VX => Some(289),
        RiscvInstr::VMADC_VXM => Some(290),
        RiscvInstr::VSBC_VXM => Some(291),
        RiscvInstr::VMSBC_VX => Some(292),
        RiscvInstr::VMSBC_VXM => Some(293),
        RiscvInstr::VMAX_VX => Some(294),
        RiscvInstr::VMAXU_VX => Some(295),
        RiscvInstr::VMIN_VX => Some(296),
        RiscvInstr::VMINU_VX => Some(297),
        RiscvInstr::VMACC_VX => Some(298),
        RiscvInstr::VNMSAC_VX => Some(299),
        RiscvInstr::VMADD_VX => Some(300),
        RiscvInstr::VNMSUB_VX => Some(301),
        RiscvInstr::VMERGE_VXM => Some(302),
        RiscvInstr::VMV_V_X => Some(303),
        RiscvInstr::VSADDU_VX => Some(304),
        RiscvInstr::VSADD_VX => Some(305),
        RiscvInstr::VSSUBU_VX => Some(306),
        RiscvInstr::VSSUB_VX => Some(307),
        RiscvInstr::VAADDU_VX => Some(308),
        RiscvInstr::VAADD_VX => Some(309),
        RiscvInstr::VASUBU_VX => Some(310),
        RiscvInstr::VASUB_VX => Some(311),
        RiscvInstr::VSMUL_VX => Some(312),
        RiscvInstr::VSSRL_VX => Some(313),
        RiscvInstr::VSSRA_VX => Some(314),
        RiscvInstr::VNCLIPU_WX => Some(315),
        RiscvInstr::VNCLIP_WX => Some(316),
        RiscvInstr::VSLIDEUP_VX => Some(317),
        RiscvInstr::VSLIDEDOWN_VX => Some(318),
        RiscvInstr::VRGATHER_VX => Some(319),
        RiscvInstr::VADD_VI => Some(320),
        RiscvInstr::VRSUB_VI => Some(321),
        RiscvInstr::VAND_VI => Some(322),
        RiscvInstr::VOR_VI => Some(323),
        RiscvInstr::VXOR_VI => Some(324),
        RiscvInstr::VSRA_VI => Some(325),
        RiscvInstr::VSRL_VI => Some(326),
        RiscvInstr::VSLL_VI => Some(327),
        RiscvInstr::VNSRL_WI => Some(328),
        RiscvInstr::VNSRA_WI => Some(329),
        RiscvInstr::VMSEQ_VI => Some(330),
        RiscvInstr::VMSNE_VI => Some(331),
        RiscvInstr::VMSLEU_VI => Some(332),
        RiscvInstr::VMSLE_VI => Some(333),
        RiscvInstr::VMSGTU_VI => Some(334),
        RiscvInstr::VMSGT_VI => Some(335),
        _ => None,
    }
}

/// Where an instruction stands among all, if it is in the eighth part of the list.
#[verifier::opaque]
pub open spec fn part_8(instr: RiscvInstr) -> Option<u16> {
    match instr {
        RiscvInstr::VADC_VIM => Some(336),
        RiscvInstr::VMADC_VI => Some(337),
        RiscvInstr::VMADC_VIM => Some(338),
        RiscvInstr::VMERGE_VIM => Some(339),
        RiscvInstr::VMV_V_I => Some(340),
        RiscvInstr::VSADDU_VI => Some(341),
        RiscvInstr::VSADD_VI => Some(342),
        RiscvInstr::VSSRL_VI => Some(343),
        RiscvInstr::VSSRA_VI => Some(344),
        RiscvInstr::VNCLIPU_WI => Some(345),
        RiscvInstr::VNCLIP_WI => Some(346),
        RiscvInstr::VSLIDEUP_VI => Some(347),
        RiscvInstr::VSLIDEDOWN_VI => Some(348),
        RiscvInstr::VRGATHER_VI => Some(349),
        RiscvInstr::VMV1R_V => Some(350),
        RiscvInstr::VMV2R_V => Some(351),
        RiscvInstr::VMV4R_V => Some(352),
        RiscvInstr::VMV8R_V => Some(353),
        RiscvInstr::VWADD_VV => Some(354),
        RiscvInstr::VWADD_WV => Some(355),
        RiscvInstr::VWADDU_VV => Some(356),
        RiscvInstr::VWADDU_WV => Some(357),
        RiscvInstr::VWSUB_VV => Some(358),
        RiscvInstr::VWSUB_WV => Some(359),
        RiscvInstr::VWSUBU_VV => Some(360),
        RiscvInstr::VWSUBU_WV => Some(361),
        RiscvInstr::VWMUL_VV => Some(362),
        RiscvInstr::VWMULU_VV => Some(363),
        RiscvInstr::VWMULSU_VV => Some(364),
        RiscvInstr::VZEXT_VF2 => Some(365),
        RiscvInstr::VZEXT_VF4 => Some(366),
        RiscvInstr::VZEXT_VF8 => Some(367),
        RiscvInstr::VSEXT_VF2 => Some(368),
        RiscvInstr::VSEXT_VF4 => Some(369),
        RiscvInstr::VSEXT_VF8 => Some(370),
        RiscvInstr::VWMACCU_VV => Some(371),
        RiscvInstr::VWMACC_VV => Some(372),
        RiscvInstr::VWMACCSU_VV => Some(373),
        RiscvInstr::VCOMPRESS_VM => Some(374),
        RiscvInstr::VMAND_MM => Some(375),
        RiscvInstr::VMNAND_MM => Some(376),
        RiscvInstr::VMANDN_MM => Some(377),
        RiscvInstr::VMXOR_MM => Some(378),
        RiscvInstr::VMOR_MM => Some(379),
        RiscvInstr::VMNOR_MM => Some(380),
        RiscvInstr::VMORN_MM => Some(381),
        RiscvInstr::VMXNOR_MM => Some(382),
        RiscvInstr::VCPOP_M => Some(383),
        _ => None,
    }
}

fn find_part_8(instr: RiscvInstr) -> (r: Option<u16>)
    ensures
        r == part_8(instr),
{
    proof {
        reveal(part_8);
    }
    match instr {
        RiscvInstr::VADC_VIM => Some(336),
        RiscvInstr::VMADC_VI => Some(337),
        RiscvInstr::VMADC_VIM => Some(338),
        RiscvInstr::VMERGE_VIM => Some(339),
        RiscvInstr::VMV_V_I => Some(340),
        RiscvInstr::VSADDU_VI => Some(341),
        RiscvInstr::VSADD_VI => Some(342),
        RiscvInstr::VSSRL_VI => Some(343),
        RiscvInstr::VSSRA_VI => Some(344),
        RiscvInstr::VNCLIPU_WI => Some(345),
        RiscvInstr::VNCLIP_WI => Some(346),
        RiscvInstr::VSLIDEUP_VI => Some(347),
        RiscvInstr::VSLIDEDOWN_VI => Some(348),
        RiscvInstr::VRGATHER_VI => Some(349),
        RiscvInstr::VMV1R_V => Some(350),
        RiscvInstr::VMV2R_V => Some(351),
        RiscvInstr::VMV4R_V => Some(352),
        RiscvInstr::VMV8R_V => Some(353),
        RiscvInstr::VWADD_VV => Some(354),
        RiscvInstr::VWADD_WV => Some(355),
        RiscvInstr::VWADDU_VV => Some(356),
        RiscvInstr::VWADDU_WV => Some(357),
        RiscvInstr::VWSUB_VV => Some(358),
        RiscvInstr::VWSUB_WV => Some(359),
        RiscvInstr::VWSUBU_VV => Some(360),
        RiscvInstr::VWSUBU_WV => Some(361),
        RiscvInstr::VWMUL_VV => Some(362),
        RiscvInstr::VWMULU_VV => Some(363),
        RiscvInstr::VWMULSU_VV => Some(364),
        RiscvInstr::VZEXT_VF2 => Some(365),
        RiscvInstr::VZEXT_VF4 => Some(366),
        RiscvInstr::VZEXT_VF8 => Some(367),
        RiscvInstr::VSEXT_VF2 => Some(368),
        RiscvInstr::VSEXT_VF4 => Some(369),
        RiscvInstr::VSEXT_VF8 => Some(370),
        RiscvInstr::VWMACCU_VV => Some(371),
        RiscvInstr::VWMACC_VV => Some(372),
        RiscvInstr::VWMACCSU_VV => Some(373),
        RiscvInstr::VCOMPRESS_VM => Some(374),
        RiscvInstr::VMAND_MM => Some(375),
        RiscvInstr::VMNAND_MM => Some(376),
        RiscvInstr::VMANDN_MM => Some(377),
        RiscvInstr::VMXOR_MM => Some(378),
        RiscvInstr::VMOR_MM => Some(379),
        RiscvInstr::VMNOR_MM => Some(380),
        RiscvInstr::VMORN_MM => Some(381),
        RiscvInstr::VMXNOR_MM => Some(382),
        RiscvInstr::VCPOP_M => Some(383),
        _ => None,
    }
}

/// Where an instruction stands among all, if it is in the ninth part of the list.
#[verifier::opaque]
pub open spec fn part_9(instr: RiscvInstr) -> Option<u16> {
    match instr {
        RiscvInstr::VFIRST_M => Some(384),
        RiscvInstr::VMSBF_M => Some(385),
        RiscvInstr::VMSIF_M => Some(386),
        RiscvInstr::VMSOF_M => Some(387),
        RiscvInstr::VIOTA_M => Some(388),
        RiscvInstr::VID_V => Some(389),
        RiscvInstr::VMV_X_S => Some(390),
        RiscvInstr::VMV_S_X => Some(391),
        RiscvInstr::VWADD_VX => Some(392),
        RiscvInstr::VWADD_WX => Some(393),
        RiscvInstr::VWADDU_VX => Some(394),
        RiscvInstr::VWADDU_WX => Some(395),
        RiscvInstr::VWSUB_VX => Some(396),
        RiscvInstr::VWSUB_WX => Some(397),
        RiscvInstr::VWSUBU_VX => Some(398),
        RiscvInstr::VWSUBU_WX => Some(399),
        RiscvInstr::VWMUL_VX => Some(400),
        RiscvInstr::VWMULU_VX => Some(401),
        RiscvInstr::VWMULSU_VX => Some(402),
        RiscvInstr::VWMACCU_VX => Some(403),
        RiscvInstr::VWMACC_VX => Some(404),
        RiscvInstr::VWMACCSU_VX => Some(405),
        RiscvInstr::VWMACCUS_VX => Some(406),
        RiscvInstr::VLM_V => Some(407),
        RiscvInstr::VSM_V => Some(408),
        RiscvInstr::VSLIDE1UP_VX => Some(409),
        RiscvInstr::VSLIDE1DOWN_VX => Some(410),
        RiscvInstr::VLE_V(w) => Some((411 + width_place(w)) as u16),
        RiscvInstr::VLEFF_V(w) => Some((415 + width_place(w)) as u16),
        RiscvInstr::VLSE_V(w) => Some((419 + width_place(w)) as u16),
        RiscvInstr::VLUXEI_V(w) => Some((423 + width_place(w)) as u16),
        RiscvInstr::VLOXEI_V(w) => Some((427 + width_place(w)) as u16),
        RiscvInstr::VLRE_V(w) => Some((431 + width_place(w)) as u16),
        RiscvInstr::VSE_V(w) => Some((435 + width_place(w)) as u16),
        RiscvInstr::VSSE_V(w) => Some((439 + width_place(w)) as u16),
        RiscvInstr::VSUXEI_V(w) => Some((443 + width_place(w)) as u16),
        RiscvInstr::VSOXEI_V(w) => Some((447 + width_place(w)) as u16),
        RiscvInstr::VSR_V => Some(451),
        _ => None,
    }
}

fn find_part_9(instr: RiscvInstr) -> (r: Option<u16>)
    ensures
        r == part_9(instr),
{
    proof {
        reveal(part_9);
    }
    match instr {
        RiscvInstr::VFIRST_M => Some(384),
        RiscvInstr::VMSBF_M => Some(385),
        RiscvInstr::VMSIF_M => Some(386),
        RiscvInstr::VMSOF_M => Some(387),
        RiscvInstr::VIOTA_M => Some(388),
        RiscvInstr::VID_V => Some(389),
        RiscvInstr::VMV_X_S => Some(390),
        RiscvInstr::VMV_S_X => Some(391),
        RiscvInstr::VWADD_VX => Some(392),
        RiscvInstr::VWADD_WX => Some(393),
        RiscvInstr::VWADDU_VX => Some(394),
        RiscvInstr::VWADDU_WX => Some(395),
        RiscvInstr::VWSUB_VX => Some(396),
        RiscvInstr::VWSUB_WX => Some(397),
        RiscvInstr::VWSUBU_VX => Some(398),
        RiscvInstr::VWSUBU_WX => Some(399),
        RiscvInstr::VWMUL_VX => Some(400),
        RiscvInstr::VWMULU_VX => Some(401),
        RiscvInstr::VWMULSU_VX => Some(402),
        RiscvInstr::VWMACCU_VX => Some(403),
        RiscvInstr::VWMACC_VX => Some(404),
        RiscvInstr::VWMACCSU_VX => Some(405),
        RiscvInstr::VWMACCUS_VX => Some(406),
        RiscvInstr::VLM_V => Some(407),
        RiscvInstr::VSM_V => Some(408),
        RiscvInstr::VSLIDE1UP_VX => Some(409),
        RiscvInstr::VSLIDE1DOWN_VX => Some(410),
        RiscvInstr::VLE_V(w) => Some(411 + place_of_width(w)),
        RiscvInstr::VLEFF_V(w) => Some(415 + place_of_width(w)),
        RiscvInstr::VLSE_V(w) => Some(419 + place_of_width(w)),
        RiscvInstr::VLUXEI_V(w) => Some(423 + place_of_width(w)),
        RiscvInstr::VLOXEI_V(w) => Some(427 + place_of_width(w)),
        RiscvInstr::VLRE_V(w) => Some(431 + place_of_width(w)),
        RiscvInstr::VSE_V(w) => Some(435 + place_of_width(w)),
        RiscvInstr::VSSE_V(w) => Some(439 + place_of_width(w)),
        RiscvInstr::VSUXEI_V(w) => Some(443 + place_of_width(w)),
        RiscvInstr::VSOXEI_V(w) => Some(447 + place_of_width(w)),
        RiscvInstr::VSR_V => Some(451),
        _ => None,
    }
}

/// Every instruction stands in a part of the list.
pub proof fn law_every_instruction_is_listed(instr: RiscvInstr)
    ensures
        ({
            ||| part_1(instr) is Some
            ||| part_2(instr) is Some
            ||| part_3(instr) is Some
            ||| part_4(instr) is Some
            ||| part_5(instr) is Some
            ||| part_6(instr) is Some
            ||| part_7(instr) is Some
            ||| part_8(instr) is Some
            ||| part_9(instr) is Some
        }),
{
    reveal(part_1);
    reveal(part_2);
    reveal(part_3);
    reveal(part_4);
    reveal(part_5);
    reveal(part_6);
    reveal(part_7);
    reveal(part_8);
    reveal(part_9);
}

impl RiscvInstr {
    /// Where the instruction stands among the instructions.
    pub open spec fn spec_place(self) -> u16 {
        if let Some(n) = part_1(self) {
            n
        } else if let Some(n) = part_2(self) {
            n
        } else if let Some(n) = part_3(self) {
            n
        } else if let Some(n) = part_4(self) {
            n
        } else if let Some(n) = part_5(self) {
            n
        } else if let Some(n) = part_6(self) {
            n
        } else if let Some(n) = part_7(self) {
            n
        } else if let Some(n) = part_8(self) {
            n
        } else if let Some(n) = part_9(self) {
            n
        } else {
            0
        }
    }

    /// Where the instruction stands among the instructions.
    pub fn place(self) -> (r: u16)
        ensures
            r == self.spec_place(),
    {
        if let Some(n) = find_part_1(self) {
            return n;
        }
        if let Some(n) = find_part_2(self) {
            return n;
        }
        if let Some(n) = find_part_3(self) {
            return n;
        }
        if let Some(n) = find_part_4(self) {
            return n;
        }
        if let Some(n) = find_part_5(self) {
            return n;
        }
        if let Some(n) = find_part_6(self) {
            return n;
        }
        if let Some(n) = find_part_7(self) {
            return n;
        }
        if let Some(n) = find_part_8(self) {
            return n;
        }
        if let Some(n) = find_part_9(self) {
            return n;
        }
        0
    }
}

} // verus!
