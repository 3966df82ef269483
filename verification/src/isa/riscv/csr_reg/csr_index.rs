//! The addresses of the control and status registers.
#![allow(non_upper_case_globals)]
use vstd::prelude::*;

verus! {

// Floating point.
pub const fflags: u64 = 0x001;
pub const frm: u64 = 0x002;
pub const fcsr: u64 = 0x003;

// Vector.
pub const vstart: u64 = 0x008;
pub const vxsat: u64 = 0x009;
pub const vxrm: u64 = 0x00a;
pub const vcsr: u64 = 0x00f;
pub const vl: u64 = 0xc20;
pub const vtype: u64 = 0xc21;
pub const vlenb: u64 = 0xc22;

// Supervisor.
pub const sstatus: u64 = 0x100;
pub const sie: u64 = 0x104;
pub const stvec: u64 = 0x105;
pub const scounteren: u64 = 0x106;
pub const sscratch: u64 = 0x140;
pub const sepc: u64 = 0x141;
pub const scause: u64 = 0x142;
pub const stval: u64 = 0x143;
pub const sip: u64 = 0x144;
pub const satp: u64 = 0x180;

// Machine.
pub const mstatus: u64 = 0x300;
pub const misa: u64 = 0x301;
pub const medeleg: u64 = 0x302;
pub const mideleg: u64 = 0x303;
pub const mie: u64 = 0x304;
pub const mtvec: u64 = 0x305;
pub const mcounteren: u64 = 0x306;
pub const mscratch: u64 = 0x340;
pub const mepc: u64 = 0x341;
pub const mcause: u64 = 0x342;
pub const mtval: u64 = 0x343;
pub const mip: u64 = 0x344;
pub const mcycle: u64 = 0xb00;
pub const minstret: u64 = 0xb02;
pub const mvendorid: u64 = 0xf11;
pub const marchid: u64 = 0xf12;
pub const mimpid: u64 = 0xf13;
pub const mhartid: u64 = 0xf14;

// Read-only views of the machine counters.
pub const cycle: u64 = 0xc00;
pub const time: u64 = 0xc01;
pub const instret: u64 = 0xc02;

} // verus!
