//! Floating-point arithmetic.
use here::fpu::bits::{FloatFormat, FloatRelation, Round, SignInjection};
use here::fpu::soft_float::{FloatBinary, FloatTernary, SoftFPU};
use here::utils::Width;

const EVEN: Round = Round::NearestTiesToEven;

fn single(a: f32, b: f32, c: f32) -> SoftFPU {
    let mut fpu = SoftFPU::from(true);
    fpu.store_raw(FloatFormat::Single, 1, a.to_bits() as u64);
    fpu.store_raw(FloatFormat::Single, 2, b.to_bits() as u64);
    fpu.store_raw(FloatFormat::Single, 3, c.to_bits() as u64);
    fpu
}

fn double(a: f64, b: f64, c: f64) -> SoftFPU {
    let mut fpu = SoftFPU::from(true);
    fpu.store_raw(FloatFormat::Double, 1, a.to_bits());
    fpu.store_raw(FloatFormat::Double, 2, b.to_bits());
    fpu.store_raw(FloatFormat::Double, 3, c.to_bits());
    fpu
}

fn single_at(fpu: &SoftFPU, i: u8) -> f32 {
    f32::from_bits(fpu.load(FloatFormat::Single, i) as u32)
}

fn double_at(fpu: &SoftFPU, i: u8) -> f64 {
    f64::from_bits(fpu.load(FloatFormat::Double, i))
}

#[test]
fn arithmetic_on_singles() {
    for (a, b) in [(3.5_f32, 1.25_f32), (0.1, 0.2), (-7.0, 3.0), (1e30, 1e-3)] {
        let mut fpu = single(a, b, 0.0);
        fpu.exec_binary_r(FloatBinary::Add, FloatFormat::Single, 1, 2, 4, EVEN);
        assert_eq!(single_at(&fpu, 4), a + b);
        fpu.exec_binary_r(FloatBinary::Sub, FloatFormat::Single, 1, 2, 4, EVEN);
        assert_eq!(single_at(&fpu, 4), a - b);
        fpu.exec_binary_r(FloatBinary::Mul, FloatFormat::Single, 1, 2, 4, EVEN);
        assert_eq!(single_at(&fpu, 4), a * b);
        fpu.exec_binary_r(FloatBinary::Div, FloatFormat::Single, 1, 2, 4, EVEN);
        assert_eq!(single_at(&fpu, 4), a / b);
    }
}

#[test]
fn arithmetic_on_doubles() {
    for (a, b) in [(3.5_f64, 1.25_f64), (0.1, 0.2), (-7.0, 3.0), (1e300, 1e-3)] {
        let mut fpu = double(a, b, 0.0);
        fpu.exec_binary_r(FloatBinary::Add, FloatFormat::Double, 1, 2, 4, EVEN);
        assert_eq!(double_at(&fpu, 4), a + b);
        fpu.exec_binary_r(FloatBinary::Sub, FloatFormat::Double, 1, 2, 4, EVEN);
        assert_eq!(double_at(&fpu, 4), a - b);
        fpu.exec_binary_r(FloatBinary::Mul, FloatFormat::Double, 1, 2, 4, EVEN);
        assert_eq!(double_at(&fpu, 4), a * b);
        fpu.exec_binary_r(FloatBinary::Div, FloatFormat::Double, 1, 2, 4, EVEN);
        assert_eq!(double_at(&fpu, 4), a / b);
    }
}

#[test]
fn fused_operations_round_once() {
    let (a, b, c) = (1.0_f32 + f32::EPSILON, 1.0_f32 - f32::EPSILON, -1.0_f32);
    let mut fpu = single(a, b, c);
    fpu.exec_ternary_r(FloatTernary::MulAdd, FloatFormat::Single, 1, 2, 3, 4, EVEN);
    assert_eq!(single_at(&fpu, 4), a.mul_add(b, c));
    fpu.exec_ternary_r(FloatTernary::MulSub, FloatFormat::Single, 1, 2, 3, 4, EVEN);
    assert_eq!(single_at(&fpu, 4), a.mul_add(b, -c));
    fpu.exec_ternary_r(FloatTernary::NegMulAdd, FloatFormat::Single, 1, 2, 3, 4, EVEN);
    assert_eq!(single_at(&fpu, 4), (-a).mul_add(b, -c));
    let (a, b, c) = (2.0_f64, 3.0_f64, 5.0_f64);
    let mut fpu = double(a, b, c);
    fpu.exec_ternary_r(FloatTernary::MulAdd, FloatFormat::Double, 1, 2, 3, 4, EVEN);
    assert_eq!(double_at(&fpu, 4), 11.0);
    fpu.exec_ternary_r(FloatTernary::NegMulSub, FloatFormat::Double, 1, 2, 3, 4, EVEN);
    assert_eq!(double_at(&fpu, 4), -1.0);
}

#[test]
fn rounding_goes_the_way_that_is_asked_for() {
    let mut fpu = single(1.0, 3.0, 0.0);
    let third = 1.0_f32 / 3.0;
    for (round, bits) in [
        (Round::NearestTiesToEven, third.to_bits()),
        (Round::TowardPositive, third.to_bits()),
        (Round::TowardNegative, third.to_bits() - 1),
        (Round::TowardZero, third.to_bits() - 1),
        (Round::NearestTiesToAway, third.to_bits()),
    ] {
        fpu.exec_binary_r(FloatBinary::Div, FloatFormat::Single, 1, 2, 4, round);
        assert_eq!(fpu.load(FloatFormat::Single, 4) as u32, bits);
        assert_eq!(fpu.last_status(), 0x10);
    }
}

#[test]
fn integers_become_numbers_and_numbers_become_integers() {
    let mut fpu = SoftFPU::from(true);
    fpu.cvt_unsigned_and_store(FloatFormat::Single, 1, 0xffff_ffff_ffff_ffff, EVEN);
    assert_eq!(single_at(&fpu, 1), u64::MAX as f32);
    fpu.cvt_signed_and_store(FloatFormat::Single, 1, -12345, EVEN);
    assert_eq!(single_at(&fpu, 1), -12345.0);
    assert_eq!(fpu.get_and_cvt_signed(FloatFormat::Single, 1, Width::W32, EVEN), 0xffff_cfc7);
    fpu.cvt_unsigned_and_store(FloatFormat::Double, 1, 0x1234_5678_9abc, EVEN);
    assert_eq!(double_at(&fpu, 1), 0x1234_5678_9abc_u64 as f64);
    assert_eq!(
        fpu.get_and_cvt_unsigned(FloatFormat::Double, 1, Width::W64, EVEN),
        0x1234_5678_9abc
    );
    fpu.cvt_signed_and_store(FloatFormat::Double, 1, -9, EVEN);
    assert_eq!(double_at(&fpu, 1), -9.0);
    assert_eq!(
        fpu.get_and_cvt_signed(FloatFormat::Double, 1, Width::W64, EVEN),
        -9_i64 as u64
    );
    assert_eq!(fpu.get_and_cvt_unsigned(FloatFormat::Double, 1, Width::W32, EVEN), 0);
    assert_eq!(fpu.last_status(), 0x01);
    let mut fpu = single(2.75, 0.0, 0.0);
    assert_eq!(
        fpu.get_and_cvt_unsigned(FloatFormat::Single, 1, Width::W32, Round::TowardZero),
        2
    );
}

#[test]
fn formats_are_converted() {
    let mut fpu = single(1.5, 0.0, 0.0);
    fpu.cvt_float_and_store(FloatFormat::Single, 4, 1, EVEN);
    assert_eq!(double_at(&fpu, 4), 1.5);
    let mut fpu = double(0.1, 0.0, 0.0);
    fpu.cvt_float_and_store(FloatFormat::Double, 4, 1, EVEN);
    assert_eq!(single_at(&fpu, 4), 0.1_f32);
}

#[test]
fn square_roots_are_exact_or_rounded() {
    for a in [2.0_f64, 9.0, 0.25, 1e-300, 123456.789] {
        let mut fpu = double(a, 0.0, 0.0);
        fpu.sqrt(FloatFormat::Double, 1, 4, EVEN);
        assert_eq!(double_at(&fpu, 4), a.sqrt());
    }
    for a in [2.0_f32, 9.0, 0.25, 1e-30] {
        let mut fpu = single(a, 0.0, 0.0);
        fpu.sqrt(FloatFormat::Single, 1, 4, EVEN);
        assert_eq!(single_at(&fpu, 4), a.sqrt());
    }
    let mut fpu = single(-1.0, 0.0, 0.0);
    fpu.sqrt(FloatFormat::Single, 1, 4, EVEN);
    assert!(single_at(&fpu, 4).is_nan());
    assert_eq!(fpu.last_status(), 0x01);
}

#[test]
fn numbers_are_compared_and_classified() {
    let mut fpu = single(-0.0, 0.0, f32::NAN);
    assert!(fpu.compare(FloatRelation::Eq, FloatFormat::Single, 1, 2));
    assert!(!fpu.compare(FloatRelation::Lt, FloatFormat::Single, 1, 2));
    assert!(fpu.compare(FloatRelation::Le, FloatFormat::Single, 1, 2));
    assert!(!fpu.compare(FloatRelation::Le, FloatFormat::Single, 1, 3));
    assert_eq!(fpu.classify(FloatFormat::Single, 1), 1 << 3);
    assert_eq!(fpu.classify(FloatFormat::Single, 2), 1 << 4);
    assert_eq!(fpu.classify(FloatFormat::Single, 3), 1 << 9);
    let mut fpu = single(1.0, -2.0, 0.0);
    fpu.min_num(FloatFormat::Single, 1, 2, 4);
    assert_eq!(single_at(&fpu, 4), -2.0);
    fpu.max_num(FloatFormat::Single, 1, 2, 4);
    assert_eq!(single_at(&fpu, 4), 1.0);
    fpu.inject_sign(SignInjection::Negate, FloatFormat::Single, 1, 1, 4);
    assert_eq!(single_at(&fpu, 4), -1.0);
    fpu.inject_sign(SignInjection::Xor, FloatFormat::Single, 2, 2, 4);
    assert_eq!(single_at(&fpu, 4), 2.0);
}

#[test]
fn a_single_that_is_not_boxed_is_not_a_number() {
    let mut fpu = SoftFPU::from(true);
    fpu.store_raw(FloatFormat::Double, 1, 0x3f80_0000);
    assert_eq!(fpu.load(FloatFormat::Single, 1), 0x7fc0_0000);
    fpu.store_raw(FloatFormat::Single, 1, 0x3f80_0000);
    assert_eq!(fpu.load_raw(1), 0xffff_ffff_3f80_0000);
}
