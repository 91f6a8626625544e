//! Exact word streams for the branchy interval lowerings: absolute value,
//! square root, reciprocal, square and multiply, each checked against an
//! independently assembled sequence.

use tapejit::driver::build_asm_fn;
use tapejit::interval::IntervalAssembler;
use tapejit::ops::{AsmOp, Tape};

const IPROLOGUE: [u32; 11] = [
    0xA9BF7BFD, // stp x29, x30, [sp, #-16]!
    0x910003FD, // mov x29, sp
    0x6DBF27E8, // stp d8, d9, [sp, #-16]!
    0x6DBF2FEA, // stp d10, d11, [sp, #-16]!
    0x6DBF37EC, // stp d12, d13, [sp, #-16]!
    0x6DBF3FEE, // stp d14, d15, [sp, #-16]!
    0x6E0C0420, // mov v0.s[1], v1.s[0]
    0x6E040441, // mov v1.s[0], v2.s[0]
    0x6E0C0461, // mov v1.s[1], v3.s[0]
    0x6E040482, // mov v2.s[0], v4.s[0]
    0x6E0C04A2, // mov v2.s[1], v5.s[0]
];

const IEPILOGUE: [u32; 9] = [
    0x5E040500, // mov s0, v8.s[0]
    0x5E0C0501, // mov s1, v8.s[1]
    0x910003FF, // add sp, sp, #0
    0x6CC13FEE, // ldp d14, d15, [sp], #16
    0x6CC137EC, // ldp d12, d13, [sp], #16
    0x6CC12FEA, // ldp d10, d11, [sp], #16
    0x6CC127E8, // ldp d8, d9, [sp], #16
    0xA8C17BFD, // ldp x29, x30, [sp], #16
    0xD65F03C0, // ret
];

fn unary_tape(op: fn(u8, u8) -> AsmOp) -> Tape {
    let mut t = Tape::new();
    t.push(AsmOp::Input(0, 0));
    t.push(op(0, 0));
    t
}

fn expect_unary(block: &[u32]) -> Vec<u32> {
    let mut expected = IPROLOGUE.to_vec();
    expected.push(0x1E604008); // fmov d8, d0
    expected.extend_from_slice(block);
    expected.extend(IEPILOGUE);
    expected
}

#[test]
fn test_interval_abs_block() {
    let code = build_asm_fn::<IntervalAssembler>(&unary_tape(AsmOp::AbsReg), 0);
    let block = [
        0x2EA0D904, // fcmle v4.2s, v8.2s, #0.0
        0x9E66008F, // fmov x15, d4
        0x0EA0F908, // fabs v8.2s, v8.2s
        0xF26001FF, // tst x15, #0x100000000
        0x540000C1, // b.ne #24
        0xF24001FF, // tst x15, #0x1
        0x540000A0, // b.eq #20
        0x2F00E404, // movi d4, #0
        0x6E30C904, // fmaxnmv s4, v8.4s
        0x1E604088, // fmov d8, d4
        0x0EA00908, // rev64 v8.2s, v8.2s
    ];
    assert_eq!(code, expect_unary(&block));
}

#[test]
fn test_interval_sqrt_block() {
    let code = build_asm_fn::<IntervalAssembler>(&unary_tape(AsmOp::SqrtReg), 0);
    let block = [
        0x2EA0D904, // fcmle v4.2s, v8.2s, #0.0
        0x9E66008F, // fmov x15, d4
        0xF26001FF, // tst x15, #0x100000000
        0x54000141, // b.ne #40
        0xF24001FF, // tst x15, #0x1
        0x54000061, // b.ne #12
        0x2EA1F908, // fsqrt v8.2s, v8.2s
        0x14000009, // b #36
        0x6E042504, // mov v4.s[0], v8.s[1]
        0x1E21C084, // fsqrt s4, s4
        0x2F00E408, // movi d8, #0
        0x6E0C0488, // mov v8.s[1], v4.s[0]
        0x14000004, // b #16
        0x52AFF809, // movz w9, #0x7FC0, lsl #16
        0x72800009, // movk w9, #0
        0x0E040D28, // dup v8.2s, w9
    ];
    assert_eq!(code, expect_unary(&block));
}

#[test]
fn test_interval_recip_block() {
    let code = build_asm_fn::<IntervalAssembler>(&unary_tape(AsmOp::RecipReg), 0);
    let block = [
        0x5EA0C904, // fcmgt s4, s8, #0.0
        0x1E26008F, // fmov w15, s4
        0x720001FF, // tst w15, #0x1
        0x54000141, // b.ne #40
        0x5E0C0504, // mov s4, v8.s[1]
        0x5EA0E884, // fcmlt s4, s4, #0.0
        0x1E26008F, // fmov w15, s4
        0x720001FF, // tst w15, #0x1
        0x540000A1, // b.ne #20
        0x52AFF80F, // movz w15, #0x7FC0, lsl #16
        0x7280000F, // movk w15, #0
        0x0E040DE8, // dup v8.2s, w15
        0x14000005, // b #20
        0x1E2E1004, // fmov s4, #1.0
        0x0E040484, // dup v4.2s, v4.s[0]
        0x2E28FC88, // fdiv v8.2s, v4.2s, v8.2s
        0x0EA00908, // rev64 v8.2s, v8.2s
    ];
    assert_eq!(code, expect_unary(&block));
}

#[test]
fn test_interval_square_block() {
    let code = build_asm_fn::<IntervalAssembler>(&unary_tape(AsmOp::SquareReg), 0);
    let block = [
        0x2EA0D904, // fcmle v4.2s, v8.2s, #0.0
        0x9E66008F, // fmov x15, d4
        0x2E28DD08, // fmul v8.2s, v8.2s, v8.2s
        0xF26001FF, // tst x15, #0x100000000
        0x540000E1, // b.ne #28
        0xF24001FF, // tst x15, #0x1
        0x540000C0, // b.eq #24
        0x6E30C904, // fmaxnmv s4, v8.4s
        0x2F00E408, // movi d8, #0
        0x6E0C0488, // mov v8.s[1], v4.s[0]
        0x14000002, // b #8
        0x0EA00908, // rev64 v8.2s, v8.2s
    ];
    assert_eq!(code, expect_unary(&block));
}

#[test]
fn test_interval_mul_block() {
    let mut t = Tape::new();
    t.push(AsmOp::Input(0, 0));
    t.push(AsmOp::Input(1, 1));
    t.push(AsmOp::MulRegReg(0, 0, 1));
    let code = build_asm_fn::<IntervalAssembler>(&t, 0);
    let mut expected = IPROLOGUE.to_vec();
    expected.push(0x1E604008); // fmov d8, d0
    expected.push(0x1E604029); // fmov d9, d1
    expected.extend([
        0x0EA00904, // rev64 v4.2s, v8.2s
        0x6E180504, // mov v4.d[1], v8.d[0]
        0x4E080525, // dup v5.2d, v9.d[0]
        0x6E25DC84, // fmul v4.4s, v4.4s, v5.4s
        0x6EB0C888, // fminnmv s8, v4.4s
        0x6E30C885, // fmaxnmv s5, v4.4s
        0x6E0C04A8, // mov v8.s[1], v5.s[0]
    ]);
    expected.extend(IEPILOGUE);
    assert_eq!(code, expected);
}

#[test]
fn test_interval_neg_sub_add() {
    let mut t = Tape::new();
    t.push(AsmOp::Input(0, 0));
    t.push(AsmOp::Input(1, 1));
    t.push(AsmOp::NegReg(1, 1));
    t.push(AsmOp::SubRegReg(0, 0, 1));
    t.push(AsmOp::AddRegReg(0, 0, 1));
    let code = build_asm_fn::<IntervalAssembler>(&t, 0);
    let mut expected = IPROLOGUE.to_vec();
    expected.push(0x1E604008); // fmov d8, d0
    expected.push(0x1E604029); // fmov d9, d1
    expected.extend([
        0x2EA0F929, // fneg v9.2s, v9.2s
        0x0EA00929, // rev64 v9.2s, v9.2s
        0x0EA00924, // rev64 v4.2s, v9.2s
        0x0EA4D508, // fsub v8.2s, v8.2s, v4.2s
        0x0E29D508, // fadd v8.2s, v8.2s, v9.2s
    ]);
    expected.extend(IEPILOGUE);
    assert_eq!(code, expected);
}
