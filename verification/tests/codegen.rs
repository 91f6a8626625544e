//! Checks the emitted instruction streams against independently assembled
//! machine words.

use tapejit::driver::{AssemblerT, build_asm_fn};
use tapejit::float::FloatAssembler;
use tapejit::interval::IntervalAssembler;
use tapejit::ops::{AsmOp, Tape};
use tapejit::point::PointAssembler;
use tapejit::vector::VecAssembler;
use tapejit::reg;
use tapejit::x86::{build_point_x86, check_x86};

const PROLOGUE: [u32; 6] = [
    0xA9BF7BFD, // stp x29, x30, [sp, #-16]!
    0x910003FD, // mov x29, sp
    0x6DBF27E8, // stp d8, d9, [sp, #-16]!
    0x6DBF2FEA, // stp d10, d11, [sp, #-16]!
    0x6DBF37EC, // stp d12, d13, [sp, #-16]!
    0x6DBF3FEE, // stp d14, d15, [sp, #-16]!
];

fn restore(frame: u32) -> [u32; 7] {
    [
        0x910003FF + frame * 0x400, // add sp, sp, #frame
        0x6CC13FEE,                 // ldp d14, d15, [sp], #16
        0x6CC137EC,                 // ldp d12, d13, [sp], #16
        0x6CC12FEA,                 // ldp d10, d11, [sp], #16
        0x6CC127E8,                 // ldp d8, d9, [sp], #16
        0xA8C17BFD,                 // ldp x29, x30, [sp], #16
        0xD65F03C0,                 // ret
    ]
}

fn tape(ops: &[AsmOp]) -> Tape {
    let mut t = Tape::new();
    for &op in ops {
        t.push(op);
    }
    t
}

#[test]
fn test_reg_mapping() {
    assert_eq!(reg(0), 8);
    assert_eq!(reg(23), 31);
    // The wrapped index of the immediate register maps back to v6.
    assert_eq!(reg(254), 6);
}

#[test]
fn test_float_add_imm() {
    // f(x, y, z) = x + 2.5 * y
    let t = tape(&[
        AsmOp::Input(0, 0),
        AsmOp::Input(1, 1),
        AsmOp::MulRegImm(1, 1, 2.5f32.to_bits()),
        AsmOp::AddRegReg(0, 0, 1),
    ]);
    let code = build_asm_fn::<FloatAssembler>(&t, 0);
    let mut expected = PROLOGUE.to_vec();
    expected.extend([
        0x1E204008, // fmov s8, s0
        0x1E204029, // fmov s9, s1
        0x52A80409, // movz w9, #0x4020, lsl #16
        0x72800009, // movk w9, #0
        0x1E270126, // fmov s6, w9
        0x1E260929, // fmul s9, s9, s6
        0x1E292908, // fadd s8, s8, s9
        0x1E204100, // fmov s0, s8
    ]);
    expected.extend(restore(0));
    assert_eq!(code, expected);
}

#[test]
fn test_float_spill_growth() {
    let t = tape(&[
        AsmOp::Input(0, 0),
        AsmOp::Store(0, 24),
        AsmOp::Store(0, 30),
        AsmOp::Load(1, 30),
        AsmOp::AddRegReg(0, 0, 1),
    ]);
    let code = build_asm_fn::<FloatAssembler>(&t, 0);
    let mut expected = PROLOGUE.to_vec();
    expected.extend([
        0x1E204008, // fmov s8, s0
        0xBD0003E8, // str s8, [sp]        (slot 24, frame not grown)
        0xD10083FF, // sub sp, sp, #32     (slot 30 grows the frame)
        0xBD000BE8, // str s8, [sp, #8]
        0xBD400BE9, // ldr s9, [sp, #8]
        0x1E292908, // fadd s8, s8, s9
        0x1E204100, // fmov s0, s8
    ]);
    expected.extend(restore(32));
    assert_eq!(code, expected);
}

#[test]
fn test_float_initial_slots() {
    // An initial spill-slot count reserves the frame up front, 16-byte
    // aligned.
    let t = tape(&[AsmOp::Input(0, 0)]);
    let code = build_asm_fn::<FloatAssembler>(&t, 3);
    let mut expected = PROLOGUE.to_vec();
    expected.push(0xD10043FF); // sub sp, sp, #16
    expected.push(0x1E204008);
    expected.push(0x1E204100);
    expected.extend(restore(16));
    assert_eq!(code, expected);
}

#[test]
fn test_interval_min() {
    // f(x, y) = min(x, y)
    let t = tape(&[
        AsmOp::Input(0, 0),
        AsmOp::Input(1, 1),
        AsmOp::MinRegReg(0, 0, 1),
    ]);
    let code = build_asm_fn::<IntervalAssembler>(&t, 0);
    let mut expected = PROLOGUE.to_vec();
    expected.extend([
        0x6E0C0420, // mov v0.s[1], v1.s[0]
        0x6E040441, // mov v1.s[0], v2.s[0]
        0x6E0C0461, // mov v1.s[1], v3.s[0]
        0x6E040482, // mov v2.s[0], v4.s[0]
        0x6E0C04A2, // mov v2.s[1], v5.s[0]
        0x1E604008, // fmov d8, d0
        0x1E604029, // fmov d9, d1
        0x0E897904, // zip2 v4.2s, v8.2s, v9.2s
        0x0E883925, // zip1 v5.2s, v9.2s, v8.2s
        0x2EA4E4A5, // fcmgt v5.2s, v5.2s, v4.2s
        0x9E6600AF, // fmov x15, d5
        0x39400010, // ldrb w16, [x0]
        0xF26001FF, // tst x15, #0x100000000
        0x540000C1, // b.ne #24
        0xF24001FF, // tst x15, #0x1
        0x540000E0, // b.eq #28
        0x1E604108, // fmov d8, d8
        0x32000210, // orr w16, w16, #1
        0x14000006, // b #24
        0x1E604128, // fmov d8, d9
        0x321F0210, // orr w16, w16, #2
        0x14000003, // b #12
        0x0EA9F508, // fmin v8.2s, v8.2s, v9.2s
        0x32000610, // orr w16, w16, #3
        0x38001410, // strb w16, [x0], #1
        0x5E040500, // mov s0, v8.s[0]
        0x5E0C0501, // mov s1, v8.s[1]
    ]);
    expected.extend(restore(0));
    assert_eq!(code, expected);
}

#[test]
fn test_interval_choice_stores_match_choice_count() {
    // One choice-store instruction per min/max node, in tape order.
    let t = tape(&[
        AsmOp::Input(0, 0),
        AsmOp::Input(1, 1),
        AsmOp::MaxRegReg(0, 0, 1),
        AsmOp::Input(1, 2),
        AsmOp::MaxRegReg(0, 0, 1),
        AsmOp::MinRegImm(0, 0, 1.0f32.to_bits()),
    ]);
    let code = build_asm_fn::<IntervalAssembler>(&t, 0);
    let stores = code.iter().filter(|&&w| w == 0x38001410).count();
    assert_eq!(t.choice_count(), 3);
    assert_eq!(stores, 3);
}

#[test]
fn test_point_max_traces() {
    // f(x, y) = max(x, y) in the tracing scalar flavor.
    let t = tape(&[
        AsmOp::Input(0, 0),
        AsmOp::Input(1, 1),
        AsmOp::MaxRegReg(0, 0, 1),
    ]);
    let code = build_asm_fn::<PointAssembler>(&t, 0);
    let mut expected = PROLOGUE.to_vec();
    expected.extend([
        0x1E204008, // fmov s8, s0
        0x1E204029, // fmov s9, s1
        0x3940002E, // ldrb w14, [x1]
        0x1E292100, // fcmp s8, s9
        0x540000A4, // b.mi #20
        0x5400010C, // b.gt #32
        0x1E294908, // fmax s8, s8, s9
        0x320005CE, // orr w14, w14, #3
        0x14000008, // b #32
        0x1E204128, // fmov s8, s9
        0x321F01CE, // orr w14, w14, #2
        0x3900004E, // strb w14, [x2]
        0x14000004, // b #16
        0x1E204108, // fmov s8, s8
        0x320001CE, // orr w14, w14, #1
        0x3900004E, // strb w14, [x2]
        0x3800142E, // strb w14, [x1], #1
        0x1E204100, // fmov s0, s8
    ]);
    expected.extend(restore(0));
    assert_eq!(code, expected);
}

#[test]
fn test_point_var_and_div() {
    let mut a = PointAssembler::init(0);
    a.build_var(0, 3);
    a.build_div(1, 0, 0);
    let code = a.finalize(0);
    let mut expected = PROLOGUE.to_vec();
    expected.extend([
        0xBD400C08, // ldr s8, [x0, #12]
        0x1E281909, // fdiv s9, s8, s8
        0x1E204100, // fmov s0, s8
    ]);
    expected.extend(restore(0));
    assert_eq!(code, expected);
}

#[test]
fn test_vec_lowering() {
    // f(x, y, z) = x + x on four lanes at once.
    let t = tape(&[AsmOp::Input(0, 0), AsmOp::AddRegReg(0, 0, 0)]);
    let code = build_asm_fn::<VecAssembler>(&t, 0);
    let mut expected = PROLOGUE.to_vec();
    expected.extend([
        0x6D400400, // ldp d0, d1, [x0]
        0x6E180420, // mov v0.d[1], v1.d[0]
        0x6D400821, // ldp d1, d2, [x1]
        0x6E180441, // mov v1.d[1], v2.d[0]
        0x6D400C42, // ldp d2, d3, [x2]
        0x6E180462, // mov v2.d[1], v3.d[0]
    ]);
    for rd in 8..32 {
        expected.push(0x4F03F600 + rd); // fmov v{rd}.4s, #1.0
    }
    expected.extend([
        0x4EA01C08, // mov v8.16b, v0.16b
        0x4E28D508, // fadd v8.4s, v8.4s, v8.4s
        0x6E084500, // mov v0.d[0], v8.d[1]
        0x6D000068, // stp d8, d0, [x3]
    ]);
    expected.extend(restore(0));
    assert_eq!(code, expected);
}

#[test]
fn test_vec_spill_forms() {
    // Slot 24 of the vector flavor sits at offset 0 (near form); a slot past
    // 512 bytes goes through the x9-indirect form.
    let t = tape(&[
        AsmOp::Input(0, 0),
        AsmOp::Store(0, 60),
        AsmOp::Load(1, 60),
        AsmOp::AddRegReg(0, 0, 1),
    ]);
    let code = build_asm_fn::<VecAssembler>(&t, 0);
    // Slot 60: start = (60 - 24) * 16 = 576, frame 576, offset 0 after
    // growth... the slot starts 576 bytes below the top, so the frame grows
    // to 576 and the offset is 0: near form.
    assert!(code.contains(&(0xD10003FF + 576 * 0x400))); // sub sp, sp, #576
    let t2 = tape(&[
        AsmOp::Input(0, 0),
        AsmOp::Store(0, 100),
        AsmOp::Store(0, 62),
        AsmOp::AddRegReg(0, 0, 0),
    ]);
    // Slot 100 grows the frame to 1216; slot 62 then sits at offset
    // 1216 - 608 = 608 >= 512: far form through x9.
    let code2 = build_asm_fn::<VecAssembler>(&t2, 0);
    assert!(code2.contains(&(0x910003E9 + 608 * 0x400))); // add x9, sp, #608
}

#[test]
fn test_tape_check() {
    let good = tape(&[AsmOp::Load(0, 24), AsmOp::Store(0, 1000)]);
    assert!(good.check(4));
    // Slot 1000 needs (1000 - 24) * 16 = 15616 bytes of frame under the
    // 4-lane flavor: over the limit.
    assert!(!good.check(16));
    let bad_reg = tape(&[AsmOp::AddRegReg(24, 0, 0)]);
    assert!(!bad_reg.check(4));
    let bad_slot = tape(&[AsmOp::Load(0, 23)]);
    assert!(!bad_slot.check(4));
    let bad_input = tape(&[AsmOp::Input(0, 3)]);
    assert!(!bad_input.check(4));
}

#[test]
fn test_choice_count() {
    let t = tape(&[
        AsmOp::Input(0, 0),
        AsmOp::MinRegReg(0, 0, 0),
        AsmOp::MaxRegImm(0, 0, 0),
        AsmOp::AddRegReg(0, 0, 0),
        AsmOp::MinRegImm(0, 0, 0),
        AsmOp::MaxRegReg(0, 0, 0),
    ]);
    assert_eq!(t.choice_count(), 4);
    assert_eq!(tape(&[]).choice_count(), 0);
}

#[test]
fn test_x86_point_subset() {
    let t = tape(&[
        AsmOp::Input(0, 0),
        AsmOp::Input(1, 1),
        AsmOp::AddRegReg(0, 0, 1),
        AsmOp::NegReg(0, 0),
    ]);
    let code = build_point_x86(&t, 0).expect("supported subset");
    let expected: Vec<u8> = vec![
        0x55, // push rbp
        0x48, 0x89, 0xE5, // mov rbp, rsp
        0xF3, 0x0F, 0x11, 0x45, 0xFC, // movss [rbp-4], xmm0
        0xF3, 0x0F, 0x11, 0x4D, 0xF8, // movss [rbp-8], xmm1
        0xF3, 0x0F, 0x11, 0x55, 0xF4, // movss [rbp-12], xmm2
        0xF3, 0x44, 0x0F, 0x10, 0x45, 0xFC, // movss xmm8, [rbp-4]
        0xF3, 0x44, 0x0F, 0x10, 0x4D, 0xF8, // movss xmm9, [rbp-8]
        0xF3, 0x45, 0x0F, 0x58, 0xC1, // addss xmm8, xmm9
        0xB8, 0x00, 0x00, 0x00, 0x80, // mov eax, 0x80000000
        0x66, 0x0F, 0x6E, 0xF0, // movd xmm6, eax
        0x41, 0x0F, 0x57, 0xF0, // xorps xmm6, xmm8
        0xF3, 0x44, 0x0F, 0x10, 0xC6, // movss xmm8, xmm6
        0xF3, 0x41, 0x0F, 0x10, 0xC0, // movss xmm0, xmm8
        0x5D, // pop rbp
        0x48, 0x81, 0xC4, 0x00, 0x00, 0x00, 0x00, // add rsp, 0
        0xC3, // ret
    ];
    assert_eq!(code, expected);
}

#[test]
fn test_x86_point_reports_holes() {
    let t = tape(&[AsmOp::Input(0, 0), AsmOp::SqrtReg(0, 0)]);
    assert!(check_x86(&t));
    assert_eq!(build_point_x86(&t, 0), Err(AsmOp::SqrtReg(0, 0)));
    let deep = tape(&[AsmOp::Input(9, 0)]);
    // Virtual register 9 has no xmm backing on this target.
    assert!(!check_x86(&deep));
}
