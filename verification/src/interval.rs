//! Interval flavor: lowers the virtual ISA to 2-lane SIMD AArch64 with
//! interval semantics and choice-byte emission.
//!
//! Each SIMD register holds an interval: lane 0 is the lower bound, lane 1
//! the upper bound.  The compiled function has the C signature
//! `fn([f32; 2], [f32; 2], [f32; 2], *mut u8) -> [f32; 2]`: the three input
//! intervals arrive packed in s0-s5 and are gathered into v0-v2 by the
//! prologue; x0 holds the pointer to the choice bytes, which every `min` and
//! `max` advances by one.  v4, v5 and x15/w16 are scratch within a single
//! lowering.
//!
//! A reciprocal whose input spans zero and a square root of a strictly
//! negative interval produce `[NaN, NaN]` by design; the compiled code loads
//! the quiet-NaN pattern `0x7FC00000` for those paths.

use vstd::prelude::*;
use crate::{IMM_REG, IMM_VREG, REGISTER_LIMIT, spec_reg, reg, valid_vreg};
use crate::enc::{
    COND_EQ, COND_NE, DUP_V4_2S_S0, FABS_2S, FADD_2S, FCMGT0_S, FCMGT_2S, FCMLE0_2S, FCMLT0_S,
    FDIV_2S, FMAX_2S, FMIN_2S, FMOV_D, FMOV_S4_ONE, FMOV_W15_S4, FMOV_X15_D4, FMOV_X15_D5,
    FMUL_2S, FMUL_4S, FNEG_2S, FSQRT_2S, FSQRT_S, FSUB_2S, LDRB_W16_X0, LDR_D_SP, MOVI_D4_0,
    ORR_W16_BOTH, ORR_W16_LEFT, ORR_W16_RIGHT, REV64_2S, STRB_W16_X0_POST, STR_D_SP, TST_W15_1,
    TST_X15_1, TST_X15_HI, ZIP1_2S, ZIP2_2S, e2, e3, e_b, e_bc, e_dup2d_el0, e_dup2s_w,
    e_fmaxnmv, e_fminnmv, e_ins_d, e_ins_s, e_mem_r, e_mov_s_el, e_movi_d0, e_movk, e_movz16,
    split_imm,
};
use crate::driver::{
    AssemblerData, AssemblerT, align16, compiled, count_from, count_word, grow_words, init_mem,
    init_mem_words, lemma_count_word_concat, lemma_seq_mem_bound, op_mem, op_words_fn,
    prologue_head, restore_words, seq_mem, slot_offset, slot_start, tape_words,
};
use crate::ops::{AsmOp, MEM_LIMIT, is_choice_op, num_choices, op_wf, slot_bytes, tape_wf};

verus! {

/// Words loading an immediate bit pattern into both lanes of the immediate
/// register through w15.
pub open spec fn interval_imm_words(imm: u32) -> Seq<u32> {
    seq![
        e_movz16(15, (imm >> 16) as nat),
        e_movk(15, (imm & 0xFFFF) as nat),
        e_dup2s_w(IMM_REG as u32, 15),
    ]
}

/// `neg [aL, aH] = [-aH, -aL]`: negate both lanes, then swap them.
pub open spec fn interval_neg_words(out: u8, lhs: u8) -> Seq<u32> {
    seq![
        e2(FNEG_2S, spec_reg(lhs), spec_reg(out)),
        e2(REV64_2S, spec_reg(out), spec_reg(out)),
    ]
}

/// `abs`: if the upper bound is negative, negate and swap; if only the lower
/// bound is negative, the result is `[0, max(|aL|, |aH|)]`; otherwise the
/// input passes through.
pub open spec fn interval_abs_words(out: u8, lhs: u8) -> Seq<u32> {
    seq![
        e2(FCMLE0_2S, spec_reg(lhs), 4),
        FMOV_X15_D4,
        e2(FABS_2S, spec_reg(lhs), spec_reg(out)),
        TST_X15_HI,
        e_bc(COND_NE, 24),
        TST_X15_1,
        e_bc(COND_EQ, 20),
        MOVI_D4_0,
        e_fmaxnmv(4, spec_reg(out)),
        e2(FMOV_D, 4, spec_reg(out)),
        e2(REV64_2S, spec_reg(out), spec_reg(out)),
    ]
}

/// `recip`: for an interval strictly above or below zero the result is
/// `[1/aH, 1/aL]`; an interval spanning zero yields `[NaN, NaN]`.
pub open spec fn interval_recip_words(out: u8, lhs: u8) -> Seq<u32> {
    seq![
        e2(FCMGT0_S, spec_reg(lhs), 4),
        FMOV_W15_S4,
        TST_W15_1,
        e_bc(COND_NE, 40),
        e_mov_s_el(4, spec_reg(lhs), 1),
        e2(FCMLT0_S, 4, 4),
        FMOV_W15_S4,
        TST_W15_1,
        e_bc(COND_NE, 20),
        e_movz16(15, 0x7FC0),
        e_movk(15, 0),
        e_dup2s_w(spec_reg(out), 15),
        e_b(20),
        FMOV_S4_ONE,
        DUP_V4_2S_S0,
        e3(FDIV_2S, spec_reg(lhs), 4, spec_reg(out)),
        e2(REV64_2S, spec_reg(out), spec_reg(out)),
    ]
}

/// `sqrt`: `[NaN, NaN]` for strictly negative inputs, `[0, sqrt(aH)]` when
/// only the lower bound is negative, lane-parallel square root otherwise.
pub open spec fn interval_sqrt_words(out: u8, lhs: u8) -> Seq<u32> {
    seq![
        e2(FCMLE0_2S, spec_reg(lhs), 4),
        FMOV_X15_D4,
        TST_X15_HI,
        e_bc(COND_NE, 40),
        TST_X15_1,
        e_bc(COND_NE, 12),
        e2(FSQRT_2S, spec_reg(lhs), spec_reg(out)),
        e_b(36),
        e_ins_s(4, 0, spec_reg(lhs), 1),
        e2(FSQRT_S, 4, 4),
        e_movi_d0(spec_reg(out)),
        e_ins_s(spec_reg(out), 1, 4, 0),
        e_b(16),
        e_movz16(9, 0x7FC0),
        e_movk(9, 0),
        e_dup2s_w(spec_reg(out), 9),
    ]
}

/// `square`: swap the squared lanes when the input is entirely negative;
/// `[0, max(aL², aH²)]` when it straddles zero; lane order kept otherwise.
pub open spec fn interval_square_words(out: u8, lhs: u8) -> Seq<u32> {
    seq![
        e2(FCMLE0_2S, spec_reg(lhs), 4),
        FMOV_X15_D4,
        e3(FMUL_2S, spec_reg(lhs), spec_reg(lhs), spec_reg(out)),
        TST_X15_HI,
        e_bc(COND_NE, 28),
        TST_X15_1,
        e_bc(COND_EQ, 24),
        e_fmaxnmv(4, spec_reg(out)),
        e_movi_d0(spec_reg(out)),
        e_ins_s(spec_reg(out), 1, 4, 0),
        e_b(8),
        e2(REV64_2S, spec_reg(out), spec_reg(out)),
    ]
}

/// `mul`: form all four endpoint products in a 4-lane vector, then reduce to
/// their minimum (lower bound) and maximum (upper bound).
pub open spec fn interval_mul_words(out: u8, lhs: u8, rhs: u8) -> Seq<u32> {
    seq![
        e2(REV64_2S, spec_reg(lhs), 4),
        e_ins_d(4, 1, spec_reg(lhs), 0),
        e_dup2d_el0(5, spec_reg(rhs)),
        e3(FMUL_4S, 5, 4, 4),
        e_fminnmv(spec_reg(out), 4),
        e_fmaxnmv(5, 4),
        e_ins_s(spec_reg(out), 1, 5, 0),
    ]
}

/// `max` with choice emission: two packed comparisons decide whether one
/// side dominates; the choice byte is OR-ed with `Left`, `Right` or `Both`
/// and the choice pointer in x0 advances by one.
pub open spec fn interval_max_words(out: u8, lhs: u8, rhs: u8) -> Seq<u32> {
    seq![
        e3(ZIP2_2S, spec_reg(rhs), spec_reg(lhs), 4),
        e3(ZIP1_2S, spec_reg(lhs), spec_reg(rhs), 5),
        e3(FCMGT_2S, 4, 5, 5),
        FMOV_X15_D5,
        LDRB_W16_X0,
        TST_X15_HI,
        e_bc(COND_NE, 24),
        TST_X15_1,
        e_bc(COND_EQ, 28),
        e2(FMOV_D, spec_reg(rhs), spec_reg(out)),
        ORR_W16_RIGHT,
        e_b(24),
        e2(FMOV_D, spec_reg(lhs), spec_reg(out)),
        ORR_W16_LEFT,
        e_b(12),
        e3(FMAX_2S, spec_reg(rhs), spec_reg(lhs), spec_reg(out)),
        ORR_W16_BOTH,
        STRB_W16_X0_POST,
    ]
}

/// `min` with choice emission; the mirror image of [`interval_max_words`].
pub open spec fn interval_min_words(out: u8, lhs: u8, rhs: u8) -> Seq<u32> {
    seq![
        e3(ZIP2_2S, spec_reg(rhs), spec_reg(lhs), 4),
        e3(ZIP1_2S, spec_reg(lhs), spec_reg(rhs), 5),
        e3(FCMGT_2S, 4, 5, 5),
        FMOV_X15_D5,
        LDRB_W16_X0,
        TST_X15_HI,
        e_bc(COND_NE, 24),
        TST_X15_1,
        e_bc(COND_EQ, 28),
        e2(FMOV_D, spec_reg(lhs), spec_reg(out)),
        ORR_W16_LEFT,
        e_b(24),
        e2(FMOV_D, spec_reg(rhs), spec_reg(out)),
        ORR_W16_RIGHT,
        e_b(12),
        e3(FMIN_2S, spec_reg(rhs), spec_reg(lhs), spec_reg(out)),
        ORR_W16_BOTH,
        STRB_W16_X0_POST,
    ]
}

/// Words lowering one virtual instruction in the interval flavor, given the
/// spill-frame size `mem` at that point.
pub open spec fn interval_op_words(op: AsmOp, mem: nat) -> Seq<u32> {
    match op {
        AsmOp::Load(r, m) => grow_words(mem, m, 8)
            + seq![e_mem_r(LDR_D_SP, 8, slot_offset(mem, m, 8), spec_reg(r))],
        AsmOp::Store(r, m) => grow_words(mem, m, 8)
            + seq![e_mem_r(STR_D_SP, 8, slot_offset(mem, m, 8), spec_reg(r))],
        AsmOp::Input(out, j) => seq![e2(FMOV_D, j as u32, spec_reg(out))],
        AsmOp::CopyReg(out, a) => seq![e2(FMOV_D, spec_reg(a), spec_reg(out))],
        AsmOp::NegReg(out, a) => interval_neg_words(out, a),
        AsmOp::AbsReg(out, a) => interval_abs_words(out, a),
        AsmOp::RecipReg(out, a) => interval_recip_words(out, a),
        AsmOp::SqrtReg(out, a) => interval_sqrt_words(out, a),
        AsmOp::SquareReg(out, a) => interval_square_words(out, a),
        AsmOp::AddRegReg(o, l, r) => seq![e3(FADD_2S, spec_reg(r), spec_reg(l), spec_reg(o))],
        AsmOp::MulRegReg(o, l, r) => interval_mul_words(o, l, r),
        AsmOp::SubRegReg(o, l, r) => seq![
            e2(REV64_2S, spec_reg(r), 4),
            e3(FSUB_2S, 4, spec_reg(l), spec_reg(o)),
        ],
        AsmOp::MinRegReg(o, l, r) => interval_min_words(o, l, r),
        AsmOp::MaxRegReg(o, l, r) => interval_max_words(o, l, r),
        AsmOp::AddRegImm(o, a, imm) => interval_imm_words(imm)
            + seq![e3(FADD_2S, spec_reg(IMM_VREG), spec_reg(a), spec_reg(o))],
        AsmOp::MulRegImm(o, a, imm) => interval_imm_words(imm)
            + interval_mul_words(o, a, IMM_VREG),
        AsmOp::SubImmReg(o, a, imm) => interval_imm_words(imm)
            + seq![
                e2(REV64_2S, spec_reg(a), 4),
                e3(FSUB_2S, 4, spec_reg(IMM_VREG), spec_reg(o)),
            ],
        AsmOp::SubRegImm(o, a, imm) => interval_imm_words(imm)
            + seq![
                e2(REV64_2S, spec_reg(IMM_VREG), 4),
                e3(FSUB_2S, 4, spec_reg(a), spec_reg(o)),
            ],
        AsmOp::MinRegImm(o, a, imm) => interval_imm_words(imm)
            + interval_min_words(o, a, IMM_VREG),
        AsmOp::MaxRegImm(o, a, imm) => interval_imm_words(imm)
            + interval_max_words(o, a, IMM_VREG),
        AsmOp::CopyImm(o, imm) => interval_imm_words(imm)
            + seq![e2(FMOV_D, spec_reg(IMM_VREG), spec_reg(o))],
    }
}

/// Prologue of the interval flavor: after the common head, gather the three
/// input intervals from s0-s5 into the lanes of v0-v2.
pub open spec fn interval_prologue(slots: nat) -> Seq<u32> {
    prologue_head() + seq![
        e_ins_s(0, 1, 1, 0),
        e_ins_s(1, 0, 2, 0),
        e_ins_s(1, 1, 3, 0),
        e_ins_s(2, 0, 4, 0),
        e_ins_s(2, 1, 5, 0),
    ] + init_mem_words(slots, 8)
}

/// Epilogue of the interval flavor: spread the result interval into s0/s1,
/// unwind, restore, return.
pub open spec fn interval_epilogue(out: u8, mem: nat) -> Seq<u32> {
    seq![
        e_mov_s_el(0, spec_reg(out), 0),
        e_mov_s_el(1, spec_reg(out), 1),
    ] + restore_words(mem)
}

/// An immediate load never stores a choice byte.
proof fn lemma_imm_count(imm: u32)
    ensures
        count_word(interval_imm_words(imm), STRB_W16_X0_POST) == 0,
{
    reveal_with_fuel(count_from, 5);
    assert(imm >> 16 < 0x10000 && imm & 0xFFFF < 0x10000) by (bit_vector);
}

#[verifier::rlimit(50)]
proof fn lemma_cnt_neg(o: u8, a: u8)
    requires
        o < REGISTER_LIMIT,
        valid_vreg(a),
    ensures
        count_word(interval_neg_words(o, a), STRB_W16_X0_POST) == 0,
{
    reveal_with_fuel(count_from, 25);
}

#[verifier::rlimit(50)]
proof fn lemma_cnt_abs(o: u8, a: u8)
    requires
        o < REGISTER_LIMIT,
        valid_vreg(a),
    ensures
        count_word(interval_abs_words(o, a), STRB_W16_X0_POST) == 0,
{
    reveal_with_fuel(count_from, 25);
}

#[verifier::rlimit(50)]
proof fn lemma_cnt_recip(o: u8, a: u8)
    requires
        o < REGISTER_LIMIT,
        valid_vreg(a),
    ensures
        count_word(interval_recip_words(o, a), STRB_W16_X0_POST) == 0,
{
    reveal_with_fuel(count_from, 25);
}

#[verifier::rlimit(50)]
proof fn lemma_cnt_sqrt(o: u8, a: u8)
    requires
        o < REGISTER_LIMIT,
        valid_vreg(a),
    ensures
        count_word(interval_sqrt_words(o, a), STRB_W16_X0_POST) == 0,
{
    reveal_with_fuel(count_from, 25);
}

#[verifier::rlimit(50)]
proof fn lemma_cnt_square(o: u8, a: u8)
    requires
        o < REGISTER_LIMIT,
        valid_vreg(a),
    ensures
        count_word(interval_square_words(o, a), STRB_W16_X0_POST) == 0,
{
    reveal_with_fuel(count_from, 25);
}

#[verifier::rlimit(50)]
proof fn lemma_cnt_mul(o: u8, l: u8, r: u8)
    requires
        o < REGISTER_LIMIT,
        valid_vreg(l),
        valid_vreg(r),
    ensures
        count_word(interval_mul_words(o, l, r), STRB_W16_X0_POST) == 0,
{
    reveal_with_fuel(count_from, 25);
}

#[verifier::rlimit(50)]
proof fn lemma_cnt_min(o: u8, l: u8, r: u8)
    requires
        o < REGISTER_LIMIT,
        valid_vreg(l),
        valid_vreg(r),
    ensures
        count_word(interval_min_words(o, l, r), STRB_W16_X0_POST) == 1,
{
    reveal_with_fuel(count_from, 25);
}

#[verifier::rlimit(50)]
proof fn lemma_cnt_max(o: u8, l: u8, r: u8)
    requires
        o < REGISTER_LIMIT,
        valid_vreg(l),
        valid_vreg(r),
    ensures
        count_word(interval_max_words(o, l, r), STRB_W16_X0_POST) == 1,
{
    reveal_with_fuel(count_from, 25);
}

/// The lowering of one instruction holds exactly one choice-store word (the
/// post-indexed byte store that advances the choice pointer) when the
/// instruction is a `min`/`max` node, and none otherwise.
proof fn lemma_interval_op_choice_stores(op: AsmOp, mem: nat)
    requires
        op_wf(op, 8),
        mem <= MEM_LIMIT,
    ensures
        count_word(interval_op_words(op, mem), STRB_W16_X0_POST)
            == if is_choice_op(op) { 1nat } else { 0nat },
{
    reveal_with_fuel(count_from, 5);
    let w = STRB_W16_X0_POST;
    match op {
        AsmOp::Load(r, m) => {
            assert(align16(slot_start(m, 8)) == slot_bytes(m, 8));
            lemma_count_word_concat(
                grow_words(mem, m, 8),
                seq![e_mem_r(LDR_D_SP, 8, slot_offset(mem, m, 8), spec_reg(r))],
                w,
            );
        }
        AsmOp::Store(r, m) => {
            assert(align16(slot_start(m, 8)) == slot_bytes(m, 8));
            lemma_count_word_concat(
                grow_words(mem, m, 8),
                seq![e_mem_r(STR_D_SP, 8, slot_offset(mem, m, 8), spec_reg(r))],
                w,
            );
        }
        AsmOp::Input(o, j) => {}
        AsmOp::CopyReg(o, a) => {}
        AsmOp::NegReg(o, a) => {
            lemma_cnt_neg(o, a);
        }
        AsmOp::AbsReg(o, a) => {
            lemma_cnt_abs(o, a);
        }
        AsmOp::RecipReg(o, a) => {
            lemma_cnt_recip(o, a);
        }
        AsmOp::SqrtReg(o, a) => {
            lemma_cnt_sqrt(o, a);
        }
        AsmOp::SquareReg(o, a) => {
            lemma_cnt_square(o, a);
        }
        AsmOp::AddRegReg(o, l, r) => {}
        AsmOp::MulRegReg(o, l, r) => {
            lemma_cnt_mul(o, l, r);
        }
        AsmOp::SubRegReg(o, l, r) => {}
        AsmOp::MinRegReg(o, l, r) => {
            lemma_cnt_min(o, l, r);
        }
        AsmOp::MaxRegReg(o, l, r) => {
            lemma_cnt_max(o, l, r);
        }
        AsmOp::AddRegImm(o, a, imm) => {
            lemma_imm_count(imm);
            lemma_count_word_concat(
                interval_imm_words(imm),
                seq![e3(FADD_2S, spec_reg(IMM_VREG), spec_reg(a), spec_reg(o))],
                w,
            );
        }
        AsmOp::MulRegImm(o, a, imm) => {
            lemma_imm_count(imm);
            lemma_cnt_mul(o, a, IMM_VREG);
            lemma_count_word_concat(interval_imm_words(imm), interval_mul_words(o, a, IMM_VREG), w);
        }
        AsmOp::SubImmReg(o, a, imm) => {
            lemma_imm_count(imm);
            lemma_count_word_concat(
                interval_imm_words(imm),
                seq![
                    e2(REV64_2S, spec_reg(a), 4),
                    e3(FSUB_2S, 4, spec_reg(IMM_VREG), spec_reg(o)),
                ],
                w,
            );
        }
        AsmOp::SubRegImm(o, a, imm) => {
            lemma_imm_count(imm);
            lemma_count_word_concat(
                interval_imm_words(imm),
                seq![
                    e2(REV64_2S, spec_reg(IMM_VREG), 4),
                    e3(FSUB_2S, 4, spec_reg(a), spec_reg(o)),
                ],
                w,
            );
        }
        AsmOp::MinRegImm(o, a, imm) => {
            lemma_imm_count(imm);
            lemma_cnt_min(o, a, IMM_VREG);
            lemma_count_word_concat(interval_imm_words(imm), interval_min_words(o, a, IMM_VREG), w);
        }
        AsmOp::MaxRegImm(o, a, imm) => {
            lemma_imm_count(imm);
            lemma_cnt_max(o, a, IMM_VREG);
            lemma_count_word_concat(interval_imm_words(imm), interval_max_words(o, a, IMM_VREG), w);
        }
        AsmOp::CopyImm(o, imm) => {
            lemma_imm_count(imm);
            lemma_count_word_concat(
                interval_imm_words(imm),
                seq![e2(FMOV_D, spec_reg(IMM_VREG), spec_reg(o))],
                w,
            );
        }
    }
}

/// The per-instruction stream of a well-formed tape holds exactly one
/// choice-store word per `min`/`max` node.
#[verifier::rlimit(50)]
proof fn lemma_interval_tape_choice_stores(ops: Seq<AsmOp>, mem: nat)
    requires
        tape_wf(ops, 8),
        mem <= MEM_LIMIT,
    ensures
        count_word(
            tape_words(ops, mem, op_words_fn::<IntervalAssembler>(), 8),
            STRB_W16_X0_POST,
        ) == num_choices(ops),
    decreases ops.len(),
{
    let f = op_words_fn::<IntervalAssembler>();
    if ops.len() > 0 {
        assert(op_wf(ops[0], 8));
        lemma_interval_op_choice_stores(ops[0], mem);
        lemma_seq_mem_bound(ops, mem, 8);
        assert(tape_wf(ops.skip(1), 8)) by {
            assert forall|i: int| 0 <= i < ops.skip(1).len()
                implies op_wf(#[trigger] ops.skip(1)[i], 8) by {
                assert(ops.skip(1)[i] == ops[i + 1]);
            }
        }
        lemma_interval_tape_choice_stores(ops.skip(1), op_mem(ops[0], mem, 8));
        lemma_count_word_concat(
            f(ops[0], mem),
            tape_words(ops.skip(1), op_mem(ops[0], mem, 8), f, 8),
            STRB_W16_X0_POST,
        );
    }
}

/// The compiled interval stream holds exactly one choice-store instruction
/// per `min`/`max` node of the tape: a full evaluation advances the choice
/// write pointer by exactly the tape's choice count, with no drift.
#[verifier::rlimit(50)]
pub proof fn lemma_interval_choice_stores(ops: Seq<AsmOp>, slots: nat)
    requires
        tape_wf(ops, 8),
        slots * 8 <= MEM_LIMIT as nat,
    ensures
        count_word(compiled::<IntervalAssembler>(ops, slots), STRB_W16_X0_POST)
            == num_choices(ops),
{
    reveal_with_fuel(count_from, 25);
    let mem0 = init_mem(slots, 8);
    let body = tape_words(ops, mem0, op_words_fn::<IntervalAssembler>(), 8);
    let tail = interval_epilogue(0, seq_mem(ops, mem0, 8));
    assert(align16(slots * 8) <= MEM_LIMIT) by {
        assert((slots * 8 + 15) / 16 * 16 <= MEM_LIMIT) by (nonlinear_arith)
            requires
                slots * 8 <= MEM_LIMIT as nat,
        ;
    }
    lemma_interval_tape_choice_stores(ops, mem0);
    lemma_seq_mem_bound(ops, mem0, 8);
    assert(count_word(interval_prologue(slots), STRB_W16_X0_POST) == 0);
    assert(count_word(tail, STRB_W16_X0_POST) == 0);
    lemma_count_word_concat(interval_prologue(slots) + body, tail, STRB_W16_X0_POST);
    lemma_count_word_concat(interval_prologue(slots), body, STRB_W16_X0_POST);
}

/// Assembler for the interval flavor.
pub struct IntervalAssembler(pub AssemblerData);

impl AssemblerT for IntervalAssembler {
    open spec fn words(&self) -> Seq<u32> {
        self.0.code@
    }

    open spec fn mem(&self) -> nat {
        self.0.mem_offset as nat
    }

    open spec fn inv(&self) -> bool {
        self.0.wf()
    }

    open spec fn elem_size() -> nat {
        8
    }

    open spec fn prologue(slots: nat) -> Seq<u32> {
        interval_prologue(slots)
    }

    open spec fn op_words(op: AsmOp, mem: nat) -> Seq<u32> {
        interval_op_words(op, mem)
    }

    open spec fn imm_words(imm: u32) -> Seq<u32> {
        interval_imm_words(imm)
    }

    open spec fn epilogue(out: u8, mem: nat) -> Seq<u32> {
        interval_epilogue(out, mem)
    }

    proof fn lemma_imm_ops(out: u8, a: u8, imm: u32, mem: nat) {
    }

    fn init(slot_count: usize) -> (s: Self) {
        let mut d = AssemblerData::new();
        d.push_prologue();
        d.push(0x6E00_0400 + (1 * 8 + 4) * 0x10000 + 0 * 0x2000 + 1 * 0x20 + 0);
        d.push(0x6E00_0400 + (0 * 8 + 4) * 0x10000 + 0 * 0x2000 + 2 * 0x20 + 1);
        d.push(0x6E00_0400 + (1 * 8 + 4) * 0x10000 + 0 * 0x2000 + 3 * 0x20 + 1);
        d.push(0x6E00_0400 + (0 * 8 + 4) * 0x10000 + 0 * 0x2000 + 4 * 0x20 + 2);
        d.push(0x6E00_0400 + (1 * 8 + 4) * 0x10000 + 0 * 0x2000 + 5 * 0x20 + 2);
        d.prep_slots(slot_count, 8);
        let s = IntervalAssembler(d);
        proof {
            assert(s.words() =~= interval_prologue(slot_count as nat));
        }
        s
    }

    fn build_load(&mut self, dst_reg: u8, src_mem: u32) {
        let sp_offset = self.0.check_stack(src_mem, 8);
        let rt = reg(dst_reg);
        self.0.push(LDR_D_SP + (sp_offset / 8) * 0x400 + rt);
        proof {
            assert(self.words() =~= old(self).words()
                + Self::op_words(AsmOp::Load(dst_reg, src_mem), old(self).mem()));
        }
    }

    fn build_store(&mut self, dst_mem: u32, src_reg: u8) {
        let sp_offset = self.0.check_stack(dst_mem, 8);
        let rt = reg(src_reg);
        self.0.push(STR_D_SP + (sp_offset / 8) * 0x400 + rt);
        proof {
            assert(self.words() =~= old(self).words()
                + Self::op_words(AsmOp::Store(src_reg, dst_mem), old(self).mem()));
        }
    }

    fn build_input(&mut self, out_reg: u8, src_arg: u8) {
        let rd = reg(out_reg);
        self.0.push(FMOV_D + (src_arg as u32) * 0x20 + rd);
        proof {
            assert(self.words() =~= old(self).words()
                + Self::op_words(AsmOp::Input(out_reg, src_arg), old(self).mem()));
        }
    }

    fn build_copy(&mut self, out_reg: u8, lhs_reg: u8) {
        let rd = reg(out_reg);
        let rn = reg(lhs_reg);
        self.0.push(FMOV_D + rn * 0x20 + rd);
        proof {
            assert(self.words() =~= old(self).words()
                + Self::op_words(AsmOp::CopyReg(out_reg, lhs_reg), old(self).mem()));
        }
    }

    fn build_neg(&mut self, out_reg: u8, lhs_reg: u8) {
        let rd = reg(out_reg);
        let rn = reg(lhs_reg);
        self.0.push(FNEG_2S + rn * 0x20 + rd);
        self.0.push(REV64_2S + rd * 0x20 + rd);
        proof {
            assert(self.words() =~= old(self).words()
                + Self::op_words(AsmOp::NegReg(out_reg, lhs_reg), old(self).mem()));
        }
    }

    #[verifier::rlimit(50)]
    fn build_abs(&mut self, out_reg: u8, lhs_reg: u8) {
        let rd = reg(out_reg);
        let rn = reg(lhs_reg);
        self.0.push(FCMLE0_2S + rn * 0x20 + 4);
        self.0.push(FMOV_X15_D4);
        self.0.push(FABS_2S + rn * 0x20 + rd);
        self.0.push(TST_X15_HI);
        self.0.push(0x5400_0000 + (24 / 4) * 0x20 + COND_NE);
        self.0.push(TST_X15_1);
        self.0.push(0x5400_0000 + (20 / 4) * 0x20 + COND_EQ);
        self.0.push(MOVI_D4_0);
        self.0.push(0x6E30_C800 + rd * 0x20 + 4);
        self.0.push(FMOV_D + 4 * 0x20 + rd);
        self.0.push(REV64_2S + rd * 0x20 + rd);
        proof {
            assert(self.words() =~= old(self).words()
                + Self::op_words(AsmOp::AbsReg(out_reg, lhs_reg), old(self).mem()));
        }
    }

    #[verifier::rlimit(50)]
    fn build_recip(&mut self, out_reg: u8, lhs_reg: u8) {
        let rd = reg(out_reg);
        let rn = reg(lhs_reg);
        self.0.push(FCMGT0_S + rn * 0x20 + 4);
        self.0.push(FMOV_W15_S4);
        self.0.push(TST_W15_1);
        self.0.push(0x5400_0000 + (40 / 4) * 0x20 + COND_NE);
        self.0.push(0x5E00_0400 + (1 * 8 + 4) * 0x10000 + rn * 0x20 + 4);
        self.0.push(FCMLT0_S + 4 * 0x20 + 4);
        self.0.push(FMOV_W15_S4);
        self.0.push(TST_W15_1);
        self.0.push(0x5400_0000 + (20 / 4) * 0x20 + COND_NE);
        self.0.push(0x52A0_0000 + 0x7FC0 * 0x20 + 15);
        self.0.push(0x7280_0000 + 0 * 0x20 + 15);
        self.0.push(0x0E04_0C00 + 15 * 0x20 + rd);
        self.0.push(0x1400_0000 + 20 / 4);
        self.0.push(FMOV_S4_ONE);
        self.0.push(DUP_V4_2S_S0);
        self.0.push(FDIV_2S + rn * 0x10000 + 4 * 0x20 + rd);
        self.0.push(REV64_2S + rd * 0x20 + rd);
        proof {
            assert(self.words() =~= old(self).words()
                + Self::op_words(AsmOp::RecipReg(out_reg, lhs_reg), old(self).mem()));
        }
    }

    #[verifier::rlimit(50)]
    fn build_sqrt(&mut self, out_reg: u8, lhs_reg: u8) {
        let rd = reg(out_reg);
        let rn = reg(lhs_reg);
        self.0.push(FCMLE0_2S + rn * 0x20 + 4);
        self.0.push(FMOV_X15_D4);
        self.0.push(TST_X15_HI);
        self.0.push(0x5400_0000 + (40 / 4) * 0x20 + COND_NE);
        self.0.push(TST_X15_1);
        self.0.push(0x5400_0000 + (12 / 4) * 0x20 + COND_NE);
        self.0.push(FSQRT_2S + rn * 0x20 + rd);
        self.0.push(0x1400_0000 + 36 / 4);
        self.0.push(0x6E00_0400 + (0 * 8 + 4) * 0x10000 + 1 * 0x2000 + rn * 0x20 + 4);
        self.0.push(FSQRT_S + 4 * 0x20 + 4);
        self.0.push(0x2F00_E400 + rd);
        self.0.push(0x6E00_0400 + (1 * 8 + 4) * 0x10000 + 0 * 0x2000 + 4 * 0x20 + rd);
        self.0.push(0x1400_0000 + 16 / 4);
        self.0.push(0x52A0_0000 + 0x7FC0 * 0x20 + 9);
        self.0.push(0x7280_0000 + 0 * 0x20 + 9);
        self.0.push(0x0E04_0C00 + 9 * 0x20 + rd);
        proof {
            assert(self.words() =~= old(self).words()
                + Self::op_words(AsmOp::SqrtReg(out_reg, lhs_reg), old(self).mem()));
        }
    }

    #[verifier::rlimit(50)]
    fn build_square(&mut self, out_reg: u8, lhs_reg: u8) {
        let rd = reg(out_reg);
        let rn = reg(lhs_reg);
        self.0.push(FCMLE0_2S + rn * 0x20 + 4);
        self.0.push(FMOV_X15_D4);
        self.0.push(FMUL_2S + rn * 0x10000 + rn * 0x20 + rd);
        self.0.push(TST_X15_HI);
        self.0.push(0x5400_0000 + (28 / 4) * 0x20 + COND_NE);
        self.0.push(TST_X15_1);
        self.0.push(0x5400_0000 + (24 / 4) * 0x20 + COND_EQ);
        self.0.push(0x6E30_C800 + rd * 0x20 + 4);
        self.0.push(0x2F00_E400 + rd);
        self.0.push(0x6E00_0400 + (1 * 8 + 4) * 0x10000 + 0 * 0x2000 + 4 * 0x20 + rd);
        self.0.push(0x1400_0000 + 8 / 4);
        self.0.push(REV64_2S + rd * 0x20 + rd);
        proof {
            assert(self.words() =~= old(self).words()
                + Self::op_words(AsmOp::SquareReg(out_reg, lhs_reg), old(self).mem()));
        }
    }

    fn build_add(&mut self, out_reg: u8, lhs_reg: u8, rhs_reg: u8) {
        let rd = reg(out_reg);
        let rn = reg(lhs_reg);
        let rm = reg(rhs_reg);
        self.0.push(FADD_2S + rm * 0x10000 + rn * 0x20 + rd);
        proof {
            assert(self.words() =~= old(self).words()
                + Self::op_words(AsmOp::AddRegReg(out_reg, lhs_reg, rhs_reg), old(self).mem()));
        }
    }

    fn build_sub(&mut self, out_reg: u8, lhs_reg: u8, rhs_reg: u8) {
        let rd = reg(out_reg);
        let rn = reg(lhs_reg);
        let rm = reg(rhs_reg);
        self.0.push(REV64_2S + rm * 0x20 + 4);
        self.0.push(FSUB_2S + 4 * 0x10000 + rn * 0x20 + rd);
        proof {
            assert(self.words() =~= old(self).words()
                + Self::op_words(AsmOp::SubRegReg(out_reg, lhs_reg, rhs_reg), old(self).mem()));
        }
    }

    #[verifier::rlimit(50)]
    fn build_mul(&mut self, out_reg: u8, lhs_reg: u8, rhs_reg: u8) {
        let rd = reg(out_reg);
        let rn = reg(lhs_reg);
        let rm = reg(rhs_reg);
        self.0.push(REV64_2S + rn * 0x20 + 4);
        self.0.push(0x6E00_0400 + (1 * 16 + 8) * 0x10000 + 0 * 0x4000 + rn * 0x20 + 4);
        self.0.push(0x4E08_0400 + rm * 0x20 + 5);
        self.0.push(FMUL_4S + 5 * 0x10000 + 4 * 0x20 + 4);
        self.0.push(0x6EB0_C800 + 4 * 0x20 + rd);
        self.0.push(0x6E30_C800 + 4 * 0x20 + 5);
        self.0.push(0x6E00_0400 + (1 * 8 + 4) * 0x10000 + 0 * 0x2000 + 5 * 0x20 + rd);
        proof {
            assert(self.words() =~= old(self).words()
                + Self::op_words(AsmOp::MulRegReg(out_reg, lhs_reg, rhs_reg), old(self).mem()));
        }
    }

    #[verifier::rlimit(50)]
    fn build_max(&mut self, out_reg: u8, lhs_reg: u8, rhs_reg: u8) {
        let rd = reg(out_reg);
        let rn = reg(lhs_reg);
        let rm = reg(rhs_reg);
        self.0.push(ZIP2_2S + rm * 0x10000 + rn * 0x20 + 4);
        self.0.push(ZIP1_2S + rn * 0x10000 + rm * 0x20 + 5);
        self.0.push(FCMGT_2S + 4 * 0x10000 + 5 * 0x20 + 5);
        self.0.push(FMOV_X15_D5);
        self.0.push(LDRB_W16_X0);
        self.0.push(TST_X15_HI);
        self.0.push(0x5400_0000 + (24 / 4) * 0x20 + COND_NE);
        self.0.push(TST_X15_1);
        self.0.push(0x5400_0000 + (28 / 4) * 0x20 + COND_EQ);
        self.0.push(FMOV_D + rm * 0x20 + rd);
        self.0.push(ORR_W16_RIGHT);
        self.0.push(0x1400_0000 + 24 / 4);
        self.0.push(FMOV_D + rn * 0x20 + rd);
        self.0.push(ORR_W16_LEFT);
        self.0.push(0x1400_0000 + 12 / 4);
        self.0.push(FMAX_2S + rm * 0x10000 + rn * 0x20 + rd);
        self.0.push(ORR_W16_BOTH);
        self.0.push(STRB_W16_X0_POST);
        proof {
            assert(self.words() =~= old(self).words()
                + Self::op_words(AsmOp::MaxRegReg(out_reg, lhs_reg, rhs_reg), old(self).mem()));
        }
    }

    #[verifier::rlimit(50)]
    fn build_min(&mut self, out_reg: u8, lhs_reg: u8, rhs_reg: u8) {
        let rd = reg(out_reg);
        let rn = reg(lhs_reg);
        let rm = reg(rhs_reg);
        self.0.push(ZIP2_2S + rm * 0x10000 + rn * 0x20 + 4);
        self.0.push(ZIP1_2S + rn * 0x10000 + rm * 0x20 + 5);
        self.0.push(FCMGT_2S + 4 * 0x10000 + 5 * 0x20 + 5);
        self.0.push(FMOV_X15_D5);
        self.0.push(LDRB_W16_X0);
        self.0.push(TST_X15_HI);
        self.0.push(0x5400_0000 + (24 / 4) * 0x20 + COND_NE);
        self.0.push(TST_X15_1);
        self.0.push(0x5400_0000 + (28 / 4) * 0x20 + COND_EQ);
        self.0.push(FMOV_D + rn * 0x20 + rd);
        self.0.push(ORR_W16_LEFT);
        self.0.push(0x1400_0000 + 24 / 4);
        self.0.push(FMOV_D + rm * 0x20 + rd);
        self.0.push(ORR_W16_RIGHT);
        self.0.push(0x1400_0000 + 12 / 4);
        self.0.push(FMIN_2S + rm * 0x10000 + rn * 0x20 + rd);
        self.0.push(ORR_W16_BOTH);
        self.0.push(STRB_W16_X0_POST);
        proof {
            assert(self.words() =~= old(self).words()
                + Self::op_words(AsmOp::MinRegReg(out_reg, lhs_reg, rhs_reg), old(self).mem()));
        }
    }

    fn load_imm(&mut self, imm: u32) -> (r: u8) {
        let (hi, lo) = split_imm(imm);
        self.0.push(0x52A0_0000 + hi * 0x20 + 15);
        self.0.push(0x7280_0000 + lo * 0x20 + 15);
        self.0.push(0x0E04_0C00 + 15 * 0x20 + IMM_REG as u32);
        proof {
            assert(self.words() =~= old(self).words() + Self::imm_words(imm));
        }
        IMM_REG.wrapping_sub(crate::OFFSET)
    }

    fn finalize(self, out_reg: u8) -> (code: Vec<u32>) {
        let ghost w0 = self.words();
        let ghost m0 = self.mem();
        let mut s = self;
        let rn = reg(out_reg);
        s.0.push(0x5E00_0400 + (0 * 8 + 4) * 0x10000 + rn * 0x20 + 0);
        s.0.push(0x5E00_0400 + (1 * 8 + 4) * 0x10000 + rn * 0x20 + 1);
        s.0.push_restore();
        proof {
            assert(s.0.code@ =~= w0 + interval_epilogue(out_reg, m0));
        }
        s.0.code
    }
}

} // verus!
